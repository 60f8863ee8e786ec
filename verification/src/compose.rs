//! Options of the conversion of a compose file into Quadlet files, and the files it produces.

use vstd::prelude::*;

use crate::quadlet_ser::{JoinOption, contains_option};

verus! {

/// A generated output file, held entirely in memory.
#[derive(Debug, Clone, PartialEq, Eq)]
pub struct GeneratedFile {
    /// The file name, with its extension.
    pub name: String,
    /// The serialized contents of the file.
    pub content: String,
}

/// Options controlling how a compose file is converted into Quadlet files.
#[derive(Debug, Clone, PartialEq, Eq)]
pub struct ComposeOptions {
    /// Create a `.pod` file and link it with each `.container` file.
    pub pod: bool,
    /// Create a Kubernetes YAML file for a pod instead of separate containers.
    pub kube: bool,
    /// Set `ContainerName=` for each container to the compose service name.
    pub add_container_name: bool,
    /// Quadlet options to split onto separate lines instead of joining them together.
    pub split_options: Vec<JoinOption>,
}

impl ComposeOptions {
    /// The defaults: no pod, no Kubernetes YAML, no container names, all options joined.
    pub fn new() -> (r: ComposeOptions)
        ensures
            !r.pod && !r.kube && !r.add_container_name,
            r.split_options@.len() == 0,
    {
        ComposeOptions {
            pod: false,
            kube: false,
            add_container_name: false,
            split_options: Vec::new(),
        }
    }

    /// The Quadlet options to join onto one line: all joinable options but those to split, each
    /// once.
    pub fn join_options(&self) -> (r: Vec<JoinOption>)
        ensures
            forall|o: JoinOption| r@.contains(o) <==> !self.split_options@.contains(o),
            r@.no_duplicates(),
    {
        let all = JoinOption::all_set();
        let mut r: Vec<JoinOption> = Vec::new();
        let mut i: usize = 0;
        while i < all.len()
            invariant
                i <= all@.len(),
                forall|o: JoinOption| all@.contains(o),
                forall|o: JoinOption|
                    r@.contains(o) <==> (all@.subrange(0, i as int).contains(o)
                        && !self.split_options@.contains(o)),
                r@.no_duplicates(),
            decreases all@.len() - i,
        {
            let o = all[i];
            let split = contains_option(&self.split_options, o);
            let present = contains_option(&r, o);
            let ghost before = r@;
            if !split && !present {
                r.push(o);
            }
            proof {
                let sub = all@.subrange(0, i as int);
                let sub2 = all@.subrange(0, i + 1);
                assert(sub2 =~= sub.push(o));
                assert(sub2[i as int] == o);
                assert forall|x: JoinOption| r@.contains(x) <==> (sub2.contains(x)
                    && !self.split_options@.contains(x)) by {
                    if !split && !present {
                        assert(r@ =~= before.push(o));
                        assert(r@[before.len() as int] == o);
                        if r@.contains(x) && x != o {
                            let idx = choose|idx: int| 0 <= idx < r@.len() && r@[idx] == x;
                            assert(before[idx] == x);
                        }
                        if before.contains(x) {
                            let idx = choose|idx: int| 0 <= idx < before.len() && before[idx] == x;
                            assert(r@[idx] == x);
                        }
                    } else {
                        assert(r@ == before);
                    }
                    if sub2.contains(x) && x != o {
                        let idx = choose|idx: int| 0 <= idx < sub2.len() && #[trigger] sub2[idx] == x;
                        assert(sub[idx] == x);
                    }
                    if sub.contains(x) {
                        let idx = choose|idx: int| 0 <= idx < sub.len() && #[trigger] sub[idx] == x;
                        assert(sub2[idx] == x);
                    }
                }
                if !split && !present {
                    assert(r@ =~= before.push(o));
                    assert forall|a: int, b: int| 0 <= a < b < r@.len() implies r@[a] != r@[b] by {
                        if b == before.len() {
                            assert(before.contains(before[a]));
                        }
                    }
                }
            }
            i = i + 1;
        }
        proof {
            assert forall|o: JoinOption| r@.contains(o) <==> !self.split_options@.contains(o) by {
                assert(all@.subrange(0, all@.len() as int) =~= all@);
            }
        }
        r
    }
}

impl Default for ComposeOptions {
    fn default() -> (r: ComposeOptions)
        ensures
            !r.pod && !r.kube && !r.add_container_name,
            r.split_options@.len() == 0,
    {
        ComposeOptions::new()
    }
}

} // verus!
