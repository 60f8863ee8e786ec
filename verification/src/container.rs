//! Options of the `[Container]` section that have logic of their own: the paths to unmask, how
//! to notify systemd, and the image pull policy.

use vstd::prelude::*;

use crate::text::{ascii_lowercase, is_ascii_char, lowercase, push_string, str_eq, to_lowercase};
use crate::value::Value;

verus! {

/// Options for the `Unmask=` Quadlet option: all paths, or the listed ones.
#[derive(Debug, Clone, PartialEq, Eq)]
pub enum Unmask {
    All,
    Paths(Vec<String>),
}

/// [`Unmask`] with its paths as character sequences.
pub ghost enum UnmaskView {
    All,
    Paths(Seq<Seq<char>>),
}

impl View for Unmask {
    type V = UnmaskView;

    open spec fn view(&self) -> UnmaskView {
        match self {
            Unmask::All => UnmaskView::All,
            Unmask::Paths(ps) => UnmaskView::Paths(ps.deep_view()),
        }
    }
}

/// Adding `path`: once all paths are unmasked they stay so; a path that is "all" in any case
/// unmasks all paths; any other path is appended.
pub open spec fn add_path_spec(u: UnmaskView, path: Seq<char>) -> UnmaskView {
    match u {
        UnmaskView::All => UnmaskView::All,
        UnmaskView::Paths(ps) => if lowercase(path) == "all"@ {
            UnmaskView::All
        } else {
            UnmaskView::Paths(ps.push(path))
        },
    }
}

/// Adding `paths` in order.
pub open spec fn add_paths_spec(u: UnmaskView, paths: Seq<Seq<char>>) -> UnmaskView
    decreases paths.len(),
{
    if paths.len() == 0 {
        u
    } else {
        add_path_spec(add_paths_spec(u, paths.drop_last()), paths.last())
    }
}

/// The paths of an unmask list, with all paths written as "ALL".
pub open spec fn unmask_items(u: UnmaskView) -> Seq<Seq<char>> {
    match u {
        UnmaskView::All => seq!["ALL"@],
        UnmaskView::Paths(ps) => ps,
    }
}

impl Unmask {
    /// An empty unmask list.
    pub fn new() -> (r: Unmask)
        ensures
            r@ == UnmaskView::Paths(Seq::<Seq<char>>::empty()),
    {
        let v: Vec<String> = Vec::new();
        let r = Unmask::Paths(v);
        assert(v.deep_view() =~= Seq::<Seq<char>>::empty());
        r
    }

    /// Add a path to the unmask list. If the path is "ALL", in any case, the list becomes all
    /// paths and stays so.
    pub fn add_path(&mut self, path: String)
        ensures
            final(self)@ == add_path_spec(old(self)@, path@),
            (forall|i: int| 0 <= i < path@.len() ==> is_ascii_char(#[trigger] path@[i])) ==> {
                &&& ascii_lowercase(path@) == "all"@ ==> final(self)@ == UnmaskView::All
                &&& old(self)@ matches UnmaskView::Paths(ps) ==> (ascii_lowercase(path@) != "all"@
                    ==> final(self)@ == UnmaskView::Paths(ps.push(path@)))
            },
    {
        if let Unmask::All = self {
            return;
        }
        let lower = to_lowercase(path.as_str());
        if str_eq(lower.as_str(), "all") {
            *self = Unmask::All;
        } else if let Unmask::Paths(paths) = self {
            push_string(paths, path);
        }
    }

    /// Add each of `paths`, in order.
    pub fn extend(&mut self, paths: Vec<String>)
        ensures
            final(self)@ == add_paths_spec(old(self)@, paths.deep_view()),
    {
        let ghost all = paths.deep_view();
        let ghost start = self@;
        let mut i: usize = 0;
        while i < paths.len()
            invariant
                i <= paths@.len(),
                all == paths.deep_view(),
                self@ == add_paths_spec(start, all.subrange(0, i as int)),
            decreases paths@.len() - i,
        {
            let ghost pre = all.subrange(0, i + 1);
            assert(pre.drop_last() =~= all.subrange(0, i as int));
            self.add_path(paths[i].clone());
            i = i + 1;
        }
        assert(all.subrange(0, paths@.len() as int) =~= all);
    }

    /// The paths, giving "ALL" when all paths are unmasked.
    pub fn to_vec(&self) -> (r: Vec<String>)
        ensures
            r.deep_view() == unmask_items(self@),
    {
        let mut items: Vec<String> = Vec::new();
        match self {
            Unmask::All => {
                push_string(&mut items, "ALL".to_owned());
                assert(items.deep_view() =~= seq!["ALL"@]);
            },
            Unmask::Paths(ps) => {
                let mut i: usize = 0;
                assert(items.deep_view() =~= ps.deep_view().subrange(0, 0));
                while i < ps.len()
                    invariant
                        i <= ps@.len(),
                        items.deep_view() == ps.deep_view().subrange(0, i as int),
                    decreases ps@.len() - i,
                {
                    push_string(&mut items, ps[i].clone());
                    i = i + 1;
                    assert(items.deep_view() =~= ps.deep_view().subrange(0, i as int));
                }
                assert(ps.deep_view().subrange(0, ps@.len() as int) =~= ps.deep_view());
            },
        }
        items
    }

    /// An iterator over the paths, giving "ALL" when all paths are unmasked.
    pub fn iter(&self) -> (it: UnmaskIter)
        ensures
            it@ == unmask_items(self@),
    {
        let items = self.to_vec();
        let it = UnmaskIter { items, pos: 0 };
        assert(it@ =~= unmask_items(self@));
        it
    }
}

impl Default for Unmask {
    fn default() -> (r: Unmask)
        ensures
            r@ == UnmaskView::Paths(Seq::<Seq<char>>::empty()),
    {
        Unmask::new()
    }
}

/// Adding paths to a list that unmasks all paths leaves it unmasking all paths.
pub proof fn unmask_all_absorbs(paths: Seq<Seq<char>>)
    ensures
        add_paths_spec(UnmaskView::All, paths) == UnmaskView::All,
    decreases paths.len(),
{
    if paths.len() > 0 {
        unmask_all_absorbs(paths.drop_last());
    }
}

/// Adding paths that are not "all" to a list of paths appends them in order.
pub proof fn unmask_paths_append(ps: Seq<Seq<char>>, paths: Seq<Seq<char>>)
    requires
        forall|i: int| 0 <= i < paths.len() ==> lowercase(#[trigger] paths[i]) != "all"@,
    ensures
        add_paths_spec(UnmaskView::Paths(ps), paths) == UnmaskView::Paths(ps + paths),
    decreases paths.len(),
{
    if paths.len() > 0 {
        let init = paths.drop_last();
        assert forall|i: int| 0 <= i < init.len() implies lowercase(#[trigger] init[i]) != "all"@ by {
            assert(init[i] == paths[i]);
        }
        unmask_paths_append(ps, init);
        assert(ps + init.push(paths.last()) =~= ps + paths);
        assert(init.push(paths.last()) =~= paths);
    } else {
        assert(ps + paths =~= ps);
    }
}

/// An iterator over the paths of an [`Unmask`].
pub struct UnmaskIter {
    items: Vec<String>,
    pos: usize,
}

impl View for UnmaskIter {
    type V = Seq<Seq<char>>;

    /// The paths not yet given out.
    closed spec fn view(&self) -> Seq<Seq<char>> {
        self.items.deep_view().subrange(self.pos as int, self.items@.len() as int)
    }
}

impl UnmaskIter {
    #[verifier::type_invariant]
    spec fn inv(self) -> bool {
        self.pos <= self.items@.len()
    }

    /// The next path, if any is left.
    pub fn next(&mut self) -> (r: Option<String>)
        ensures
            old(self)@.len() == 0 ==> r is None && final(self)@ == old(self)@,
            old(self)@.len() > 0 ==> (r matches Some(p) && p@ == old(self)@[0] && final(self)@
                == old(self)@.drop_first()),
    {
        proof {
            use_type_invariant(&*self);
        }
        if self.pos < self.items.len() {
            let p = self.items[self.pos].clone();
            let ghost before = self@;
            assert(before[0] == self.items@[self.pos as int]@);
            self.pos = self.pos + 1;
            assert(self@ =~= before.drop_first());
            Some(p)
        } else {
            None
        }
    }
}

/// How to use the `NOTIFY_SOCKET` passed with systemd and `Type=notify`.
#[derive(Debug, Clone, Copy, PartialEq, Eq, Structural)]
pub enum Notify {
    /// Sends `READY` when the container has started.
    Conmon,
    /// Lets the OCI runtime pass the socket into the container to receive the ready notification.
    Container,
    /// Sends `READY` when the container has turned healthy.
    Healthy,
}

impl Notify {
    /// The default: `conmon`.
    pub fn default_value() -> (r: Notify)
        ensures
            r == Notify::Conmon,
    {
        Notify::Conmon
    }

    /// Returns `true` if notify is [`Notify::Conmon`].
    pub fn is_conmon(&self) -> (b: bool)
        ensures
            b == (*self == Notify::Conmon),
    {
        match self {
            Notify::Conmon => true,
            _ => false,
        }
    }

    /// Returns `true` if notify is [`Notify::Healthy`].
    pub fn is_healthy(&self) -> (b: bool)
        ensures
            b == (*self == Notify::Healthy),
    {
        match self {
            Notify::Healthy => true,
            _ => false,
        }
    }

    /// The value of the `Notify=` Quadlet option: `false`, `true` or `healthy`.
    pub fn to_value(&self) -> (v: Value)
        ensures
            v == (match *self {
                Notify::Conmon => Value::Bool(false),
                Notify::Container => Value::Bool(true),
                Notify::Healthy => Value::Str(v->Str_0),
            }),
            *self == Notify::Healthy ==> v->Str_0@ == "healthy"@,
    {
        match self {
            Notify::Conmon => Value::Bool(false),
            Notify::Container => Value::Bool(true),
            Notify::Healthy => Value::Str("healthy".to_owned()),
        }
    }
}

impl Default for Notify {
    fn default() -> (r: Notify)
        ensures
            r == Notify::Conmon,
    {
        Notify::Conmon
    }
}

/// Pull policies for container images.
#[derive(Debug, Clone, Copy, PartialEq, Eq, Structural)]
pub enum PullPolicy {
    /// Always pull the image and throw an error if the pull fails.
    Always,
    /// Pull the image only when it is not in the local containers storage.
    Missing,
    /// Never pull the image but use the one from the local containers storage.
    Never,
    /// Pull if the image on the registry is newer than the one in the local containers storage.
    Newer,
}

/// The name of a pull policy.
pub open spec fn pull_policy_name(p: PullPolicy) -> Seq<char> {
    match p {
        PullPolicy::Always => "always"@,
        PullPolicy::Missing => "missing"@,
        PullPolicy::Never => "never"@,
        PullPolicy::Newer => "newer"@,
    }
}

/// The image pull policy of a compose service.
#[derive(Debug, Clone, Copy, PartialEq, Eq, Structural)]
pub enum ComposePullPolicy {
    Always,
    Never,
    Missing,
    /// Build the image; Quadlet has no such policy.
    Build,
}

/// Error returned for the compose pull policy `build`, which Quadlet does not support.
#[derive(Debug, Clone, Copy, PartialEq, Eq, Structural)]
pub struct BuildPullPolicyError;

impl PullPolicy {
    /// The pull policy of a compose service: `always`, `never` and `missing` are the same.
    pub fn try_from_compose(value: ComposePullPolicy) -> (r: Result<PullPolicy, BuildPullPolicyError>)
        ensures
            match value {
                ComposePullPolicy::Always => r == Ok::<PullPolicy, BuildPullPolicyError>(
                    PullPolicy::Always,
                ),
                ComposePullPolicy::Never => r == Ok::<PullPolicy, BuildPullPolicyError>(
                    PullPolicy::Never,
                ),
                ComposePullPolicy::Missing => r == Ok::<PullPolicy, BuildPullPolicyError>(
                    PullPolicy::Missing,
                ),
                ComposePullPolicy::Build => r == Err::<PullPolicy, BuildPullPolicyError>(
                    BuildPullPolicyError,
                ),
            },
    {
        match value {
            ComposePullPolicy::Always => Ok(PullPolicy::Always),
            ComposePullPolicy::Never => Ok(PullPolicy::Never),
            ComposePullPolicy::Missing => Ok(PullPolicy::Missing),
            ComposePullPolicy::Build => Err(BuildPullPolicyError),
        }
    }

    /// The name of this pull policy.
    pub fn as_str(&self) -> (s: &'static str)
        ensures
            s@ == pull_policy_name(*self),
    {
        match self {
            PullPolicy::Always => "always",
            PullPolicy::Missing => "missing",
            PullPolicy::Never => "never",
            PullPolicy::Newer => "newer",
        }
    }
}

} // verus!
