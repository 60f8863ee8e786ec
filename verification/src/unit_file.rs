//! Unit files that systemd already knows, and whether a generated file would conflict with one.

use vstd::prelude::*;

use crate::text::{chars, starts_with_at, str_eq};

verus! {

/// A unit file that systemd lists: its file name and its status.
#[derive(Debug, Clone, PartialEq, Eq)]
pub struct UnitFile {
    pub file_name: String,
    pub status: String,
}

impl UnitFile {
    /// A unit file from the pair of its file name and its status.
    pub fn from_pair(value: (String, String)) -> (r: UnitFile)
        ensures
            r.file_name == value.0,
            r.status == value.1,
    {
        UnitFile { file_name: value.0, status: value.1 }
    }
}

/// `t` occurs in `s`.
pub open spec fn contains_text(s: Seq<char>, t: Seq<char>) -> bool {
    exists|i: int| 0 <= i <= s.len() - t.len() && #[trigger] s.subrange(i, i + t.len()) == t
}

/// `t` occurs in `s`.
pub fn str_contains(s: &str, t: &str) -> (b: bool)
    ensures
        b == contains_text(s@, t@),
{
    let v = chars(s);
    let n = t.unicode_len();
    if n > v.len() {
        return false;
    }
    let mut i: usize = 0;
    while i <= v.len() - n
        invariant
            v@ == s@,
            n == t@.len(),
            n <= v@.len(),
            i <= v@.len() - n + 1,
            forall|j: int| 0 <= j < i ==> #[trigger] s@.subrange(j, j + n) != t@,
        decreases v@.len() - n + 1 - i,
    {
        if starts_with_at(&v, i, v.len(), t) {
            assert(v@.subrange(i as int, v@.len() as int).subrange(0, n as int) =~= s@.subrange(
                i as int,
                i + n,
            ));
            return true;
        }
        assert(v@.subrange(i as int, v@.len() as int).subrange(0, n as int) =~= s@.subrange(
            i as int,
            i + n,
        ));
        i = i + 1;
    }
    false
}

/// A unit file conflicts with a generated service when its name holds the service's name,
/// unless overwriting is allowed and the unit file was generated.
pub open spec fn conflicts(u: UnitFile, service: Seq<char>, overwrite: bool) -> bool {
    !(overwrite && u.status@ == "generated"@) && contains_text(u.file_name@, service)
}

/// The first unit file, in order, that conflicts with one of the generated files `files`,
/// each a name and its service; with the name of that generated file.
pub fn find_conflict(unit_files: &Vec<UnitFile>, files: &Vec<(String, String)>, overwrite: bool) -> (r:
    Option<(usize, usize)>)
    ensures
        match r {
            Some((i, j)) => i < unit_files@.len() && j < files@.len() && conflicts(
                unit_files@[i as int],
                files@[j as int].1@,
                overwrite,
            ) && (forall|a: int, b: int|
                0 <= a < unit_files@.len() && 0 <= b < files@.len() && (a < i || (a == i && b < j))
                    ==> !conflicts(unit_files@[a], files@[b].1@, overwrite)),
            None => forall|a: int, b: int|
                0 <= a < unit_files@.len() && 0 <= b < files@.len() ==> !conflicts(
                    unit_files@[a],
                    files@[b].1@,
                    overwrite,
                ),
        },
{
    let mut i: usize = 0;
    while i < unit_files.len()
        invariant
            i <= unit_files@.len(),
            forall|a: int, b: int|
                0 <= a < i && 0 <= b < files@.len() ==> !conflicts(
                    unit_files@[a],
                    files@[b].1@,
                    overwrite,
                ),
        decreases unit_files@.len() - i,
    {
        let u = &unit_files[i];
        let generated = str_eq(u.status.as_str(), "generated");
        let mut j: usize = 0;
        while j < files.len()
            invariant
                i < unit_files@.len(),
                j <= files@.len(),
                u == unit_files@[i as int],
                generated == (u.status@ == "generated"@),
                forall|a: int, b: int|
                    0 <= a < i && 0 <= b < files@.len() ==> !conflicts(
                        unit_files@[a],
                        files@[b].1@,
                        overwrite,
                    ),
                forall|b: int| 0 <= b < j ==> !conflicts(unit_files@[i as int], files@[b].1@, overwrite),
            decreases files@.len() - j,
        {
            if !(overwrite && generated) && str_contains(u.file_name.as_str(), files[j].1.as_str()) {
                return Some((i, j));
            }
            j = j + 1;
        }
        i = i + 1;
    }
    None
}

} // verus!
