//! Host paths: relative paths are resolved against a directory and cleaned.

use vstd::prelude::*;

use crate::text::{push_char, push_str};

verus! {

/// The path that `path_clean` makes of a path, lexically: repeated slashes reduced, "." and
/// "dir/.." removed, "/.." at the root replaced by "/", and "." for an empty result.
pub uninterp spec fn cleaned(path: Seq<char>) -> Seq<char>;

/// Clean a path lexically.
///
/// Calls `path_clean::clean` and reads the result back as a string. The contract claims that the
/// result is [`cleaned`] of the argument and, as the crate documents ("." for an empty result),
/// that it is not empty.
#[verifier::external_body]
fn clean(path: &str) -> (r: String)
    ensures
        r@ == cleaned(path@),
        r@.len() > 0,
{
    path_clean::clean(path).to_string_lossy().into_owned()
}

/// A path is absolute when it starts with '/', or with '%', a systemd specifier.
pub open spec fn is_absolute(path: Seq<char>) -> bool {
    path.len() > 0 && (path[0] == '/' || path[0] == '%')
}

/// `dir` joined with the relative path `path`: a '/' between them unless `dir` is empty or ends
/// with one.
pub open spec fn joined(dir: Seq<char>, path: Seq<char>) -> Seq<char> {
    if dir.len() == 0 || dir.last() == '/' {
        dir + path
    } else {
        dir + seq!['/'] + path
    }
}

/// The absolute path that `path` names when relative paths start from `dir`.
pub open spec fn resolved(dir: Seq<char>, path: Seq<char>) -> Seq<char> {
    if is_absolute(path) {
        path
    } else {
        joined(dir, path)
    }
}

/// `path`, resolved against `resolve_dir` if it is relative.
pub fn resolve_path(resolve_dir: &str, path: &str) -> (r: String)
    ensures
        r@ == resolved(resolve_dir@, path@),
{
    let absolute = if path.unicode_len() > 0 {
        let c = path.get_char(0);
        c == '/' || c == '%'
    } else {
        false
    };
    if absolute {
        path.to_owned()
    } else {
        let mut full = resolve_dir.to_owned();
        let n = resolve_dir.unicode_len();
        if n > 0 && resolve_dir.get_char(n - 1) != '/' {
            push_char(&mut full, '/');
        }
        push_str(&mut full, path);
        assert(full@ =~= joined(resolve_dir@, path@));
        full
    }
}

/// If `path` is relative, it is resolved against `resolve_dir`; the result is cleaned.
pub fn absolute_clean_path(resolve_dir: &str, path: &str) -> (r: String)
    ensures
        r@ == cleaned(resolved(resolve_dir@, path@)),
{
    let full = resolve_path(resolve_dir, path);
    clean(full.as_str())
}

} // verus!
