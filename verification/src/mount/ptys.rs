//! The maximum number of PTYs of a devpts mount.

use vstd::prelude::*;

verus! {

/// The default maximum number of PTYs of a devpts mount.
pub fn default() -> (n: u32)
    ensures
        n == 1_048_576,
{
    1_048_576
}

/// Whether `ptys` is the default, so that it is left out when written.
pub fn skip_default(ptys: u32) -> (b: bool)
    ensures
        b == (ptys == 1_048_576),
{
    ptys == default()
}

} // verus!
