//! When the serializers leave a value out.

use vstd::prelude::*;
use vstd::std_specs::cmp::PartialEqSpec;

verus! {

/// Skip serializing `bool`s that are `true`.
pub fn skip_true(b: bool) -> (r: bool)
    ensures
        r == b,
{
    b
}

/// Skip serializing values equal to their type's default: the result is whether `value` equals
/// the value that `T::default` gives, as `T`'s `==` decides.
pub fn skip_default<T: Default + PartialEq>(value: &T) -> (r: bool)
    ensures
        exists|d: T|
            #[trigger] call_ensures(T::default, (), d) && (T::obeys_eq_spec() ==> r == value.eq_spec(&d)),
{
    let d = T::default();
    let r = *value == d;
    assert(call_ensures(T::default, (), d));
    assert(T::obeys_eq_spec() ==> r == value.eq_spec(&d));
    r
}

} // verus!
