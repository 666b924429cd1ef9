//! The closed-interval test that every table lookup is built on.
use vstd::prelude::*;

verus! {

/// `value` lies in the closed interval `[min, max]`.
pub open spec fn within(min: u16, max: u16, value: u16) -> bool {
    min <= value && value <= max
}

/// Tells whether `value` lies in the closed interval `[min, max]`.
/// A bracket with `min > max` holds no value.
pub fn in_bracket(min: u16, max: u16, value: u16) -> (r: bool)
    ensures
        r == within(min, max, value),
{
    min <= value && value <= max
}

} // verus!
