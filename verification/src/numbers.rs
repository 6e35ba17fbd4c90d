//! Integer helpers: an absolute value with an exact contract.

use vstd::prelude::*;

verus! {

/// The absolute value of `x`. The most negative value has no
/// representable absolute value, so it is excluded.
pub fn abs_i32(x: i32) -> (r: i32)
    requires
        x != i32::MIN,
    ensures
        r == if x < 0 { -(x as int) } else { x as int },
        r >= 0,
{
    if x < 0 {
        -x
    } else {
        x
    }
}

} // verus!
