//! Higher-order functions: applying a caller-supplied function, given
//! either as a closure or as a function pointer, and handing a closure
//! back, each with a contract over the function value's own contract.

use vstd::prelude::*;

verus! {

/// Adds one.
pub fn increment(i: u32) -> (r: u32)
    requires
        i < u32::MAX,
    ensures
        r == i + 1,
{
    i + 1
}

/// Applies `f` to two; the result is whatever `f` may return there.
pub fn apply_at_two<F: Fn(u32) -> u32>(f: &F) -> (r: u32)
    requires
        call_requires(*f, (2u32,)),
    ensures
        call_ensures(*f, (2u32,), r),
{
    f(2)
}

/// Applies `f`, taken by value as a plain function would be, to three.
pub fn apply_at_three<F: Fn(u32) -> u32>(f: F) -> (r: u32)
    requires
        call_requires(f, (3u32,)),
    ensures
        call_ensures(f, (3u32,), r),
{
    f(3)
}

/// Hands back a closure that adds one to anything below the largest
/// value.
pub fn returns_closure() -> (f: impl Fn(i32) -> i32)
    ensures
        forall|x: i32| x < i32::MAX ==> #[trigger] call_requires(f, (x,)),
        forall|x: i32, y: i32| #[trigger] call_ensures(f, (x,), y) ==> y == x + 1,
{
    |x: i32| -> (y: i32)
        requires
            x < i32::MAX,
        ensures
            y == x + 1,
        {
            x + 1
        }
}

} // verus!
