//! A safe, contracted version of handing out two disjoint parts of a
//! vector: the two halves are returned as owned vectors whose contents
//! are pinned to the two ranges of the input.

use vstd::prelude::*;

verus! {

/// Splits `v` at `at`: the first result holds `v[..at]`, the second
/// holds `v[at..]`.
pub fn split_in_two(v: &Vec<i32>, at: usize) -> (r: (Vec<i32>, Vec<i32>))
    requires
        at <= v@.len(),
    ensures
        r.0@ == v@.take(at as int),
        r.1@ == v@.skip(at as int),
{
    let mut first: Vec<i32> = Vec::new();
    let mut i: usize = 0;
    while i < at
        invariant
            i <= at,
            at <= v@.len(),
            first@ == v@.take(i as int),
        decreases at - i,
    {
        first.push(v[i]);
        proof {
            assert(first@ =~= v@.take(i + 1 as int));
        }
        i += 1;
    }
    let mut second: Vec<i32> = Vec::new();
    let mut j: usize = at;
    while j < v.len()
        invariant
            at <= j <= v@.len(),
            second@ == v@.subrange(at as int, j as int),
        decreases v@.len() - j,
    {
        second.push(v[j]);
        proof {
            assert(second@ =~= v@.subrange(at as int, j + 1 as int));
        }
        j += 1;
    }
    proof {
        assert(first@ =~= v@.take(at as int));
        assert(second@ =~= v@.skip(at as int));
    }
    (first, second)
}

} // verus!
