//! Building a vector by pushing each given value in turn, written out
//! as plain functions.

use vstd::prelude::*;

verus! {

/// A vector of exactly the three given values, in order.
pub fn vec_new_three(a: i32, b: i32, c: i32) -> (r: Vec<i32>)
    ensures
        r@ == seq![a, b, c],
{
    let mut temp_vec: Vec<i32> = Vec::new();
    temp_vec.push(a);
    temp_vec.push(b);
    temp_vec.push(c);
    proof {
        assert(temp_vec@ =~= seq![a, b, c]);
    }
    temp_vec
}

/// A fresh vector holding the same values as `values`.
pub fn vec_new_from(values: &Vec<i32>) -> (r: Vec<i32>)
    ensures
        r@ == values@,
{
    let mut temp_vec: Vec<i32> = Vec::new();
    let mut i: usize = 0;
    while i < values.len()
        invariant
            i <= values@.len(),
            temp_vec@ == values@.take(i as int),
        decreases values@.len() - i,
    {
        temp_vec.push(values[i]);
        proof {
            assert(temp_vec@ =~= values@.take(i + 1 as int));
        }
        i += 1;
    }
    proof {
        assert(temp_vec@ =~= values@);
    }
    temp_vec
}

} // verus!
