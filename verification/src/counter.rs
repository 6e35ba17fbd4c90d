//! A counter held as an ordinary value rather than as mutable global
//! state, so every change to it is visible in a contract.

use vstd::prelude::*;

verus! {

/// A running count.
pub struct Counter {
    pub count: isize,
}

impl Counter {
    /// A fresh counter starts at zero.
    pub fn new() -> (c: Counter)
        ensures
            c.count == 0,
    {
        Counter { count: 0 }
    }

    /// Steps the count up by one.
    pub fn increment(&mut self)
        requires
            old(self).count < isize::MAX,
        ensures
            final(self).count == old(self).count + 1,
    {
        self.count = self.count + 1;
    }

    /// The current count.
    pub fn current(&self) -> (n: isize)
        ensures
            n == self.count,
    {
        self.count
    }
}

} // verus!
