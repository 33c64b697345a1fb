//! A counter that yields the numbers one through five, one per call, and
//! nothing afterwards.

use vstd::prelude::*;

verus! {

/// Anything that can be asked for a next item until it runs out.
pub trait Iterator {
    type Item;

    fn next(&mut self) -> Option<Self::Item>;
}

/// Counts calls: yields `Some(1)` through `Some(5)` on the first five calls
/// to `next`, then `None`.
pub struct Counter {
    count: u32,
}

impl View for Counter {
    type V = u32;

    closed spec fn view(&self) -> u32 {
        self.count
    }
}

impl Counter {
    /// A fresh counter that has yielded nothing yet.
    pub fn new() -> (c: Counter)
        ensures
            c@ == 0,
    {
        Counter { count: 0 }
    }

    /// Advances the count by one and yields it while it is still below six;
    /// from the sixth call on, yields nothing.
    pub fn next(&mut self) -> (r: Option<u32>)
        requires
            old(self)@ < u32::MAX,
        ensures
            final(self)@ == old(self)@ + 1,
            old(self)@ < 5 ==> r == Some((old(self)@ + 1) as u32),
            old(self)@ >= 5 ==> r is None,
    {
        self.count = self.count + 1;
        if self.count < 6 {
            Some(self.count)
        } else {
            None
        }
    }
}

} // verus!
