//! The count of finished units of work that a computation keeps while it runs.

use vstd::prelude::*;

verus! {

/// Counts how often the recursive computation has reached its unit case.
///
/// One computation holds the counter exclusively while it runs, so nothing
/// else can write it; whoever wants to follow the count from elsewhere is
/// handed each new value as it is reached.
#[derive(Debug)]
pub struct ProgressCounter {
    hits: u128,
}

impl View for ProgressCounter {
    type V = nat;

    closed spec fn view(&self) -> nat {
        self.hits as nat
    }
}

impl ProgressCounter {
    /// A counter at zero.
    pub fn new() -> (counter: Self)
        ensures
            counter@ == 0,
    {
        ProgressCounter { hits: 0 }
    }

    /// The current count.
    pub fn value(&self) -> (count: u128)
        ensures
            count == self@,
    {
        self.hits
    }

    /// Adds one to the count and returns the new count.
    pub fn increment(&mut self) -> (count: u128)
        requires
            old(self)@ < u128::MAX,
        ensures
            final(self)@ == old(self)@ + 1,
            count == final(self)@,
    {
        self.hits = self.hits + 1;
        self.hits
    }
}

} // verus!
