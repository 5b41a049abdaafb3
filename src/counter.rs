//! The tally of one day's builds.
use vstd::prelude::*;

verus! {

/// How many builds succeeded and how many failed on one day.
#[derive(Clone, Copy, Debug, PartialEq, Eq, Structural)]
pub struct Counter {
    pub success: usize,
    pub fail: usize,
}

impl Counter {
    pub open spec fn zero_spec() -> Counter {
        Counter { success: 0, fail: 0 }
    }

    /// The tally of a day on which nothing was recorded yet.
    pub fn zero() -> (r: Counter)
        ensures
            r == Counter::zero_spec(),
    {
        Counter { success: 0, fail: 0 }
    }

    pub fn new(success: usize, fail: usize) -> (r: Counter)
        ensures
            r.success == success,
            r.fail == fail,
    {
        Counter { success, fail }
    }
}

} // verus!
