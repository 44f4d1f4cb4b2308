//! Progress of a batch as an exact fraction.

use vstd::prelude::*;

verus! {

/// The part of a batch that is done: `completed` of `total` files, a fraction
/// between zero and one.
#[derive(Clone, Copy, Debug, PartialEq, Eq)]
pub struct Progress {
    completed: usize,
    total: usize,
}

impl Progress {
    /// A fraction has a denominator and does not exceed one.
    #[verifier::type_invariant]
    spec fn in_unit_interval(self) -> bool {
        self.completed <= self.total && self.total > 0
    }

    /// Number of files that are done: the numerator.
    pub closed spec fn spec_completed(self) -> nat {
        self.completed as nat
    }

    /// Number of files in the batch: the denominator.
    pub closed spec fn spec_total(self) -> nat {
        self.total as nat
    }

    /// The fraction `completed / total`, or `None` where `total` is zero or
    /// `completed` exceeds it.
    pub fn new(completed: usize, total: usize) -> (progress: Option<Progress>)
        ensures
            progress is Some <==> completed <= total && total > 0,
            progress matches Some(p) ==> p.spec_completed() == completed && p.spec_total()
                == total,
    {
        if completed <= total && total > 0 {
            Some(Progress { completed, total })
        } else {
            None
        }
    }

    /// Nothing done yet: zero of one.
    pub closed spec fn spec_zero() -> Progress {
        Progress { completed: 0, total: 1 }
    }

    /// Nothing done yet: zero of one.
    pub fn zero() -> (progress: Progress)
        ensures
            progress == Progress::spec_zero(),
            progress.spec_completed() == 0,
            progress.spec_total() == 1,
    {
        Progress { completed: 0, total: 1 }
    }

    /// Number of files that are done. It never exceeds the total.
    pub fn completed(&self) -> (completed: usize)
        ensures
            completed == self.spec_completed(),
            completed <= self.spec_total(),
    {
        proof {
            use_type_invariant(self);
        }
        self.completed
    }

    /// Number of files in the batch. It is never zero.
    pub fn total(&self) -> (total: usize)
        ensures
            total == self.spec_total(),
            total > 0,
    {
        proof {
            use_type_invariant(self);
        }
        self.total
    }

    /// Whether every file is done.
    pub fn is_complete(&self) -> (complete: bool)
        ensures
            complete <==> self.spec_completed() == self.spec_total(),
    {
        self.completed == self.total
    }
}

} // verus!
