use vstd::prelude::*;

verus! {

/// The most alternating-projection rounds the nearest-correlation projection runs.
pub const MAX_ITERATIONS: usize = 100;

/// Decides, round by round, whether the nearest-correlation projection goes on.
///
/// The caller runs one round of alternating projections, reports whether its
/// residual fell below tolerance, and runs another round only when told to.
/// The projection therefore stops at the first converged round and never runs
/// more than `MAX_ITERATIONS` rounds.
pub struct ProjectionSchedule {
    completed: usize,
}

impl ProjectionSchedule {
    /// The number of rounds reported so far.
    pub closed spec fn rounds(&self) -> nat {
        self.completed as nat
    }

    /// A schedule before its first round, which is always due.
    pub fn new() -> (r: Self)
        ensures
            r.rounds() == 0,
    {
        ProjectionSchedule { completed: 0 }
    }

    /// Records a finished round and whether its residual fell below tolerance.
    /// Returns whether another round is due: only when this one did not
    /// converge and the bound has not been reached.
    pub fn finish_round(&mut self, converged: bool) -> (more: bool)
        requires
            old(self).rounds() < MAX_ITERATIONS,
        ensures
            final(self).rounds() == old(self).rounds() + 1,
            final(self).rounds() <= MAX_ITERATIONS,
            more == (!converged && final(self).rounds() < MAX_ITERATIONS),
    {
        self.completed = self.completed + 1;
        !converged && self.completed < MAX_ITERATIONS
    }

    /// The number of rounds reported so far.
    pub fn completed(&self) -> (r: usize)
        ensures
            r == self.rounds(),
    {
        self.completed
    }
}

} // verus!
