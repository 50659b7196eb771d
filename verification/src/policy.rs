use vstd::prelude::*;

verus! {

/// How a batch is walked: one item at a time with a fixed pause after every
/// attempt, or concurrently under a fixed-size worker pool with no pacing.
/// The choice is a deployment-time configuration; both variants produce their
/// outcome through the same partition functions, so they are interchangeable
/// to callers of the dispatcher.
#[derive(Debug, Clone, Copy, PartialEq, Eq)]
pub enum DispatchPolicy {
    /// Process items in input order, pausing for `pacing_millis` after every
    /// send attempt regardless of its outcome.
    SequentialPaced { pacing_millis: u64 },
    /// Process items concurrently on `pool_width` workers, with no pacing.
    BoundedParallel { pool_width: usize },
}

impl DispatchPolicy {
    /// A parallel pool must have at least one worker.
    pub open spec fn valid(self) -> bool {
        self matches DispatchPolicy::BoundedParallel { pool_width } ==> pool_width >= 1
    }

    /// The pause the policy directs after one send attempt: the configured
    /// delay under sequential pacing, none under the parallel policy.
    pub fn pacing_after_send(&self) -> (r: Option<u64>)
        ensures
            (*self) matches DispatchPolicy::SequentialPaced { pacing_millis } ==> r == Some(
                pacing_millis,
            ),
            self is BoundedParallel ==> r is None,
    {
        match self {
            DispatchPolicy::SequentialPaced { pacing_millis } => Some(*pacing_millis),
            DispatchPolicy::BoundedParallel { .. } => None,
        }
    }

    /// How many workers drive the batch: one under sequential pacing, the
    /// configured pool width otherwise.
    pub fn worker_width(&self) -> (r: usize)
        requires
            self.valid(),
        ensures
            self is SequentialPaced ==> r == 1,
            (*self) matches DispatchPolicy::BoundedParallel { pool_width } ==> r == pool_width,
            r >= 1,
    {
        match self {
            DispatchPolicy::SequentialPaced { .. } => 1,
            DispatchPolicy::BoundedParallel { pool_width } => *pool_width,
        }
    }

    /// The total pause the policy directs across `attempts` send attempts.
    pub open spec fn directed_pacing_millis(self, attempts: nat) -> nat {
        match self {
            DispatchPolicy::SequentialPaced { pacing_millis } => attempts * (pacing_millis as nat),
            DispatchPolicy::BoundedParallel { .. } => 0,
        }
    }

    /// Law: under the sequential-paced policy, dispatching a batch of `n`
    /// items directs a total pause of at least `n` times the configured
    /// delay, for any `n >= 1`; the driver's elapsed time is bounded below by
    /// the pauses it is directed to take.
    pub proof fn lemma_sequential_pacing_floor(self, attempts: nat)
        requires
            self is SequentialPaced,
            attempts >= 1,
        ensures
            self.directed_pacing_millis(attempts) >= attempts
                * self->SequentialPaced_pacing_millis,
            self.directed_pacing_millis(attempts) >= self->SequentialPaced_pacing_millis,
    {
        assert(attempts * self->SequentialPaced_pacing_millis >= 1
            * self->SequentialPaced_pacing_millis) by (nonlinear_arith)
            requires
                attempts >= 1,
        ;
    }
}

} // verus!
