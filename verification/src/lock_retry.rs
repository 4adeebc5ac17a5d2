//! Taking a lock without ever blocking on it: try, and where the lock is
//! taken, pause and try again, a bounded number of times.
//!
//! The camera state is guarded this way. The caller tries the lock and
//! pauses; the plan says whether to try once more or to give up.

use vstd::prelude::*;

verus! {

/// Tries that the camera state gets before the caller gives up.
pub const CAMERA_LOCK_ATTEMPTS: u32 = 3;

/// Pause between two tries for the camera state, in milliseconds.
pub const CAMERA_LOCK_INTERVAL_MS: u64 = 100;

/// What to do after a try that found the lock taken.
#[derive(Clone, Copy, Debug, PartialEq, Eq, Structural)]
pub enum LockStep {
    /// Pause for `wait_ms` milliseconds and try again.
    Retry { wait_ms: u64 },
    /// The lock was taken at every try: fail.
    GiveUp,
}

/// The tries made for one lock.
#[derive(Clone, Copy, Debug, PartialEq, Eq, Structural)]
pub struct LockRetry {
    /// Tries allowed in all.
    pub attempts: u32,
    /// Pause between two tries, in milliseconds.
    pub interval_ms: u64,
    /// Tries that found the lock taken.
    pub failed: u32,
}

impl LockRetry {
    /// No more tries have failed than are allowed.
    pub open spec fn wf(self) -> bool {
        self.failed <= self.attempts
    }

    /// The plan after one more try found the lock taken.
    pub open spec fn after_unavailable(self) -> LockRetry {
        if self.failed < self.attempts {
            LockRetry { failed: (self.failed + 1) as u32, ..self }
        } else {
            self
        }
    }

    /// What to do once the plan holds a try that found the lock taken: try
    /// again while tries are left, give up when they are used up.
    pub open spec fn verdict(self) -> LockStep {
        if self.failed < self.attempts {
            LockStep::Retry { wait_ms: self.interval_ms }
        } else {
            LockStep::GiveUp
        }
    }

    /// The longest time that the caller pauses in all, in milliseconds.
    pub open spec fn longest_wait(self) -> int {
        if self.attempts == 0 {
            0
        } else {
            (self.attempts - 1) * self.interval_ms
        }
    }

    /// A plan of `attempts` tries, `interval_ms` milliseconds apart.
    pub fn new(attempts: u32, interval_ms: u64) -> (plan: LockRetry)
        ensures
            plan == (LockRetry { attempts, interval_ms, failed: 0 }),
            plan.wf(),
    {
        LockRetry { attempts, interval_ms, failed: 0 }
    }

    /// The plan for the camera state.
    pub fn for_camera() -> (plan: LockRetry)
        ensures
            plan == (LockRetry {
                attempts: CAMERA_LOCK_ATTEMPTS,
                interval_ms: CAMERA_LOCK_INTERVAL_MS,
                failed: 0,
            }),
            plan.wf(),
    {
        LockRetry::new(CAMERA_LOCK_ATTEMPTS, CAMERA_LOCK_INTERVAL_MS)
    }

    /// Records a try that found the lock taken and says what to do next.
    pub fn unavailable(&mut self) -> (step: LockStep)
        ensures
            *final(self) == old(self).after_unavailable(),
            step == final(self).verdict(),
            old(self).wf() ==> final(self).wf(),
    {
        if self.failed < self.attempts {
            self.failed = self.failed + 1;
        }
        if self.failed < self.attempts {
            LockStep::Retry { wait_ms: self.interval_ms }
        } else {
            LockStep::GiveUp
        }
    }
}

/// The plan after `count` tries in a row found the lock taken.
pub open spec fn after_failures(plan: LockRetry, count: nat) -> LockRetry
    decreases count,
{
    if count == 0 {
        plan
    } else {
        after_failures(plan, (count - 1) as nat).after_unavailable()
    }
}

/// The caller never waits without bound: a fresh plan says to try again
/// after each of the first tries and gives up at the last one allowed, so
/// that the pauses add up to no more than `longest_wait`.
pub proof fn lemma_retries_are_bounded(plan: LockRetry, count: nat)
    requires
        plan.failed == 0,
    ensures
        after_failures(plan, count).failed == if count <= plan.attempts {
            count
        } else {
            plan.attempts as nat
        },
        after_failures(plan, count).attempts == plan.attempts,
        after_failures(plan, count).interval_ms == plan.interval_ms,
        count >= 1 ==> (after_failures(plan, count).verdict() is Retry <==> count < plan.attempts),
        count >= plan.attempts ==> after_failures(plan, count).verdict() is GiveUp,
    decreases count,
{
    if count > 0 {
        lemma_retries_are_bounded(plan, (count - 1) as nat);
    }
}

} // verus!
