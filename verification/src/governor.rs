//! The retry governor: a lockout gate on the number of failed attempts and a
//! spacing gate on the time since the last attempt.

use vstd::prelude::*;
use crate::limits::{DEFAULT_RETRY_DELAY_MS, MAX_RETRY};

verus! {

/// Counters of the governor. `fail_count` is the number of failed attempts
/// since the last reset; `last_attempt` is the time of the last attempt in
/// milliseconds since the epoch.
#[derive(Clone, Copy, Debug, PartialEq, Eq, Structural)]
pub struct Governor {
    pub fail_count: i32,
    pub last_attempt: u128,
}

/// The spacing that a configured retry delay asks for: the delay itself, or
/// the default where the configured value is negative.
pub open spec fn effective_delay(retry_delay_ms: i32) -> int {
    if retry_delay_ms < 0 {
        DEFAULT_RETRY_DELAY_MS as int
    } else {
        retry_delay_ms as int
    }
}

impl Governor {
    /// The governor's invariant: the failure count stays within the ceiling.
    pub open spec fn wf(self) -> bool {
        0 <= self.fail_count <= MAX_RETRY
    }

    /// The lockout gate is closed.
    pub open spec fn locked_out(self) -> bool {
        self.fail_count >= MAX_RETRY
    }

    /// The spacing gate is open at time `now`.
    pub open spec fn spaced(self, now: u128, retry_delay_ms: i32) -> bool {
        now - self.last_attempt >= effective_delay(retry_delay_ms)
    }

    /// Both gates are open at time `now`.
    pub open spec fn permits(self, now: u128, retry_delay_ms: i32) -> bool {
        !self.locked_out() && self.spaced(now, retry_delay_ms)
    }

    /// The governor after an attempt was recorded at time `now`.
    pub open spec fn stamped(self, now: u128) -> Governor {
        Governor { last_attempt: now, ..self }
    }

    /// The answer of the spacing gate at time `now`, and the governor after
    /// it: where enough time has passed the time is recorded at once, and
    /// where it has not nothing changes.
    pub open spec fn gated(self, now: u128, retry_delay_ms: i32) -> (bool, Governor) {
        if self.spaced(now, retry_delay_ms) {
            (true, self.stamped(now))
        } else {
            (false, self)
        }
    }

    /// The governor after a trigger at time `now`: the time is recorded at
    /// once where the attempt is permitted, and nothing changes where it is not.
    pub open spec fn after_trigger(self, now: u128, retry_delay_ms: i32) -> Governor {
        if self.permits(now, retry_delay_ms) {
            self.stamped(now)
        } else {
            self
        }
    }

    /// The governor after a run of triggers, each given as time and retry delay.
    pub open spec fn after_triggers(self, triggers: Seq<(u128, i32)>) -> Governor
        decreases triggers.len(),
    {
        if triggers.len() == 0 {
            self
        } else {
            self.after_triggers(triggers.drop_last()).after_trigger(
                triggers.last().0,
                triggers.last().1,
            )
        }
    }

    /// The governor after a failed attempt.
    pub open spec fn after_failure(self) -> Governor {
        if self.fail_count < MAX_RETRY {
            Governor { fail_count: (self.fail_count + 1) as i32, ..self }
        } else {
            self
        }
    }

    /// The governor after a success or an explicit reset.
    pub open spec fn cleared(self) -> Governor {
        Governor { fail_count: 0, ..self }
    }

    pub fn new() -> (g: Governor)
        ensures
            g.wf(),
            g.fail_count == 0,
            g.last_attempt == 0,
    {
        Governor { fail_count: 0, last_attempt: 0 }
    }

    /// Whether the lockout gate is closed.
    pub fn is_locked_out(&self) -> (closed: bool)
        ensures
            closed == self.locked_out(),
    {
        self.fail_count >= MAX_RETRY
    }

    /// The spacing gate alone: permits where at least the retry delay has
    /// passed since the last attempt, and then records `now` at once.
    pub fn spacing_gate(&mut self, now: u128, retry_delay_ms: i32) -> (granted: bool)
        ensures
            granted == old(self).spaced(now, retry_delay_ms),
            granted ==> *final(self) == old(self).stamped(now),
            !granted ==> *final(self) == *old(self),
            (granted, *final(self)) == old(self).gated(now, retry_delay_ms),
    {
        let delay: u128 = if retry_delay_ms < 0 {
            DEFAULT_RETRY_DELAY_MS as u128
        } else {
            retry_delay_ms as u128
        };
        if now >= self.last_attempt && now - self.last_attempt >= delay {
            self.last_attempt = now;
            true
        } else {
            false
        }
    }

    /// Decides on a trigger at time `now`. The attempt is permitted where
    /// fewer than `MAX_RETRY` attempts have failed and at least the retry
    /// delay has passed since the last attempt; `now` is then recorded at
    /// once. A refused trigger changes nothing.
    pub fn permit(&mut self, now: u128, retry_delay_ms: i32) -> (granted: bool)
        ensures
            granted == old(self).permits(now, retry_delay_ms),
            *final(self) == old(self).after_trigger(now, retry_delay_ms),
            old(self).locked_out() ==> !granted && *final(self) == *old(self),
    {
        if self.fail_count >= MAX_RETRY {
            false
        } else {
            self.spacing_gate(now, retry_delay_ms)
        }
    }

    /// Records a failed attempt. The count stops at the ceiling.
    pub fn record_failure(&mut self)
        ensures
            *final(self) == old(self).after_failure(),
            old(self).wf() ==> final(self).wf(),
    {
        if self.fail_count < MAX_RETRY {
            self.fail_count = self.fail_count + 1;
        }
    }

    /// Records a success: the failure count starts again at zero.
    pub fn record_success(&mut self)
        ensures
            *final(self) == old(self).cleared(),
            final(self).wf(),
            !final(self).locked_out(),
    {
        self.fail_count = 0;
    }

    /// Clears the failure count, as a success does.
    pub fn reset(&mut self)
        ensures
            *final(self) == old(self).cleared(),
            final(self).wf(),
    {
        self.fail_count = 0;
    }

    /// Records `now` as the time of the last attempt.
    pub fn stamp(&mut self, now: u128)
        ensures
            *final(self) == old(self).stamped(now),
    {
        self.last_attempt = now;
    }
}

/// While the lockout gate is closed, every trigger is refused and none
/// changes the governor, whatever the times and delays; clearing the failure
/// count, as a success does, ends the lockout.
pub proof fn lemma_lockout_refuses_every_trigger(g: Governor, triggers: Seq<(u128, i32)>)
    requires
        g.locked_out(),
    ensures
        g.after_triggers(triggers) == g,
        forall|i: int|
            0 <= i < triggers.len() ==> !(#[trigger] g.after_triggers(triggers.take(i))).permits(
                triggers[i].0,
                triggers[i].1,
            ),
        !g.cleared().locked_out(),
    decreases triggers.len(),
{
    if triggers.len() > 0 {
        lemma_lockout_refuses_every_trigger(g, triggers.drop_last());
    }
    assert forall|i: int| 0 <= i < triggers.len() implies !(#[trigger] g.after_triggers(
        triggers.take(i),
    )).permits(triggers[i].0, triggers[i].1) by {
        lemma_lockout_refuses_every_trigger(g, triggers.take(i));
    }
}

/// Of two triggers closer to each other than the retry delay, at most one is
/// permitted: once the first is, the second is refused.
pub proof fn lemma_spacing_admits_one(g: Governor, first: u128, second: u128, retry_delay_ms: i32)
    requires
        second - first < effective_delay(retry_delay_ms),
    ensures
        g.permits(first, retry_delay_ms) ==> !g.after_trigger(first, retry_delay_ms).permits(
            second,
            retry_delay_ms,
        ),
{
}

/// The failure count never passes the ceiling: every operation of the
/// governor keeps its invariant.
pub proof fn lemma_ceiling_holds(g: Governor, now: u128, retry_delay_ms: i32)
    requires
        g.wf(),
    ensures
        g.after_trigger(now, retry_delay_ms).wf(),
        g.after_failure().wf(),
        g.cleared().wf(),
        g.stamped(now).wf(),
{
}

/// Reads the system clock: milliseconds since the Unix epoch, or zero where
/// the clock stands before it. Calls `SystemTime::now`; nothing is claimed of
/// the value, which differs from call to call.
#[verifier::external_body]
pub(crate) fn get_system_time() -> u128 {
    std::time::SystemTime::now().duration_since(std::time::UNIX_EPOCH).unwrap_or_default().as_millis()
}

/// Records the present time as the time of the last attempt.
pub fn set_last_send_time(governor: &mut Governor)
    ensures
        final(governor).fail_count == old(governor).fail_count,
{
    let now = get_system_time();
    governor.stamp(now);
}

/// The spacing gate at the present time: `Governor::spacing_gate` with the
/// reading of the system clock. Answer and governor are those of
/// `Governor::gated` at some time, which is the time recorded where the
/// answer is yes. Where every time is late enough, because no attempt was
/// recorded yet and no delay is asked for, the answer is yes; where no time
/// is, because the time recorded and the delay add up to more than the
/// clock can show, the answer is no.
pub fn can_retry(governor: &mut Governor, retry_delay_ms: i32) -> (granted: bool)
    ensures
        exists|now: u128|
            (granted, *final(governor)) == #[trigger] old(governor).gated(now, retry_delay_ms),
        final(governor).fail_count == old(governor).fail_count,
        !granted ==> *final(governor) == *old(governor),
        granted ==> old(governor).spaced(final(governor).last_attempt, retry_delay_ms),
        old(governor).last_attempt == 0 && effective_delay(retry_delay_ms) == 0 ==> granted,
        old(governor).last_attempt + effective_delay(retry_delay_ms) > u128::MAX ==> !granted,
{
    let now = get_system_time();
    let granted = governor.spacing_gate(now, retry_delay_ms);
    assert((granted, *governor) == old(governor).gated(now, retry_delay_ms));
    granted
}

} // verus!
