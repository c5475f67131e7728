//! The one-shot rendezvous between the callback listener and the waiting
//! consumer, and the advisory shutdown decision that follows a delivered
//! outcome. The coordinator delivers exactly one outcome per login
//! attempt: a second publish is rejected rather than overwriting, and a
//! taken outcome is gone.

use vstd::prelude::*;
use crate::session::Outcome;

verus! {

/// A single-producer, single-consumer slot scoped to one login attempt.
pub struct SessionCoordinator {
    pub slot: Option<Outcome>,
    pub consumed: bool,
}

impl SessionCoordinator {
    /// Nothing published, nothing consumed. Wire the coordinator to the
    /// listener before the listener accepts its first connection.
    pub fn new() -> (c: SessionCoordinator)
        ensures
            c.slot is None,
            !c.consumed,
    {
        SessionCoordinator { slot: None, consumed: false }
    }

    /// Publishes the attempt's outcome. Exactly-once: while an outcome
    /// is already held or was already consumed, the attempt is resolved
    /// and the publish is rejected with nothing overwritten.
    pub fn publish(&mut self, outcome: Outcome) -> (accepted: bool)
        ensures
            (old(self).slot is None && !old(self).consumed) ==> (accepted && final(self).slot
                == Some(outcome) && !final(self).consumed),
            !(old(self).slot is None && !old(self).consumed) ==> (!accepted && *final(self)
                == *old(self)),
    {
        if self.consumed {
            return false;
        }
        match &self.slot {
            Some(_) => false,
            None => {
                self.slot = Some(outcome);
                true
            },
        }
    }

    /// Takes the published outcome, once: the slot empties and stays
    /// consumed, so neither a second take nor a later publish can deliver
    /// anything for this attempt.
    pub fn try_take(&mut self) -> (r: Option<Outcome>)
        ensures
            old(self).slot matches Some(o) ==> (r == Some(o) && final(self).slot is None
                && final(self).consumed),
            old(self).slot is None ==> (r is None && *final(self) == *old(self)),
    {
        match self.slot.take() {
            Some(o) => {
                self.consumed = true;
                Some(o)
            },
            None => None,
        }
    }
}

/// How long after a successful login the listener keeps serving before it
/// may stop accepting connections, in seconds.
pub const SHUTDOWN_GRACE_SECS: u64 = 5;

/// Decides when the loopback listener may stop accepting connections:
/// only a success schedules a stop, after a fixed grace period; a failure
/// leaves the listener up so the user can retry without restarting.
pub struct ShutdownSupervisor {
    pub stop_at: Option<u64>,
}

impl ShutdownSupervisor {
    /// No stop scheduled.
    pub fn new() -> (s: ShutdownSupervisor)
        ensures
            s.stop_at is None,
    {
        ShutdownSupervisor { stop_at: None }
    }

    /// Observes one delivered outcome at time `now`: a success schedules
    /// the stop at `now` plus the grace period (capped at the largest
    /// representable instant); a failure schedules nothing and clears
    /// nothing.
    pub fn observe(&mut self, outcome: &Outcome, now: u64) -> (scheduled: bool)
        ensures
            outcome is Success ==> (scheduled && final(self).stop_at == Some(
                if now + SHUTDOWN_GRACE_SECS <= u64::MAX {
                    (now + SHUTDOWN_GRACE_SECS) as u64
                } else {
                    u64::MAX
                },
            )),
            outcome is Failure ==> (!scheduled && *final(self) == *old(self)),
    {
        match outcome {
            Outcome::Success(_) => {
                let at: u64 = if now > u64::MAX - SHUTDOWN_GRACE_SECS {
                    u64::MAX
                } else {
                    now + SHUTDOWN_GRACE_SECS
                };
                self.stop_at = Some(at);
                true
            },
            Outcome::Failure(_) => false,
        }
    }

    /// Whether the grace period has elapsed: stopping is allowed only
    /// once a stop is scheduled and its instant has passed. Advisory:
    /// in-flight responses are always finished first.
    pub fn may_stop(&self, now: u64) -> (r: bool)
        ensures
            r == (self.stop_at matches Some(t) && now >= t),
    {
        match &self.stop_at {
            Some(t) => now >= *t,
            None => false,
        }
    }
}

} // verus!
