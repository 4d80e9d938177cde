//! The per-direction readiness state machine.
//!
//! One `DirectionDriver` tracks one direction (read or write) of one
//! registered handle: the advisory readiness belief of the notification
//! primitive, the registered wake-up interest, the suspension state of the
//! algorithm, and an instrumented count of confirmations handed out and
//! blocking attempts made. The central invariant is that a blocking call
//! is attempted only under a readiness confirmation, so over any history
//! the number of attempts never exceeds the number of confirmations.

use vstd::prelude::*;

use crate::errors::IoErrorKind;

verus! {

/// The two independent directions of a registered handle.
#[derive(Clone, Copy, Debug, PartialEq, Eq, Structural)]
pub enum Direction {
    /// The readable side.
    Read,
    /// The writable side.
    Write,
}

/// Where one direction of one handle stands in the suspend/retry algorithm.
#[derive(Clone, Copy, Debug, PartialEq, Eq, Structural)]
pub enum Phase {
    /// No readiness is known and no operation is outstanding.
    Idle,
    /// A check found the direction not ready; the task registered its
    /// wake-up interest and suspended.
    AwaitingReadiness,
    /// A readiness confirmation is in hand and the blocking call may be
    /// attempted. This phase never outlives a single poll: the attempt
    /// resolves it before control returns to the scheduler.
    ReadyToAttempt,
}

/// A transient, single-use token proving that a direction was reported
/// ready at a point in time. The report is advisory: the blocking call may
/// still find the handle unable to proceed, in which case the guard is
/// spent on clearing the stale readiness. A guard is never held across a
/// suspension and never crosses to the other direction.
#[derive(Debug)]
pub struct ReadinessGuard {
    /// The direction this guard confirms.
    pub direction: Direction,
}

/// The state of one direction of one registered handle.
///
/// The fields model the slice of the readiness-notification primitive that
/// belongs to this direction (`ready`, `interest`) together with the
/// algorithm's suspension phase, instrumented with confirmation and
/// attempt counters so the gating discipline is itself stated and checked.
pub struct DirectionDriver {
    /// Which direction of the handle this driver owns.
    pub direction: Direction,
    /// The primitive's current belief that the direction is ready.
    /// Advisory only: it may be stale.
    pub ready: bool,
    /// Whether a wake-up interest is currently registered with the
    /// primitive for this direction.
    pub interest: bool,
    /// The suspension phase of the algorithm.
    pub phase: Phase,
    /// How many readiness confirmations (guards) were handed out.
    pub confirms: usize,
    /// How many blocking calls were attempted.
    pub attempts: usize,
}

impl DirectionDriver {
    /// Well-formedness: attempts are gated by confirmations, an attempt in
    /// flight always has an unspent confirmation behind it, and a wake-up
    /// interest is registered exactly while the task is suspended on this
    /// direction.
    pub open spec fn wf(self) -> bool {
        &&& self.attempts <= self.confirms
        &&& (self.phase is ReadyToAttempt ==> self.attempts < self.confirms)
        &&& (self.interest ==> self.phase is AwaitingReadiness)
    }

    /// A fresh driver for one direction: idle, with the given initial
    /// readiness belief and nothing counted.
    pub fn new(direction: Direction, initially_ready: bool) -> (d: DirectionDriver)
        ensures
            d.wf(),
            d.direction == direction,
            d.ready == initially_ready,
            !d.interest,
            d.phase is Idle,
            d.confirms == 0,
            d.attempts == 0,
    {
        DirectionDriver {
            direction,
            ready: initially_ready,
            interest: false,
            phase: Phase::Idle,
            confirms: 0,
            attempts: 0,
        }
    }

    /// Step one of an attempt: check readiness without blocking. If the
    /// direction is believed ready, hand out a confirmation guard and move
    /// to `ReadyToAttempt`; otherwise register wake-up interest and
    /// suspend in `AwaitingReadiness`.
    pub fn begin_poll(&mut self) -> (guard: Option<ReadinessGuard>)
        requires
            old(self).wf(),
            !(old(self).phase is ReadyToAttempt),
            old(self).ready ==> old(self).confirms < usize::MAX,
        ensures
            final(self).wf(),
            final(self).direction == old(self).direction,
            final(self).ready == old(self).ready,
            final(self).attempts == old(self).attempts,
            guard is Some <==> old(self).ready,
            guard matches Some(g) ==> g.direction == old(self).direction,
            old(self).ready ==> {
                &&& final(self).phase is ReadyToAttempt
                &&& !final(self).interest
                &&& final(self).confirms == old(self).confirms + 1
            },
            !old(self).ready ==> {
                &&& final(self).phase is AwaitingReadiness
                &&& final(self).interest
                &&& final(self).confirms == old(self).confirms
            },
    {
        if self.ready {
            self.phase = Phase::ReadyToAttempt;
            self.interest = false;
            self.confirms = self.confirms + 1;
            Some(ReadinessGuard { direction: self.direction })
        } else {
            self.phase = Phase::AwaitingReadiness;
            self.interest = true;
            None
        }
    }

    /// The blocking call ran under the guard and finished with a success
    /// or a hard error: record the attempt and return to idle. The
    /// readiness belief is left as it was.
    pub fn complete_attempt(&mut self, guard: ReadinessGuard)
        requires
            old(self).wf(),
            old(self).phase is ReadyToAttempt,
            guard.direction == old(self).direction,
        ensures
            final(self).wf(),
            final(self).direction == old(self).direction,
            final(self).ready == old(self).ready,
            final(self).interest == old(self).interest,
            final(self).phase is Idle,
            final(self).confirms == old(self).confirms,
            final(self).attempts == old(self).attempts + 1,
    {
        let _ = guard;
        self.attempts = self.attempts + 1;
        self.phase = Phase::Idle;
    }

    /// The blocking call ran under the guard and would have blocked: the
    /// readiness signal was stale. Record the attempt and spend the guard
    /// on clearing the belief, so that the next check suspends instead of
    /// spinning on the same stale signal.
    pub fn clear_stale(&mut self, guard: ReadinessGuard)
        requires
            old(self).wf(),
            old(self).phase is ReadyToAttempt,
            guard.direction == old(self).direction,
        ensures
            final(self).wf(),
            final(self).direction == old(self).direction,
            !final(self).ready,
            final(self).interest == old(self).interest,
            final(self).phase is Idle,
            final(self).confirms == old(self).confirms,
            final(self).attempts == old(self).attempts + 1,
    {
        let _ = guard;
        self.attempts = self.attempts + 1;
        self.ready = false;
        self.phase = Phase::Idle;
    }

    /// A readiness notification arrived from the primitive: the belief
    /// becomes ready, the wake-up interest is consumed, and a task
    /// suspended on this direction returns to idle so its next poll can
    /// confirm the fresh signal.
    pub fn notify(&mut self)
        requires
            old(self).wf(),
        ensures
            final(self).wf(),
            final(self).direction == old(self).direction,
            final(self).ready,
            !final(self).interest,
            final(self).confirms == old(self).confirms,
            final(self).attempts == old(self).attempts,
            old(self).phase is AwaitingReadiness ==> final(self).phase is Idle,
            !(old(self).phase is AwaitingReadiness) ==> final(self).phase == old(self).phase,
    {
        self.ready = true;
        self.interest = false;
        if self.phase == Phase::AwaitingReadiness {
            self.phase = Phase::Idle;
        }
    }

    /// Cancellation: a pending attempt is dropped. The wake-up interest is
    /// deregistered and the phase resets to idle, with no effect on the
    /// readiness belief or the counters, so a fresh attempt afterwards
    /// starts cleanly.
    pub fn cancel(&mut self)
        requires
            old(self).wf(),
        ensures
            final(self).wf(),
            final(self).direction == old(self).direction,
            final(self).ready == old(self).ready,
            !final(self).interest,
            final(self).phase is Idle,
            final(self).confirms == old(self).confirms,
            final(self).attempts == old(self).attempts,
    {
        self.interest = false;
        self.phase = Phase::Idle;
    }
}

/// Law: every completed blocking-call attempt is preceded by its own
/// readiness confirmation, so in every reachable driver state the attempt
/// count never exceeds the confirmation count.
pub proof fn attempts_gated_by_confirms(d: DirectionDriver)
    requires
        d.wf(),
    ensures
        d.attempts <= d.confirms,
{
}

/// How a finished blocking call resolves under the propagation policy:
/// retry after a stale readiness signal, or hand the outcome to the caller.
#[derive(Debug)]
pub enum AttemptResolution<T> {
    /// The call would have blocked: clear the stale readiness and go back
    /// to the readiness check. Never surfaced to the caller.
    Retry,
    /// Any other outcome, success or hard error, propagates verbatim.
    Finish(Result<T, IoErrorKind>),
}

/// The propagation policy of the bridge, shared by every operation and
/// every backend: of all outcomes of the wrapped blocking call, exactly
/// the would-block outcome is intercepted and turned into a retry; every
/// other outcome, success or hard error, is handed to the caller unchanged
/// on first occurrence.
pub fn resolve_attempt<T>(outcome: Result<T, IoErrorKind>) -> (r: AttemptResolution<T>)
    ensures
        (r is Retry) <==> (outcome matches Err(IoErrorKind::WouldBlock)),
        r matches AttemptResolution::Finish(res) ==> res == outcome,
{
    match outcome {
        Err(IoErrorKind::WouldBlock) => AttemptResolution::Retry,
        other => AttemptResolution::Finish(other),
    }
}

} // verus!
