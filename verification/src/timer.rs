//! Timer models over a monotonic clock.
//!
//! The concrete timer facility belongs to each backend and is delegated,
//! not reimplemented; what is stated and checked here is the contract the
//! bridge relies on: a sleep never reports elapsed before its deadline,
//! and an interval's n-th tick never fires before n whole periods after
//! its start. Clock values are plain numbers on a monotonic scale.

use vstd::prelude::*;

verus! {

/// A one-shot timer: set once, elapsed exactly from its deadline on.
pub struct SleepTimer {
    /// The clock value from which the timer reports elapsed.
    pub deadline: u64,
}

impl SleepTimer {
    /// A timer that elapses `duration` after `now`. The deadline must fit
    /// on the clock scale.
    pub fn after(now: u64, duration: u64) -> (t: SleepTimer)
        requires
            now + duration <= u64::MAX,
        ensures
            t.deadline == now + duration,
    {
        SleepTimer { deadline: now + duration }
    }

    /// Whether the timer has elapsed at clock value `now`: true exactly
    /// from the deadline on, so a sleep never returns before its full
    /// duration has passed.
    pub fn poll(&self, now: u64) -> (elapsed: bool)
        ensures
            elapsed <==> now >= self.deadline,
    {
        now >= self.deadline
    }
}

/// An infinite, non-restartable sequence of ticks, one per period
/// boundary. The first tick comes one full period after the start; under
/// consumer backpressure missed ticks are queued, not skipped: every
/// period boundary is delivered, in order, each no earlier than the
/// boundary it stands for. The sequence ends only where the clock scale
/// itself does.
pub struct IntervalTimer {
    /// The clock value the interval was started at.
    pub start: u64,
    /// The distance between two ticks; at least one clock unit.
    pub period: u64,
    /// How many ticks were delivered so far.
    pub ticks: u64,
    /// The clock value of the next tick to deliver.
    pub next_deadline: u64,
    /// Whether the next boundary lies beyond the clock scale; no further
    /// tick is ever delivered then.
    pub exhausted: bool,
}

impl IntervalTimer {
    /// Well-formedness: while the timer is live, the next deadline is
    /// exactly one period past the last delivered boundary.
    pub open spec fn wf(self) -> bool {
        &&& 1 <= self.period
        &&& (!self.exhausted ==> self.next_deadline as int == self.start + (self.ticks as int + 1)
            * self.period)
        &&& (!self.exhausted ==> self.ticks < u64::MAX)
    }

    /// An interval of the given period starting at `now`; its first tick
    /// is due one full period later, which must fit on the clock scale.
    pub fn new(now: u64, period: u64) -> (t: IntervalTimer)
        requires
            1 <= period,
            now + period <= u64::MAX,
        ensures
            t.wf(),
            t.start == now,
            t.period == period,
            t.ticks == 0,
            !t.exhausted,
            t.next_deadline == now + period,
    {
        proof {
            assert(1int * (period as int) == period as int) by (nonlinear_arith);
        }
        IntervalTimer { start: now, period, ticks: 0, next_deadline: now + period, exhausted: false }
    }

    /// Deliver the next tick if its boundary has passed at clock value
    /// `now`. The n-th delivered tick carries the timestamp of the n-th
    /// period boundary, `start + n * period`, and is never delivered
    /// before that boundary — an interval's n-th tick cannot fire early,
    /// however the polls are spaced.
    pub fn poll(&mut self, now: u64) -> (tick: Option<u64>)
        requires
            old(self).wf(),
        ensures
            final(self).wf(),
            final(self).start == old(self).start,
            final(self).period == old(self).period,
            (tick is Some) <==> (!old(self).exhausted && now >= old(self).next_deadline),
            tick matches Some(t) ==> {
                &&& t == old(self).next_deadline
                &&& final(self).ticks == old(self).ticks + 1
                &&& t as int == final(self).start + (final(self).ticks as int) * (
                final(self).period as int)
                &&& now >= t
                &&& (final(self).exhausted <==> old(self).next_deadline + old(self).period
                    > u64::MAX)
                &&& (!final(self).exhausted ==> final(self).next_deadline == old(
                    self,
                ).next_deadline + old(self).period)
            },
            tick is None ==> *final(self) == *old(self),
    {
        if self.exhausted {
            return None;
        }
        if now >= self.next_deadline {
            let t: u64 = self.next_deadline;
            let ghost prior_ticks: int = self.ticks as int;
            let ghost p: int = self.period as int;
            proof {
                // One whole period fits between start and the current
                // deadline for every tick delivered so far, so the tick
                // counter stays clear of the clock bound.
                assert(prior_ticks + 1 <= (prior_ticks + 1) * p) by (nonlinear_arith)
                    requires
                        1 <= p,
                        0 <= prior_ticks,
                ;
            }
            self.ticks = self.ticks + 1;
            match self.next_deadline.checked_add(self.period) {
                Some(nd) => {
                    self.next_deadline = nd;
                    proof {
                        assert((prior_ticks + 2) * p == (prior_ticks + 1) * p + p)
                            by (nonlinear_arith);
                        assert(prior_ticks + 2 <= (prior_ticks + 2) * p) by (nonlinear_arith)
                            requires
                                1 <= p,
                                0 <= prior_ticks,
                        ;
                    }
                },
                None => {
                    self.exhausted = true;
                },
            }
            Some(t)
        } else {
            None
        }
    }
}

} // verus!
