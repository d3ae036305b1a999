//! The virtual clock that drives a run. It never reads wall time: time moves
//! only when the harness advances it by a declared period.
use vstd::prelude::*;

use crate::units::{sat_add, ClockEpoch, DurationNs, Tick, VirtualTimeNs};

verus! {

#[derive(Debug, Clone, Copy, PartialEq, Eq, Structural)]
pub struct VirtualClock {
    epoch: ClockEpoch,
    now: VirtualTimeNs,
    tick: Tick,
}

impl VirtualClock {
    pub closed spec fn spec_epoch(self) -> ClockEpoch {
        self.epoch
    }

    pub closed spec fn spec_now(self) -> VirtualTimeNs {
        self.now
    }

    pub closed spec fn spec_tick(self) -> Tick {
        self.tick
    }

    /// A clock of `epoch` at tick zero and time zero.
    pub fn new(epoch: ClockEpoch) -> (r: Self)
        ensures
            r.spec_epoch() == epoch,
            r.spec_now() == VirtualTimeNs(0),
            r.spec_tick() == Tick(0),
    {
        VirtualClock { epoch, now: VirtualTimeNs(0), tick: Tick(0) }
    }

    pub fn epoch(self) -> (r: ClockEpoch)
        ensures
            r == self.spec_epoch(),
    {
        self.epoch
    }

    pub fn now(self) -> (r: VirtualTimeNs)
        ensures
            r == self.spec_now(),
    {
        self.now
    }

    pub fn tick(self) -> (r: Tick)
        ensures
            r == self.spec_tick(),
    {
        self.tick
    }

    /// Moves time forward by `duration` and the tick by one; both saturate.
    pub fn advance(&mut self, duration: DurationNs)
        ensures
            final(self).spec_epoch() == old(self).spec_epoch(),
            final(self).spec_now() == VirtualTimeNs(sat_add(old(self).spec_now().0, duration.0)),
            final(self).spec_tick() == Tick(sat_add(old(self).spec_tick().0, 1)),
    {
        self.now = VirtualTimeNs(self.now.0.saturating_add(duration.0));
        self.tick = Tick(self.tick.0.saturating_add(1));
    }
}

/// A clock advanced `n` times by the same period stands at tick `n` and at
/// time `n * period`, as long as neither has saturated.
pub proof fn lemma_uniform_advances_stay_on_the_timeline(n: u64, period: u64)
    requires
        n < u64::MAX,
        (n + 1) * period <= u64::MAX,
    ensures
        sat_add((n * period) as u64, period) == (n + 1) * period,
        sat_add(n, 1) == n + 1,
{
    assert((n + 1) * period == n * period + period) by (nonlinear_arith);
    assert(n * period <= (n + 1) * period) by (nonlinear_arith)
        requires
            period >= 0,
    ;
}

} // verus!
