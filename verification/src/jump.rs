//! The jump charge timer.
//!
//! While the jump key is held the charge grows with elapsed time and
//! saturates at [`MAX_JUMP_TIME_MILLIS`]; on release it is read once to
//! scale the jump impulse and then cleared unconditionally, grounded or
//! not.

use vstd::prelude::*;

use crate::game_const::MAX_JUMP_TIME_MILLIS;

verus! {

/// Accumulated hold duration of the jump key, in milliseconds.
#[derive(Clone, Copy, Debug, PartialEq, Eq, Structural)]
pub struct JumpCharge {
    pub millis: i64,
}

/// The charge after one held step of `dt` milliseconds: it grows by `dt`
/// and saturates at the full charge.
pub open spec fn charge_after_tick(charge: int, dt: int) -> int {
    if charge + dt >= MAX_JUMP_TIME_MILLIS {
        MAX_JUMP_TIME_MILLIS as int
    } else {
        charge + dt
    }
}

/// The charge after a whole run of held steps.
pub open spec fn charge_after_ticks(charge: int, dts: Seq<int>) -> int
    decreases dts.len(),
{
    if dts.len() == 0 {
        charge
    } else {
        charge_after_tick(charge_after_ticks(charge, dts.drop_last()), dts.last())
    }
}

/// While held, the charge is monotonically non-decreasing and saturates:
/// over any run of held steps with non-negative durations it never drops
/// below its starting value, never exceeds the full charge, and behaves
/// exactly like a single held step of the total duration — in particular
/// it is exactly full as soon as the total held time reaches saturation.
pub proof fn lemma_charge_monotone_and_saturating(charge: int, dts: Seq<int>)
    requires
        0 <= charge <= MAX_JUMP_TIME_MILLIS,
        forall|i: int| 0 <= i < dts.len() ==> dts[i] >= 0,
    ensures
        charge <= charge_after_ticks(charge, dts) <= MAX_JUMP_TIME_MILLIS,
        charge_after_ticks(charge, dts) == charge_after_tick(charge, sum_of(dts)),
    decreases dts.len(),
{
    if dts.len() > 0 {
        assert(forall|i: int| 0 <= i < dts.drop_last().len() ==> dts.drop_last()[i] >= 0);
        lemma_charge_monotone_and_saturating(charge, dts.drop_last());
        lemma_sum_of_nonneg(dts.drop_last());
    }
}

/// Total of a sequence of durations.
pub open spec fn sum_of(dts: Seq<int>) -> int
    decreases dts.len(),
{
    if dts.len() == 0 {
        0
    } else {
        sum_of(dts.drop_last()) + dts.last()
    }
}

/// A total of non-negative durations is non-negative.
proof fn lemma_sum_of_nonneg(dts: Seq<int>)
    requires
        forall|i: int| 0 <= i < dts.len() ==> dts[i] >= 0,
    ensures
        sum_of(dts) >= 0,
    decreases dts.len(),
{
    if dts.len() > 0 {
        assert(forall|i: int| 0 <= i < dts.drop_last().len() ==> dts.drop_last()[i] >= 0);
        lemma_sum_of_nonneg(dts.drop_last());
    }
}

impl JumpCharge {
    /// The charge always lies between empty and the saturation bound.
    pub open spec fn wf(self) -> bool {
        0 <= self.millis <= MAX_JUMP_TIME_MILLIS
    }

    /// An empty charge: the controller starts with it, and every release
    /// returns to it.
    pub fn new() -> (r: JumpCharge)
        ensures
            r.wf(),
            r.millis == 0,
    {
        JumpCharge { millis: 0 }
    }

    /// One held step: the charge grows by the elapsed milliseconds and
    /// saturates at the full charge. Total for every non-negative `dt`.
    pub fn tick(&mut self, dt: i64)
        requires
            old(self).wf(),
            dt >= 0,
        ensures
            final(self).wf(),
            final(self).millis == charge_after_tick(old(self).millis as int, dt as int),
            final(self).millis >= old(self).millis,
    {
        if dt >= MAX_JUMP_TIME_MILLIS {
            self.millis = MAX_JUMP_TIME_MILLIS;
        } else {
            let grown = self.millis + dt;
            self.millis = if grown >= MAX_JUMP_TIME_MILLIS {
                MAX_JUMP_TIME_MILLIS
            } else {
                grown
            };
        }
    }

    /// A release event: hands back the charge that scales the impulse and
    /// clears it unconditionally — the charge is exactly zero immediately
    /// after any release, whether or not the jump fired.
    pub fn release(&mut self) -> (c: i64)
        requires
            old(self).wf(),
        ensures
            final(self).wf(),
            c == old(self).millis,
            final(self).millis == 0,
    {
        let c = self.millis;
        self.millis = 0;
        c
    }

    /// The fill of the on-screen charge bar, in whole percent of the full
    /// charge.
    pub fn indicator_percent(&self) -> (p: i64)
        requires
            self.wf(),
        ensures
            p == self.millis as int * 100 / (MAX_JUMP_TIME_MILLIS as int),
            0 <= p <= 100,
    {
        let raw = (self.millis as u64 * 100) / (MAX_JUMP_TIME_MILLIS as u64);
        raw as i64
    }
}

} // verus!
