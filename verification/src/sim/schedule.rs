//! When to tick: how many ticks a redraw owes, and how long a loop that
//! ticks on its own has to wait between two ticks.

use vstd::prelude::*;

use crate::sim::control::SurfaceOutcome;

verus! {

/// The most ticks that one redraw runs, however long the last one is past.
pub const MAX_TICKS_PER_FRAME: u32 = 100;

/// Thousandths of a tick to the tick.
pub const RESIDUE_UNIT: u64 = 1000;

/// Milliseconds between the last redraw and this one: none before the first
/// redraw, and none where the clock went backwards.
pub open spec fn spec_elapsed(last_ms: Option<u64>, now_ms: u64) -> int {
    match last_ms {
        Some(last) if now_ms >= last => now_ms - last,
        _ => 0,
    }
}

/// The thousandths of a tick at `tick_rate` ticks a second that the time
/// left over is worth, where the left-over was counted as `residue`
/// thousandths at `residue_rate` ticks a second: the same time, in the new
/// rate's ticks, rounded down.
pub open spec fn spec_carried(residue: int, residue_rate: int, tick_rate: int) -> int {
    if residue_rate == 0 {
        0
    } else {
        residue * tick_rate / residue_rate
    }
}

/// Thousandths of a tick that are owed at `tick_rate` ticks a second once
/// `elapsed` milliseconds have passed, on top of the time left over.
pub open spec fn spec_owed(residue: int, residue_rate: int, elapsed: int, tick_rate: int) -> int {
    spec_carried(residue, residue_rate, tick_rate) + elapsed * tick_rate
}

/// The whole ticks in `owed` thousandths, capped at `MAX_TICKS_PER_FRAME`.
pub open spec fn spec_capped(owed: int) -> int {
    if owed / (RESIDUE_UNIT as int) > MAX_TICKS_PER_FRAME {
        MAX_TICKS_PER_FRAME as int
    } else {
        owed / (RESIDUE_UNIT as int)
    }
}

/// Keeps the time of the last redraw and the time that the redraws so far
/// have left over: less than a tick's worth, kept as thousandths of a tick
/// together with the rate at which they were counted.
#[derive(Clone, Copy, Debug)]
pub struct FramePacer {
    residue: u32,
    residue_rate: u32,
    last_frame_ms: Option<u64>,
}

/// What a `FramePacer` stands for. The time left over is
/// `residue / residue_rate` milliseconds.
#[derive(PartialEq, Eq, Structural)]
pub struct PacerView {
    /// Thousandths of a tick left over, fewer than a thousand.
    pub residue: int,
    /// The ticks a second at which the left-over was counted; zero while
    /// nothing is left over that was ever counted.
    pub residue_rate: int,
    /// When the last redraw happened, if there was one.
    pub last_frame_ms: Option<u64>,
}

impl PacerView {
    /// The pacer after a redraw at `now_ms` at `tick_rate` ticks a second.
    /// At a rate of zero no time is taken into account and the left-over
    /// stays; else what is owed beyond whole ticks is left over at the new
    /// rate.
    pub open spec fn after_frame(self, now_ms: u64, tick_rate: u32) -> PacerView {
        if tick_rate == 0 {
            PacerView { last_frame_ms: Some(now_ms), ..self }
        } else {
            PacerView {
                residue: spec_owed(
                    self.residue,
                    self.residue_rate,
                    spec_elapsed(self.last_frame_ms, now_ms),
                    tick_rate as int,
                ) % (RESIDUE_UNIT as int),
                residue_rate: tick_rate as int,
                last_frame_ms: Some(now_ms),
            }
        }
    }

    /// The ticks that a redraw at `now_ms` at `tick_rate` ticks a second
    /// owes: the whole ticks in the time passed and the time left over, and
    /// `MAX_TICKS_PER_FRAME` at most.
    pub open spec fn due(self, now_ms: u64, tick_rate: u32) -> int {
        if tick_rate == 0 {
            0
        } else {
            spec_capped(
                spec_owed(
                    self.residue,
                    self.residue_rate,
                    spec_elapsed(self.last_frame_ms, now_ms),
                    tick_rate as int,
                ),
            )
        }
    }
}

impl View for FramePacer {
    type V = PacerView;

    closed spec fn view(&self) -> PacerView {
        PacerView {
            residue: self.residue as int,
            residue_rate: self.residue_rate as int,
            last_frame_ms: self.last_frame_ms,
        }
    }
}

impl FramePacer {
    /// The left-over is less than a tick, and it has a rate where it is not
    /// zero.
    #[verifier::type_invariant]
    spec fn inv(self) -> bool {
        self.residue < RESIDUE_UNIT && (self.residue_rate == 0 ==> self.residue == 0)
    }

    /// A pacer that has seen no redraw yet.
    pub fn new() -> (p: FramePacer)
        ensures
            p@ == (PacerView { residue: 0, residue_rate: 0, last_frame_ms: None }),
    {
        FramePacer { residue: 0, residue_rate: 0, last_frame_ms: None }
    }

    /// The ticks that the redraw at `now_ms` has to run at `tick_rate` ticks
    /// a second. Time passed is turned into ticks; the time that is less
    /// than a tick is kept for the next redraw, also across a change of the
    /// rate; what is more than `MAX_TICKS_PER_FRAME` ticks is dropped. At a
    /// rate of zero no tick is owed and the left-over stays.
    pub fn ticks_due(&mut self, now_ms: u64, tick_rate: u32) -> (ticks: u32)
        ensures
            ticks == old(self)@.due(now_ms, tick_rate),
            final(self)@ == old(self)@.after_frame(now_ms, tick_rate),
            ticks <= MAX_TICKS_PER_FRAME,
            0 <= final(self)@.residue < RESIDUE_UNIT,
    {
        proof {
            use_type_invariant(&*self);
        }
        let elapsed: u64 = match self.last_frame_ms {
            Some(last) => if now_ms >= last {
                now_ms - last
            } else {
                0
            },
            None => 0,
        };
        self.last_frame_ms = Some(now_ms);
        if tick_rate == 0 {
            return 0;
        }
        assert(0 <= elapsed * tick_rate <= u64::MAX * u32::MAX) by (nonlinear_arith)
            requires
                0 <= elapsed <= u64::MAX,
                0 <= tick_rate <= u32::MAX,
        ;
        assert(0 <= self.residue * tick_rate <= 1000 * u32::MAX) by (nonlinear_arith)
            requires
                0 <= self.residue < 1000,
                0 <= tick_rate <= u32::MAX,
        ;
        let carried: u128 = if self.residue_rate == 0 {
            0
        } else {
            (self.residue as u128) * (tick_rate as u128) / (self.residue_rate as u128)
        };
        proof {
            if self.residue_rate != 0 {
                vstd::arithmetic::div_mod::lemma_div_pos_is_pos(
                    self.residue * tick_rate,
                    self.residue_rate as int,
                );
            }
        }
        let owed: u128 = carried + (elapsed as u128) * (tick_rate as u128);
        let whole: u128 = owed / 1000;
        let left: u32 = (owed % 1000) as u32;
        self.residue_rate = tick_rate;
        self.residue = left;
        if whole > MAX_TICKS_PER_FRAME as u128 {
            MAX_TICKS_PER_FRAME
        } else {
            whole as u32
        }
    }

    /// The ticks that a redraw at `now_ms` has to run whose surface was
    /// asked for with the outcome `acquired`. Where the surface could not be
    /// had, no tick is run; the time is taken into account all the same, as
    /// in `ticks_due`, so that the ticks of a frame that failed are not made
    /// up for later.
    pub fn ticks_for_frame(&mut self, acquired: SurfaceOutcome, now_ms: u64, tick_rate: u32) -> (ticks:
        u32)
        ensures
            acquired != SurfaceOutcome::Presented ==> ticks == 0,
            acquired == SurfaceOutcome::Presented ==> ticks == old(self)@.due(now_ms, tick_rate),
            final(self)@ == old(self)@.after_frame(now_ms, tick_rate),
            ticks <= MAX_TICKS_PER_FRAME,
    {
        let due = self.ticks_due(now_ms, tick_rate);
        match acquired {
            SurfaceOutcome::Presented => due,
            _ => 0,
        }
    }
}

/// What a loop that ticks on its own does next.
#[derive(Clone, Copy, Debug, PartialEq, Eq, Structural)]
pub enum ProducerStep {
    /// Leave the loop and report.
    Stop,
    /// Run no tick; wait until the parameters change.
    WaitForParameters,
    /// Run a tick.
    Tick,
}

/// What a loop that ticks on its own does next: it stops where it was asked
/// to, waits for new parameters at a rate of zero, and ticks else.
pub open spec fn spec_before_tick(stop: bool, tick_rate: u32) -> ProducerStep {
    if stop {
        ProducerStep::Stop
    } else if tick_rate == 0 {
        ProducerStep::WaitForParameters
    } else {
        ProducerStep::Tick
    }
}

/// What a loop that ticks on its own does next, decided before each tick.
/// At a rate of zero it runs no tick.
pub fn before_tick(stop: bool, tick_rate: u32) -> (step: ProducerStep)
    ensures
        step == spec_before_tick(stop, tick_rate),
{
    if stop {
        ProducerStep::Stop
    } else if tick_rate == 0 {
        ProducerStep::WaitForParameters
    } else {
        ProducerStep::Tick
    }
}

/// What a loop that ticks on its own does after a tick.
#[derive(Clone, Copy, Debug, PartialEq, Eq, Structural)]
pub enum ProducerWait {
    /// The rate is zero: wait until the parameters change.
    ForParameters,
    /// Sleep for so many milliseconds, then tick.
    Sleep { ms: u32 },
    /// Tick at once.
    No,
}

/// What a loop that ticks on its own does after a tick.
pub open spec fn spec_after_tick(tick_rate: u32, elapsed_ms: u64) -> ProducerWait {
    if tick_rate == 0 {
        ProducerWait::ForParameters
    } else if elapsed_ms * tick_rate < 1000 {
        ProducerWait::Sleep { ms: ((1000 - elapsed_ms * tick_rate) / (tick_rate as int)) as u32 }
    } else {
        ProducerWait::No
    }
}

/// What a loop that ticks `tick_rate` times a second does after a tick that
/// began `elapsed_ms` milliseconds ago: it sleeps for what is left of the
/// tick's share of a second, `1000 / tick_rate - elapsed_ms`, rounded down;
/// ticks at once where nothing is left; and waits for new parameters at a
/// rate of zero.
pub fn after_tick(tick_rate: u32, elapsed_ms: u64) -> (wait: ProducerWait)
    ensures
        wait == spec_after_tick(tick_rate, elapsed_ms),
{
    if tick_rate == 0 {
        return ProducerWait::ForParameters;
    }
    assert(0 <= elapsed_ms * tick_rate <= u64::MAX * u32::MAX) by (nonlinear_arith)
        requires
            0 <= elapsed_ms <= u64::MAX,
            0 <= tick_rate <= u32::MAX,
    ;
    let used: u128 = (elapsed_ms as u128) * (tick_rate as u128);
    if used < 1000 {
        let left: u128 = (1000 - used) / (tick_rate as u128);
        ProducerWait::Sleep { ms: left as u32 }
    } else {
        ProducerWait::No
    }
}

/// The time and the ticks that a loop has spent so far.
#[derive(Clone, Copy, Debug, PartialEq, Eq, Structural)]
pub struct ProducerTotals {
    /// Milliseconds spent computing, capped at the largest value.
    pub total_ms: u64,
    /// Ticks done, capped at the largest value.
    pub ticks: u64,
}

impl ProducerTotals {
    /// The totals with one more tick that took `elapsed_ms` milliseconds.
    pub open spec fn spec_record(self, elapsed_ms: u64) -> ProducerTotals {
        ProducerTotals {
            total_ms: crate::fixed::saturate(self.total_ms + elapsed_ms) as u64,
            ticks: crate::fixed::saturate(self.ticks + 1) as u64,
        }
    }

    /// The totals of a loop that has not ticked yet.
    pub fn new() -> (totals: ProducerTotals)
        ensures
            totals == (ProducerTotals { total_ms: 0, ticks: 0 }),
    {
        ProducerTotals { total_ms: 0, ticks: 0 }
    }

    /// Adds a tick that took `elapsed_ms` milliseconds.
    pub fn record(&mut self, elapsed_ms: u64)
        ensures
            *final(self) == old(self).spec_record(elapsed_ms),
    {
        self.total_ms = self.total_ms.saturating_add(elapsed_ms);
        self.ticks = self.ticks.saturating_add(1);
    }

    /// What the loop reports when it ends: the time spent, divided by the
    /// ticks done.
    pub fn finish(&self) -> (stats: crate::sim::SimulationStatistics)
        ensures
            stats.average_step_exec_time == crate::fixed::Fixed::spec_from_ratio(
                self.total_ms as int,
                self.ticks as int,
            ),
    {
        crate::sim::SimulationStatistics::from_totals(self.total_ms, self.ticks)
    }
}

/// However long the last redraw is past, a redraw runs at most
/// `MAX_TICKS_PER_FRAME` ticks; at a rate of zero it runs none; and none
/// where the surface could not be had.
pub proof fn lemma_ticks_bounded(pacer: PacerView, now_ms: u64, tick_rate: u32)
    requires
        0 <= pacer.residue,
        0 <= pacer.residue_rate,
    ensures
        0 <= pacer.due(now_ms, tick_rate) <= MAX_TICKS_PER_FRAME,
        tick_rate == 0 ==> pacer.due(now_ms, tick_rate) == 0,
{
    if tick_rate != 0 {
        let elapsed = spec_elapsed(pacer.last_frame_ms, now_ms);
        assert(0 <= elapsed * tick_rate) by (nonlinear_arith)
            requires
                0 <= elapsed,
                0 <= tick_rate,
        ;
        if pacer.residue_rate != 0 {
            assert(0 <= pacer.residue * tick_rate) by (nonlinear_arith)
                requires
                    0 <= pacer.residue,
                    0 <= tick_rate,
            ;
            vstd::arithmetic::div_mod::lemma_div_pos_is_pos(
                pacer.residue * tick_rate,
                pacer.residue_rate,
            );
        }
    }
}

/// The time left over keeps its worth when the rate changes: what was
/// counted as `residue` thousandths at one rate counts at another as the
/// thousandths that the same time is worth there, rounded down, and as
/// itself where the rate stays.
pub proof fn lemma_left_over_is_time(residue: int, residue_rate: int, tick_rate: int)
    requires
        0 <= residue,
        0 < residue_rate,
        0 <= tick_rate,
    ensures
        spec_carried(residue, residue_rate, residue_rate) == residue,
        spec_carried(residue, residue_rate, tick_rate) * residue_rate <= residue * tick_rate,
        residue * tick_rate < (spec_carried(residue, residue_rate, tick_rate) + 1) * residue_rate,
{
    vstd::arithmetic::div_mod::lemma_div_multiples_vanish(residue, residue_rate);
    assert(residue * residue_rate / residue_rate == residue) by {
        assert(residue * residue_rate == residue_rate * residue) by (nonlinear_arith);
    }
    let n = residue * tick_rate;
    vstd::arithmetic::div_mod::lemma_fundamental_div_mod(n, residue_rate);
    vstd::arithmetic::div_mod::lemma_mod_bound(n, residue_rate);
    assert((n / residue_rate) * residue_rate == residue_rate * (n / residue_rate))
        by (nonlinear_arith);
    assert((n / residue_rate + 1) * residue_rate == residue_rate * (n / residue_rate)
        + residue_rate) by (nonlinear_arith);
}

} // verus!
