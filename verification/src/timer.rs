//! A repeating timer that paces particle emission.
use bevy::time::{Timer, TimerMode};
use std::time::Duration;
use vstd::prelude::*;

verus! {

/// Nanoseconds in one second.
pub const NANOS_PER_SECOND: u64 = 1_000_000_000;

/// Elapsed time kept by a repeating timer of period `period` that stood at
/// `elapsed` and was advanced by `delta`: once the period is reached the time
/// wraps around (to zero for a zero period).
pub open spec fn wrapped_elapsed(period: nat, elapsed: nat, delta: nat) -> nat {
    if elapsed + delta >= period {
        if period == 0 {
            0
        } else {
            (elapsed + delta) % period
        }
    } else {
        elapsed + delta
    }
}

/// Number of whole periods that elapsed during such an advance, counted
/// without any bound.
pub open spec fn completed_periods(period: nat, elapsed: nat, delta: nat) -> nat {
    if period > 0 && elapsed + delta >= period {
        (elapsed + delta) / period
    } else {
        0
    }
}

/// The count of finishes that the timer reports for such an advance: the
/// number of whole periods kept in a `u32` (cut to its low 32 bits), or
/// `u32::MAX` for a zero period.
pub open spec fn reported_finishes(period: nat, elapsed: nat, delta: nat) -> u32 {
    if elapsed + delta >= period {
        if period == 0 {
            u32::MAX
        } else {
            ((elapsed + delta) / period) as u32
        }
    } else {
        0
    }
}

/// Advances a repeating `bevy::time::Timer` through `Timer::tick`.
///
/// The body builds a `Timer::new(period, TimerMode::Repeating)`, sets its
/// elapsed time, calls `tick(delta)` and reads back `elapsed()` and
/// `times_finished_this_tick()`, all in nanoseconds. The contract restates
/// what bevy_time's source does for an unpaused repeating timer: the elapsed
/// time grows by `delta`; once it reaches the period, the count of finishes is
/// the quotient by the period cast to `u32` (or `u32::MAX` for a zero period)
/// and the elapsed time becomes the remainder (or zero); before that the count
/// is zero.
#[verifier::external_body]
fn tick_repeating(period: u64, elapsed: u64, delta: u64) -> (ticked: (u64, u32))
    ensures
        ticked.0 == wrapped_elapsed(period as nat, elapsed as nat, delta as nat),
        ticked.1 == reported_finishes(period as nat, elapsed as nat, delta as nat),
{
    let mut timer = Timer::new(Duration::from_nanos(period), TimerMode::Repeating);
    timer.set_elapsed(Duration::from_nanos(elapsed));
    timer.tick(Duration::from_nanos(delta));
    (timer.elapsed().as_nanos() as u64, timer.times_finished_this_tick())
}

/// The state of a repeating timer: its period, what has elapsed of the
/// current period, and how many times it finished on the last tick. Period
/// and elapsed share one unit of progress, handed to bevy as nanoseconds.
#[derive(Clone, Copy, Debug, PartialEq, Eq)]
pub struct RepeatingTimer {
    pub duration: u64,
    pub elapsed: u64,
    pub times_finished_this_tick: u32,
}

impl RepeatingTimer {
    /// `next` is this timer after a tick of `delta`.
    pub open spec fn ticks_to(self, delta: nat, next: RepeatingTimer) -> bool {
        &&& next.duration == self.duration
        &&& next.elapsed == wrapped_elapsed(self.duration as nat, self.elapsed as nat, delta)
        &&& next.times_finished_this_tick == reported_finishes(
            self.duration as nat,
            self.elapsed as nat,
            delta,
        )
    }

    /// A fresh timer of the given period, with nothing elapsed.
    pub fn new(duration: u64) -> (timer: Self)
        ensures
            timer.duration == duration,
            timer.elapsed == 0,
            timer.times_finished_this_tick == 0,
    {
        RepeatingTimer { duration, elapsed: 0, times_finished_this_tick: 0 }
    }

    /// Advances the timer by `delta`, wrapping around at the end of each
    /// period.
    pub fn tick(&mut self, delta: u64)
        ensures
            old(self).ticks_to(delta as nat, *final(self)),
    {
        let (elapsed, times) = tick_repeating(self.duration, self.elapsed, delta);
        self.elapsed = elapsed;
        self.times_finished_this_tick = times;
    }

    /// Whether the timer finished at least once on its last tick.
    pub fn just_finished(&self) -> (finished: bool)
        ensures
            finished == (self.times_finished_this_tick > 0),
    {
        self.times_finished_this_tick > 0
    }
}

/// With a nonzero period, the elapsed time after a tick stays below the period
/// and the untruncated count of finishes is the number of whole periods in
/// the time accumulated.
pub proof fn lemma_tick_wraps(period: nat, elapsed: nat, delta: nat)
    requires
        period > 0,
    ensures
        wrapped_elapsed(period, elapsed, delta) < period,
        wrapped_elapsed(period, elapsed, delta) == (elapsed + delta) % period,
        completed_periods(period, elapsed, delta) == (elapsed + delta) / period,
        completed_periods(period, elapsed, delta) * period + wrapped_elapsed(period, elapsed, delta)
            == elapsed + delta,
{
    let total = elapsed + delta;
    if total < period {
        vstd::arithmetic::div_mod::lemma_small_mod(total, period);
        vstd::arithmetic::div_mod::lemma_fundamental_div_mod_converse(
            total as int,
            period as int,
            0,
            total as int,
        );
    } else {
        vstd::arithmetic::div_mod::lemma_fundamental_div_mod(total as int, period as int);
        vstd::arithmetic::div_mod::lemma_mod_pos_bound(total as int, period as int);
        vstd::arithmetic::mul::lemma_mul_is_commutative(period as int, total as int / period as int);
    }
}

/// A timer keeps time across ticks: with a nonzero period, ticking by `d1`
/// and then by `d2` leaves the same elapsed time, and finishes as many whole
/// periods in all, as one tick by `d1 + d2`.
pub proof fn lemma_tick_additive(period: nat, elapsed: nat, d1: nat, d2: nat)
    requires
        period > 0,
    ensures
        wrapped_elapsed(period, wrapped_elapsed(period, elapsed, d1), d2) == wrapped_elapsed(
            period,
            elapsed,
            d1 + d2,
        ),
        completed_periods(period, elapsed, d1) + completed_periods(
            period,
            wrapped_elapsed(period, elapsed, d1),
            d2,
        ) == completed_periods(period, elapsed, d1 + d2),
{
    let mid = wrapped_elapsed(period, elapsed, d1);
    lemma_tick_wraps(period, elapsed, d1);
    lemma_tick_wraps(period, mid, d2);
    lemma_tick_wraps(period, elapsed, d1 + d2);
    let q1 = completed_periods(period, elapsed, d1);
    let q2 = completed_periods(period, mid, d2);
    let r2 = wrapped_elapsed(period, mid, d2);
    assert((elapsed + d1 + d2) == (q1 + q2) * period + r2) by (nonlinear_arith)
        requires
            q1 * period + mid == elapsed + d1,
            q2 * period + r2 == mid + d2,
    ;
    vstd::arithmetic::div_mod::lemma_fundamental_div_mod_converse(
        (elapsed + d1 + d2) as int,
        period as int,
        (q1 + q2) as int,
        r2 as int,
    );
}

} // verus!
