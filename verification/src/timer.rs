//! Countdown / repeating duration primitive used by every time-driven
//! behavior: spawn cadence, invincibility window, death animation, wave
//! length, preparation countdown.
//!
//! Durations and elapsed time are whole milliseconds.  A `Once` timer
//! saturates at its duration and reports "just finished" exactly once until
//! reset; a `Repeating` timer wraps, subtracting its duration, and reports
//! one finish per wrap — over a run of ticks it finishes exactly
//! `floor(total elapsed / duration)` times.

use vstd::prelude::*;
use vstd::arithmetic::div_mod::{
    lemma_fundamental_div_mod, lemma_hoist_over_denominator, lemma_mod_bound,
    lemma_div_pos_is_pos,
};

verus! {

/// Largest duration a timer can hold, in milliseconds.
pub const DURATION_LIMIT: u64 = 1_000_000_000;

pub use crate::math::DT_LIMIT;

#[derive(Clone, Copy, Debug, PartialEq, Eq, Structural)]
pub enum TimerMode {
    Once,
    Repeating,
}

/// A millisecond countdown.  `fired` holds how many times the timer finished
/// during the most recent tick (0 or 1 for `Once`; any count for
/// `Repeating`, whose duration may wrap several times under one large
/// delta).
#[derive(Clone, Copy, Debug, PartialEq, Eq, Structural)]
pub struct Timer {
    pub duration: u64,
    pub elapsed: u64,
    pub mode: TimerMode,
    pub fired: u64,
}

impl Timer {
    /// Well-formed: a positive, bounded duration; elapsed time saturates at
    /// the duration for `Once` and stays strictly below it for `Repeating`.
    pub open spec fn wf(self) -> bool {
        &&& 1 <= self.duration <= DURATION_LIMIT
        &&& self.elapsed <= self.duration
        &&& self.mode == TimerMode::Repeating ==> self.elapsed < self.duration
    }

    /// What a duration request is clamped to: at least one millisecond,
    /// at most `DURATION_LIMIT`.
    pub open spec fn spec_clamp_duration(ms: u64) -> u64 {
        if ms == 0 {
            1u64
        } else if ms > DURATION_LIMIT {
            DURATION_LIMIT
        } else {
            ms
        }
    }

    /// A timer of duration `ms` that has never been ticked.
    pub open spec fn spec_fresh(ms: u64, mode: TimerMode) -> Timer {
        Timer { duration: ms, elapsed: 0, mode, fired: 0 }
    }

    /// A fresh timer of (clamped) duration `ms`.
    pub fn from_millis(ms: u64, mode: TimerMode) -> (r: Timer)
        ensures
            r.duration == Timer::spec_clamp_duration(ms),
            r.elapsed == 0,
            r.fired == 0,
            r.mode == mode,
            r.wf(),
    {
        let d: u64 = if ms == 0 {
            1
        } else if ms > DURATION_LIMIT {
            DURATION_LIMIT
        } else {
            ms
        };
        Timer { duration: d, elapsed: 0, mode, fired: 0 }
    }

    /// The state one tick of `dt` milliseconds leads to.
    pub open spec fn spec_tick(self, dt: int) -> Timer {
        match self.mode {
            TimerMode::Once => {
                if self.elapsed == self.duration {
                    Timer { fired: 0, ..self }
                } else if self.elapsed + dt >= self.duration {
                    Timer { elapsed: self.duration, fired: 1, ..self }
                } else {
                    Timer { elapsed: (self.elapsed + dt) as u64, fired: 0, ..self }
                }
            },
            TimerMode::Repeating => {
                Timer {
                    elapsed: ((self.elapsed + dt) % (self.duration as int)) as u64,
                    fired: ((self.elapsed + dt) / (self.duration as int)) as u64,
                    ..self
                }
            },
        }
    }

    /// Advance the timer by `dt` milliseconds.
    pub fn tick(&mut self, dt: u64)
        requires
            old(self).wf(),
            dt <= DT_LIMIT,
        ensures
            *final(self) == old(self).spec_tick(dt as int),
            final(self).wf(),
    {
        match self.mode {
            TimerMode::Once => {
                if self.elapsed == self.duration {
                    self.fired = 0;
                } else if dt >= self.duration - self.elapsed {
                    self.elapsed = self.duration;
                    self.fired = 1;
                } else {
                    self.elapsed = self.elapsed + dt;
                    self.fired = 0;
                }
            },
            TimerMode::Repeating => {
                let total: u64 = self.elapsed + dt;
                proof {
                    lemma_mod_bound(total as int, self.duration as int);
                    lemma_div_pos_is_pos(total as int, self.duration as int);
                    lemma_fundamental_div_mod(total as int, self.duration as int);
                }
                self.fired = total / self.duration;
                self.elapsed = total % self.duration;
            },
        }
    }

    /// The timer finished during the most recent tick.
    pub fn just_finished(&self) -> (r: bool)
        ensures
            r == (self.fired >= 1),
    {
        self.fired >= 1
    }

    /// A `Once` timer that has run out; a `Repeating` timer counts as
    /// finished only in the tick it wrapped.
    pub fn finished(&self) -> (r: bool)
        ensures
            r == self.spec_finished(),
    {
        match self.mode {
            TimerMode::Once => self.elapsed == self.duration,
            TimerMode::Repeating => self.fired >= 1,
        }
    }

    pub open spec fn spec_finished(self) -> bool {
        match self.mode {
            TimerMode::Once => self.elapsed == self.duration,
            TimerMode::Repeating => self.fired >= 1,
        }
    }

    /// Rewind to the start; forgets any pending "just finished" report.
    pub fn reset(&mut self)
        ensures
            *final(self) == (Timer { elapsed: 0, fired: 0, ..*old(self) }),
            old(self).wf() ==> final(self).wf(),
    {
        self.elapsed = 0;
        self.fired = 0;
    }

    /// Replace the duration (clamped), keeping elapsed time capped to it.
    pub fn set_duration(&mut self, ms: u64)
        ensures
            final(self).duration == Timer::spec_clamp_duration(ms),
            final(self).elapsed == if old(self).elapsed < final(self).duration {
                old(self).elapsed
            } else if final(self).mode == TimerMode::Repeating {
                0u64
            } else {
                final(self).duration
            },
            final(self).mode == old(self).mode,
            final(self).fired == old(self).fired,
            final(self).wf(),
    {
        let d: u64 = if ms == 0 {
            1
        } else if ms > DURATION_LIMIT {
            DURATION_LIMIT
        } else {
            ms
        };
        self.duration = d;
        if self.elapsed >= d {
            match self.mode {
                TimerMode::Repeating => {
                    self.elapsed = 0;
                },
                TimerMode::Once => {
                    self.elapsed = d;
                },
            }
        }
    }

    /// Milliseconds left until the (next) finish.
    pub fn remaining_millis(&self) -> (r: u64)
        requires
            self.wf(),
        ensures
            r == self.duration - self.elapsed,
    {
        self.duration - self.elapsed
    }
}

/// The timer after a whole run of ticks.
pub open spec fn spec_run(t: Timer, ds: Seq<int>) -> Timer
    decreases ds.len(),
{
    if ds.len() == 0 {
        t
    } else {
        spec_run(t.spec_tick(ds[0]), ds.drop_first())
    }
}

/// How many finishes a run of ticks reports in total.
pub open spec fn spec_fired_count(t: Timer, ds: Seq<int>) -> int
    decreases ds.len(),
{
    if ds.len() == 0 {
        0
    } else {
        t.spec_tick(ds[0]).fired + spec_fired_count(t.spec_tick(ds[0]), ds.drop_first())
    }
}

/// Total simulated time of a run of ticks.
pub open spec fn spec_sum(ds: Seq<int>) -> int
    decreases ds.len(),
{
    if ds.len() == 0 {
        0
    } else {
        ds[0] + spec_sum(ds.drop_first())
    }
}

/// Every delta of the run is admissible.
pub open spec fn valid_deltas(ds: Seq<int>) -> bool {
    forall|i: int| 0 <= i < ds.len() ==> 0 <= #[trigger] ds[i] <= DT_LIMIT
}

/// A run of admissible deltas never totals negative time.
pub proof fn lemma_sum_nonneg(ds: Seq<int>)
    requires
        valid_deltas(ds),
    ensures
        spec_sum(ds) >= 0,
    decreases ds.len(),
{
    if ds.len() == 0 {
    } else {
        assert(valid_deltas(ds.drop_first())) by {
            assert(forall|i: int|
                0 <= i < ds.drop_first().len() ==> #[trigger] ds.drop_first()[i] == ds[i + 1]);
        }
        lemma_sum_nonneg(ds.drop_first());
    }
}

/// A `Once` timer reports "just finished" exactly once across any run of
/// ticks until it is reset: starting from elapsed time `e`, a run totalling
/// `T` milliseconds reports one finish if the timer was still short of its
/// duration and `e + T` reaches it, and none otherwise.
pub proof fn lemma_once_fires_at_most_once(t: Timer, ds: Seq<int>)
    requires
        t.wf(),
        t.mode == TimerMode::Once,
        valid_deltas(ds),
    ensures
        spec_fired_count(t, ds) == if t.elapsed < t.duration && t.elapsed + spec_sum(ds)
            >= t.duration {
            1int
        } else {
            0int
        },
    decreases ds.len(),
{
    if ds.len() == 0 {
    } else {
        let t1 = t.spec_tick(ds[0]);
        assert(t1.wf());
        assert(valid_deltas(ds.drop_first())) by {
            assert(forall|i: int|
                0 <= i < ds.drop_first().len() ==> #[trigger] ds.drop_first()[i] == ds[i + 1]);
        }
        lemma_sum_nonneg(ds.drop_first());
        lemma_once_fires_at_most_once(t1, ds.drop_first());
    }
}

/// A fresh `Once` timer fires exactly once over any run whose total reaches
/// its duration.
pub proof fn lemma_once_fires_exactly_once(t: Timer, ds: Seq<int>)
    requires
        t.wf(),
        t.mode == TimerMode::Once,
        t.elapsed == 0,
        valid_deltas(ds),
        spec_sum(ds) >= t.duration,
    ensures
        spec_fired_count(t, ds) == 1,
{
    lemma_once_fires_at_most_once(t, ds);
}

/// A `Repeating` timer of duration `D`, currently at elapsed time `e`,
/// reports exactly `floor((e + T) / D)` finishes over a run totalling `T`.
/// For a fresh timer that is `floor(T / D)`: one finish per full duration
/// of simulated time.
pub proof fn lemma_repeating_fire_count(t: Timer, ds: Seq<int>)
    requires
        t.wf(),
        t.mode == TimerMode::Repeating,
        valid_deltas(ds),
    ensures
        spec_fired_count(t, ds) == (t.elapsed + spec_sum(ds)) / (t.duration as int),
    decreases ds.len(),
{
    let d = t.duration as int;
    if ds.len() == 0 {
        assert((t.elapsed as int) / d == 0) by {
            lemma_fundamental_div_mod_small(t.elapsed as int, d);
        }
    } else {
        let total1 = t.elapsed + ds[0];
        let t1 = t.spec_tick(ds[0]);
        assert(t1.wf()) by {
            lemma_mod_bound(total1, d);
            lemma_div_pos_is_pos(total1, d);
        }
        assert(valid_deltas(ds.drop_first())) by {
            assert(forall|i: int|
                0 <= i < ds.drop_first().len() ==> #[trigger] ds.drop_first()[i] == ds[i + 1]);
        }
        lemma_repeating_fire_count(t1, ds.drop_first());
        let q = total1 / d;
        let r = total1 % d;
        let s = spec_sum(ds.drop_first());
        assert(t1.fired == q && t1.elapsed == r) by {
            lemma_mod_bound(total1, d);
            lemma_div_pos_is_pos(total1, d);
        }
        // fired count == q + (r + s) / d, and the claim follows by hoisting
        // the q full durations back over the division.
        assert(spec_sum(ds) == ds[0] + s);
        lemma_fundamental_div_mod(total1, d);
        lemma_hoist_over_denominator(r + s, q, t.duration as nat);
        assert((r + s) / d + q == (r + s + q * d) / d);
        assert(r + s + q * d == t.elapsed + spec_sum(ds)) by {
            lemma_fundamental_div_mod(total1, d);
        }
    }
}

/// With every delta shorter than the duration, a `Repeating` timer
/// finishes at most once per tick, so the ticks that report a finish are
/// exactly as many as the finishes themselves: combined with
/// `lemma_repeating_fire_count`, a consumer that acts once per finishing
/// tick — such as the spawn cadence — acts `floor(T / D)` times over a run
/// totalling `T`.
pub proof fn lemma_repeating_small_tick_fires_at_most_once(t: Timer, dt: int)
    requires
        t.wf(),
        t.mode == TimerMode::Repeating,
        0 <= dt < t.duration,
    ensures
        t.spec_tick(dt).fired <= 1,
{
    let d = t.duration as int;
    let total = t.elapsed + dt;
    // `total < 2 * d`, so the quotient is at most one.
    lemma_div_pos_is_pos(total, d);
    lemma_fundamental_div_mod(total, d);
    lemma_mod_bound(total, d);
    if total / d >= 2 {
        vstd::arithmetic::mul::lemma_mul_inequality(2, total / d, d);
    }
}

/// `x / d == 0` when `0 <= x < d`.
proof fn lemma_fundamental_div_mod_small(x: int, d: int)
    requires
        0 <= x < d,
    ensures
        x / d == 0,
{
    lemma_div_pos_is_pos(x, d);
    lemma_fundamental_div_mod(x, d);
    lemma_mod_bound(x, d);
    if x / d >= 1 {
        vstd::arithmetic::mul::lemma_mul_inequality(1, x / d, d);
    }
}

} // verus!
