//! Trajectory interpolator for motor speeds.
//!
//! An [`Easing`] holds a start and an end value and produces one interpolated
//! value per tick. Values are fixed-point thousandths: `1000` stands for full
//! forward speed `1.0`, `-1000` for full reverse. Normalized trajectory
//! progress likewise runs from `0` to `1000`. The shaping function is
//! ease-out-cubic, the fixed-point form of `f(t) = 1 + (t - 1)^3`: a rapid
//! start and a smooth approach to the target.

use vstd::prelude::*;
use vstd::arithmetic::div_mod::lemma_div_is_ordered;
use vstd::arithmetic::mul::lemma_mul_nonnegative;
use vstd::arithmetic::mul::lemma_mul_upper_bound;

verus! {

/// Fixed-point scale: this many thousandths stand for the value `1.0`.
pub const VALUE_SCALE: i64 = 1000;

/// Normalized trajectory progress runs from `0` to this value.
pub const PROGRESS_SCALE: u32 = 1000;

/// Ramp duration substituted whenever the computed duration would be zero
/// (zero distance, or a zero per-unit duration), so that the progress
/// increment never divides by zero.
pub const NOMINAL_DURATION_MS: u64 = 1;

/// Ease-out-cubic shaping of normalized progress, in thousandths:
/// the fixed-point form of `1 + (t - 1)^3` for `t` in `[0, 1]`.
pub open spec fn ease_out_cubic_milli(t: int) -> int {
    1000 - ((1000 - t) * (1000 - t) * (1000 - t)) / 1000000
}

/// One speed trajectory: interpolates from `start_value` to `end_value`,
/// advancing its normalized progress `time_milli` on every tick.
#[derive(Clone, Copy, Debug, PartialEq, Eq, Structural)]
pub struct Easing {
    /// Value the trajectory starts from, in thousandths.
    pub start_value: i64,
    /// Value the trajectory converges to, in thousandths.
    pub end_value: i64,
    /// Milliseconds of ramp per one whole unit (1000 thousandths) of distance.
    pub duration_per_unit_ms: u32,
    /// Wall-clock milliseconds that one `apply_easing` tick stands for.
    pub time_step_ms: u32,
    /// Normalized progress through the trajectory, `0` to `1000`.
    pub time_milli: u32,
}

impl Easing {
    /// Well-formed: endpoint magnitudes within full scale, progress clamped.
    pub open spec fn wf(self) -> bool {
        &&& -VALUE_SCALE <= self.start_value <= VALUE_SCALE
        &&& -VALUE_SCALE <= self.end_value <= VALUE_SCALE
        &&& self.time_milli <= PROGRESS_SCALE
    }

    /// Distance between the endpoints, in thousandths (always nonnegative).
    pub open spec fn distance(self) -> int {
        if self.end_value >= self.start_value {
            self.end_value - self.start_value
        } else {
            self.start_value - self.end_value
        }
    }

    /// Wall-clock length of the whole ramp in milliseconds; the nominal
    /// non-zero length stands in whenever the product comes out zero.
    pub open spec fn duration_ms_of(self) -> int {
        let computed = (self.distance() * self.duration_per_unit_ms) / 1000;
        if computed == 0 {
            NOMINAL_DURATION_MS as int
        } else {
            computed
        }
    }

    /// Progress gained by one tick, in thousandths, clamped to `[1, 1000]`:
    /// the fixed-point form of `time_step / duration`, kept at least one
    /// thousandth so that every tick makes progress.
    pub open spec fn increment_of(self) -> int {
        let raw = (self.time_step_ms * 1000) / self.duration_ms_of();
        if raw < 1 {
            1
        } else if raw > 1000 {
            1000
        } else {
            raw
        }
    }

    /// Normalized progress after one tick: grows by the increment, capped at
    /// full progress.
    pub open spec fn progress_after(self) -> int {
        if self.time_milli + self.increment_of() >= 1000 {
            1000
        } else {
            self.time_milli + self.increment_of()
        }
    }

    /// The trajectory state one tick later.
    pub open spec fn advanced(self) -> Easing {
        Easing { time_milli: self.progress_after() as u32, ..self }
    }

    /// The trajectory state `n` ticks later.
    pub open spec fn advanced_by(self, n: nat) -> Easing
        decreases n,
    {
        if n == 0 {
            self
        } else {
            self.advanced().advanced_by((n - 1) as nat)
        }
    }

    /// Interpolated value at normalized progress `t`: the eased fraction of
    /// the distance, added to (or subtracted from) the start value.
    pub open spec fn value_at(self, t: int) -> int {
        let offset = (self.distance() * ease_out_cubic_milli(t)) / 1000;
        if self.end_value >= self.start_value {
            self.start_value + offset
        } else {
            self.start_value - offset
        }
    }

    /// Value reported at the trajectory's current progress.
    pub open spec fn current_value(self) -> int {
        self.value_at(self.time_milli as int)
    }

    /// A trajectory is finished once progress is complete, or immediately
    /// when the endpoints coincide.
    pub open spec fn spec_is_finished(self) -> bool {
        self.time_milli >= 1000 || self.start_value == self.end_value
    }

    /// The state produced by retargeting to the endpoints `start_value` and
    /// `end_value`: progress resets to zero, the timing parameters stay.
    pub open spec fn retargeted(self, start_value: i64, end_value: i64) -> Easing {
        Easing { start_value, end_value, time_milli: 0, ..self }
    }

    /// Fresh trajectory with zero elapsed progress.
    pub fn new(start_value: i64, end_value: i64, duration_per_unit_value: u32, time_step: u32)
        -> (r: Easing)
        requires
            -VALUE_SCALE <= start_value <= VALUE_SCALE,
            -VALUE_SCALE <= end_value <= VALUE_SCALE,
        ensures
            r == (Easing {
                start_value,
                end_value,
                duration_per_unit_ms: duration_per_unit_value,
                time_step_ms: time_step,
                time_milli: 0,
            }),
            r.wf(),
    {
        Easing {
            start_value,
            end_value,
            duration_per_unit_ms: duration_per_unit_value,
            time_step_ms: time_step,
            time_milli: 0,
        }
    }

    /// Retarget: a copy of this trajectory aimed from `start_value` to
    /// `end_value` with its elapsed progress reset. The held instance is not
    /// mutated; callers replace it.
    pub fn with(&self, start_value: i64, end_value: i64) -> (r: Easing)
        requires
            -VALUE_SCALE <= start_value <= VALUE_SCALE,
            -VALUE_SCALE <= end_value <= VALUE_SCALE,
        ensures
            r == self.retargeted(start_value, end_value),
            r.wf(),
    {
        Easing {
            start_value,
            end_value,
            duration_per_unit_ms: self.duration_per_unit_ms,
            time_step_ms: self.time_step_ms,
            time_milli: 0,
        }
    }

    /// One tick: advance normalized progress by the per-tick increment and
    /// return the interpolated value at the new progress.
    pub fn apply_easing(&mut self) -> (r: i64)
        requires
            old(self).wf(),
        ensures
            *final(self) == old(self).advanced(),
            final(self).wf(),
            r as int == old(self).advanced().current_value(),
    {
        proof {
            lemma_increment_bounds(*self);
        }
        let distance: i64 = if self.end_value >= self.start_value {
            self.end_value - self.start_value
        } else {
            self.start_value - self.end_value
        };
        proof {
            lemma_mul_upper_bound(distance as int, 2000, self.duration_per_unit_ms as int, u32::MAX as int);
            lemma_mul_nonnegative(distance as int, self.duration_per_unit_ms as int);
        }
        let mut duration_ms: u64 = (distance as u64) * (self.duration_per_unit_ms as u64) / 1000;
        if duration_ms == 0 {
            duration_ms = NOMINAL_DURATION_MS;
        }
        let raw_increment: u64 = (self.time_step_ms as u64) * 1000 / duration_ms;
        let increment: u32 = if raw_increment < 1 {
            1
        } else if raw_increment > 1000 {
            1000
        } else {
            raw_increment as u32
        };
        self.time_milli = if self.time_milli + increment >= 1000 {
            1000
        } else {
            self.time_milli + increment
        };
        let eased: i64 = ease_out_cubic(self.time_milli);
        proof {
            lemma_mul_upper_bound(distance as int, 2000, eased as int, 1000);
            lemma_mul_nonnegative(distance as int, eased as int);
            lemma_div_is_ordered(0, distance as int * eased as int, 1000);
            lemma_div_is_ordered(distance as int * eased as int, 2000000, 1000);
        }
        let offset: i64 = ((distance as u64) * (eased as u64) / 1000) as i64;
        if self.end_value >= self.start_value {
            self.start_value + offset
        } else {
            self.start_value - offset
        }
    }

    /// Whether the trajectory has reached (or started at) its end value.
    pub fn is_finished(&self) -> (r: bool)
        ensures
            r == self.spec_is_finished(),
    {
        self.time_milli >= 1000 || self.start_value == self.end_value
    }
}

/// Executable ease-out-cubic on thousandths of normalized progress.
pub fn ease_out_cubic(t: u32) -> (r: i64)
    requires
        t <= 1000,
    ensures
        r as int == ease_out_cubic_milli(t as int),
        0 <= r <= 1000,
{
    let c: u64 = (1000 - t) as u64;
    assert(c * c <= 1000000 && c * c * c <= 1000000000) by (nonlinear_arith)
        requires
            c <= 1000,
    ;
    let cubed: u64 = c * c * c;
    proof {
        lemma_div_is_ordered(0, cubed as int, 1000000);
        lemma_div_is_ordered(cubed as int, 1000000000, 1000000);
    }
    let shaved: u64 = cubed / 1000000;
    1000 - (shaved as i64)
}

/// The per-tick increment is always between one thousandth and full progress.
pub proof fn lemma_increment_bounds(e: Easing)
    ensures
        1 <= e.increment_of() <= 1000,
        e.duration_ms_of() >= 1,
{
    lemma_mul_nonnegative(e.distance(), e.duration_per_unit_ms as int);
    lemma_div_is_ordered(0, e.distance() * e.duration_per_unit_ms, 1000);
    lemma_div_is_ordered(0, e.time_step_ms * 1000, e.duration_ms_of());
}

/// The shaping function stays within `[0, 1000]`, starts at `0` and ends at
/// `1000`.
pub proof fn lemma_ease_out_cubic_bounds(t: int)
    requires
        0 <= t <= 1000,
    ensures
        0 <= ease_out_cubic_milli(t) <= 1000,
        ease_out_cubic_milli(0) == 0,
        ease_out_cubic_milli(1000) == 1000,
{
    let c = 1000 - t;
    assert(0 <= c * c * c <= 1000000000) by (nonlinear_arith)
        requires
            0 <= c <= 1000,
    ;
    lemma_div_is_ordered(0, c * c * c, 1000000);
    lemma_div_is_ordered(c * c * c, 1000000000, 1000000);
}

/// The shaping function never decreases as progress grows.
pub proof fn lemma_ease_out_cubic_monotone(t1: int, t2: int)
    requires
        0 <= t1 <= t2 <= 1000,
    ensures
        ease_out_cubic_milli(t1) <= ease_out_cubic_milli(t2),
{
    let c1 = 1000 - t1;
    let c2 = 1000 - t2;
    assert(c2 * c2 * c2 <= c1 * c1 * c1) by (nonlinear_arith)
        requires
            0 <= c2 <= c1,
    ;
    lemma_div_is_ordered(c2 * c2 * c2, c1 * c1 * c1, 1000000);
}

/// The interpolated value moves monotonically from the start value toward the
/// end value as progress grows: never past the end, never back toward the
/// start. Together with [`lemma_trajectory_converges`], this is the shape of
/// every `apply_easing` sequence.
pub proof fn lemma_trajectory_monotone(e: Easing, t1: int, t2: int)
    requires
        e.wf(),
        0 <= t1 <= t2 <= 1000,
    ensures
        e.start_value <= e.end_value ==> e.value_at(t1) <= e.value_at(t2),
        e.end_value <= e.start_value ==> e.value_at(t2) <= e.value_at(t1),
        e.start_value <= e.end_value ==> e.start_value <= e.value_at(t1) <= e.end_value,
        e.end_value <= e.start_value ==> e.end_value <= e.value_at(t1) <= e.start_value,
{
    lemma_ease_out_cubic_bounds(t1);
    lemma_ease_out_cubic_bounds(t2);
    lemma_ease_out_cubic_monotone(t1, t2);
    let d = e.distance();
    let f1 = ease_out_cubic_milli(t1);
    let f2 = ease_out_cubic_milli(t2);
    if d == 0 {
        assert(d * f1 == 0 && d * f2 == 0 && d * 1000 == 0) by (nonlinear_arith)
            requires
                d == 0,
        ;
    } else {
        vstd::arithmetic::mul::lemma_mul_left_inequality(d, f1, f2);
        vstd::arithmetic::mul::lemma_mul_left_inequality(d, f2, 1000);
    }
    lemma_div_is_ordered(d * f1, d * f2, 1000);
    lemma_mul_nonnegative(d, f1);
    lemma_div_is_ordered(0, d * f1, 1000);
    vstd::arithmetic::mul::lemma_mul_is_commutative(d, 1000);
    vstd::arithmetic::div_mod::lemma_div_multiples_vanish(d, 1000);
    lemma_div_is_ordered(d * f2, d * 1000, 1000);
}

/// At full progress the trajectory reports exactly its end value; at zero
/// progress, exactly its start value.
pub proof fn lemma_trajectory_reaches_end(e: Easing)
    requires
        e.wf(),
    ensures
        e.value_at(1000) == e.end_value,
        e.value_at(0) == e.start_value,
{
    lemma_ease_out_cubic_bounds(0);
    lemma_ease_out_cubic_bounds(1000);
    vstd::arithmetic::mul::lemma_mul_is_commutative(e.distance(), 1000);
    vstd::arithmetic::div_mod::lemma_div_multiples_vanish(e.distance(), 1000);
    assert(e.distance() * 0 == 0) by (nonlinear_arith);
}

/// Advancing never changes the endpoints or the timing parameters, and the
/// per-tick increment is fixed for a given target.
pub proof fn lemma_advanced_by_keeps_shape(e: Easing, n: nat)
    ensures
        e.advanced_by(n).start_value == e.start_value,
        e.advanced_by(n).end_value == e.end_value,
        e.advanced_by(n).duration_per_unit_ms == e.duration_per_unit_ms,
        e.advanced_by(n).time_step_ms == e.time_step_ms,
        e.advanced_by(n).increment_of() == e.increment_of(),
    decreases n,
{
    lemma_increment_bounds(e);
    if n > 0 {
        lemma_advanced_by_keeps_shape(e.advanced(), (n - 1) as nat);
    }
}

/// Convergence in a bounded number of ticks: once the ticks taken cover the
/// full normalized progress — at most `1000` ticks, and proportionally fewer
/// the larger the per-tick increment that the distance determines — the
/// trajectory is finished and reports exactly its end value.
pub proof fn lemma_trajectory_converges(e: Easing, n: nat)
    requires
        e.wf(),
        e.time_milli + n * e.increment_of() >= 1000,
    ensures
        e.advanced_by(n).wf(),
        e.advanced_by(n).spec_is_finished(),
        e.advanced_by(n).time_milli == 1000 || e.start_value == e.end_value,
        n > 0 ==> e.advanced_by(n).current_value() == e.end_value,
    decreases n,
{
    lemma_increment_bounds(e);
    if n == 0 {
        assert(n * e.increment_of() == 0) by (nonlinear_arith)
            requires
                n == 0,
        ;
        assert(e.time_milli >= 1000);
    } else {
        let stepped = e.advanced();
        assert(n * e.increment_of() == (n - 1) * e.increment_of() + e.increment_of())
            by (nonlinear_arith);
        if stepped.time_milli < 1000 {
            assert(stepped.time_milli == e.time_milli + e.increment_of());
        }
        lemma_mul_nonnegative((n - 1) as int, e.increment_of());
        lemma_trajectory_converges(stepped, (n - 1) as nat);
        lemma_advanced_by_keeps_shape(stepped, (n - 1) as nat);
        let settled = e.advanced_by(n);
        if settled.time_milli == 1000 {
            lemma_trajectory_reaches_end(settled);
        } else {
            lemma_zero_distance_value(settled, settled.time_milli as int);
        }
    }
}

/// A trajectory whose endpoints coincide reports its end value at every
/// progress.
pub proof fn lemma_zero_distance_value(e: Easing, t: int)
    requires
        e.start_value == e.end_value,
    ensures
        e.value_at(t) == e.end_value,
{
    assert(e.distance() == 0);
    assert(0 * ease_out_cubic_milli(t) == 0) by (nonlinear_arith);
}

/// Retargeting resets the finished flag: the retargeted trajectory reports
/// finished only when its new endpoints already coincide.
pub proof fn lemma_retarget_resets_finished(e: Easing, start_value: i64, end_value: i64)
    ensures
        e.retargeted(start_value, end_value).spec_is_finished() <==> start_value == end_value,
{
}

}
