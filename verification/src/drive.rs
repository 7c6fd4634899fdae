//! Drive motor output computation.
//!
//! A signed speed in thousandths selects a direction (which of the two
//! direction pins per motor is driven high) and a PWM duty cycle (the speed's
//! magnitude, linearly mapped, no deadband). The pin and PWM registers
//! themselves are external collaborators; this module computes exactly what
//! is written to them.

use vstd::prelude::*;
use crate::easing::VALUE_SCALE;
use crate::error::PropulsionError;

verus! {

/// Direction state of one motor: both direction pins low (coasting), or one
/// of the two driven high.
#[derive(Clone, Copy, Debug, PartialEq, Eq, Structural)]
pub enum MotorDirection {
    Idle,
    Forward,
    Backward,
}

/// Direction selected by a speed's sign.
pub open spec fn direction_for_speed(speed: int) -> MotorDirection {
    if speed == 0 {
        MotorDirection::Idle
    } else if speed > 0 {
        MotorDirection::Forward
    } else {
        MotorDirection::Backward
    }
}

/// Duty cycle selected by a speed: its magnitude, in thousandths.
pub open spec fn duty_cycle_for_speed(speed: int) -> int {
    if speed >= 0 {
        speed
    } else {
        -speed
    }
}

/// Levels of the (forward, backward) direction pins for a direction.
pub fn direction_pin_levels(direction: MotorDirection) -> (r: (bool, bool))
    ensures
        r == (match direction {
            MotorDirection::Idle => (false, false),
            MotorDirection::Forward => (true, false),
            MotorDirection::Backward => (false, true),
        }),
{
    match direction {
        MotorDirection::Idle => (false, false),
        MotorDirection::Forward => (true, false),
        MotorDirection::Backward => (false, true),
    }
}

/// Linear map of `value` from the range `[from_start, from_end]` onto the
/// range `[to_start, to_end]`, in fixed point.
pub fn map_from_range_to_range(
    value: i64,
    from_start: i64,
    from_end: i64,
    to_start: i64,
    to_end: i64,
) -> (r: i64)
    requires
        from_start <= value <= from_end,
        from_start < from_end,
        to_start <= to_end,
        -1000000 <= from_start && from_end <= 1000000,
        -1000000 <= to_start && to_end <= 1000000,
    ensures
        r == to_start + ((value - from_start) * (to_end - to_start)) / (from_end - from_start),
        to_start <= r <= to_end,
{
    proof {
        lemma_scaled_fraction_bounds(
            value - from_start,
            from_end - from_start,
            to_end - to_start,
        );
        vstd::arithmetic::mul::lemma_mul_upper_bound(
            value - from_start,
            2000000,
            to_end - to_start,
            2000000,
        );
    }
    let part: u64 = (value - from_start) as u64;
    let factor: u64 = (to_end - to_start) as u64;
    let whole: u64 = (from_end - from_start) as u64;
    let scaled: u64 = part * factor / whole;
    to_start + (scaled as i64)
}

/// A nonnegative numerator no larger than the denominator, scaled by a
/// nonnegative factor and divided by that denominator, lands in `[0, factor]`.
proof fn lemma_scaled_fraction_bounds(part: int, whole: int, factor: int)
    requires
        0 <= part <= whole,
        0 < whole,
        0 <= factor,
    ensures
        0 <= (part * factor) / whole <= factor,
        part * factor <= whole * factor,
        0 <= part * factor,
{
    vstd::arithmetic::mul::lemma_mul_nonnegative(part, factor);
    vstd::arithmetic::mul::lemma_mul_inequality(part, whole, factor);
    vstd::arithmetic::div_mod::lemma_div_is_ordered(0, part * factor, whole);
    vstd::arithmetic::div_mod::lemma_div_is_ordered(part * factor, whole * factor, whole);
    vstd::arithmetic::mul::lemma_mul_is_commutative(whole, factor);
    vstd::arithmetic::div_mod::lemma_div_multiples_vanish(factor, whole);
}

/// What one motor is told for a commanded speed: the direction for its sign
/// and the duty cycle for its magnitude. Speeds outside full scale are
/// rejected, exactly as the actuator rejects them.
pub fn motor_output(speed: i64) -> (r: Result<(MotorDirection, i64), PropulsionError>)
    ensures
        r is Ok <==> -VALUE_SCALE <= speed <= VALUE_SCALE,
        r matches Ok(out) ==> out.0 == direction_for_speed(speed as int)
            && out.1 as int == duty_cycle_for_speed(speed as int),
{
    if speed == 0 {
        Ok((MotorDirection::Idle, 0))
    } else if -1000 <= speed && speed < 0 {
        Ok((MotorDirection::Backward, -speed))
    } else if 0 < speed && speed <= 1000 {
        Ok((MotorDirection::Forward, speed))
    } else {
        Err(PropulsionError::new("`speed` is outside of allowed range -1..1."))
    }
}

}
