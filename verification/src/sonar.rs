//! Sonar echo pulse model: the edge timestamps an echo pin interrupt
//! captures, and the distance a pulse length stands for.

use vstd::prelude::*;

verus! {

/// Speed-of-sound factor: centimeters of one-way distance per second of
/// echo round trip.
pub const ECHO_CM_PER_SECOND: u64 = 17150;

/// The two edges of one echo pulse, as microsecond timestamps.
#[derive(Clone, Copy, Debug, PartialEq, Eq, Structural)]
pub struct Pulse {
    /// When the echo line rose, if seen.
    pub start: Option<u64>,
    /// When the echo line fell, if seen.
    pub end: Option<u64>,
}

/// Length of a pulse: defined once both edges were seen; an end no later
/// than the start counts as zero.
pub open spec fn pulse_length_us(p: Pulse) -> Option<u64> {
    match (p.start, p.end) {
        (Some(started), Some(ended)) => Some(
            if ended >= started {
                (ended - started) as u64
            } else {
                0u64
            },
        ),
        _ => None,
    }
}

impl Pulse {
    /// A pulse with neither edge seen yet.
    pub fn empty() -> (r: Pulse)
        ensures
            r.start is None,
            r.end is None,
    {
        Pulse { start: None, end: None }
    }

    /// Microseconds between the two edges, once both were seen.
    pub fn length(&self) -> (r: Option<u64>)
        ensures
            r == pulse_length_us(*self),
    {
        match (self.start, self.end) {
            (Some(started), Some(ended)) => {
                if ended >= started {
                    Some(ended - started)
                } else {
                    Some(0)
                }
            }
            _ => None,
        }
    }
}

/// One-way distance in centimeters for an echo pulse of the given length:
/// the round-trip time scaled by the speed of sound.
pub fn distance_from_pulse_us(pulse_us: u64) -> (r: u64)
    requires
        pulse_us <= 1000000000,
    ensures
        r as int == (pulse_us * ECHO_CM_PER_SECOND) / 1000000,
{
    pulse_us * ECHO_CM_PER_SECOND / 1000000
}

}
