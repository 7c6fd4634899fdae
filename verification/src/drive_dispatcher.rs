//! Drive dispatcher: owns the two speed trajectories (left and right motor),
//! retargets them on command and computes, tick by tick, the pair of speed
//! values the drive actuator is told to hold.
//!
//! The scheduling contract is a fixed-period timer: the binary that owns the
//! hardware calls [`DriveDispatcher::update`] once per period (the period one
//! tick stands for is [`TICK_TIME_STEP_MS`]) and forwards the returned pair
//! to the actuator. While both trajectories are finished the dispatcher asks,
//! through `use_interval_ticking`, to wait for the next speed command instead
//! of ticking idly.

use vstd::prelude::*;
use crate::easing::Easing;
use crate::easing::VALUE_SCALE;
use crate::easing::lemma_trajectory_monotone;

verus! {

/// Wall-clock milliseconds one `update` tick stands for.
pub const TICK_TIME_STEP_MS: u32 = 100;

/// Milliseconds of ramp per whole unit of speed distance.
pub const DURATION_PER_UNIT_MS: u32 = 1000;

/// Holds one trajectory per drive motor plus the last value pushed for each.
#[derive(Clone, Debug)]
pub struct DriveDispatcher {
    /// Last interpolated value pushed for the left motor, thousandths.
    pub left_motor_speed: i64,
    /// Last interpolated value pushed for the right motor, thousandths.
    pub right_motor_speed: i64,
    /// Trajectory the left motor speed is following.
    pub left_motor_speed_easing: Easing,
    /// Trajectory the right motor speed is following.
    pub right_motor_speed_easing: Easing,
    /// True while the tick loop should keep running on its timer; false once
    /// both trajectories have finished and the loop may wait for the next
    /// speed command instead.
    pub use_interval_ticking: bool,
}

impl DriveDispatcher {
    /// Well-formed: both trajectories well-formed, both held values within
    /// full scale.
    pub open spec fn wf(self) -> bool {
        &&& self.left_motor_speed_easing.wf()
        &&& self.right_motor_speed_easing.wf()
        &&& -VALUE_SCALE <= self.left_motor_speed <= VALUE_SCALE
        &&& -VALUE_SCALE <= self.right_motor_speed <= VALUE_SCALE
    }

    /// Dispatcher at rest: both motors at zero, both trajectories the
    /// trivial zero-to-zero ramp.
    pub fn new() -> (r: DriveDispatcher)
        ensures
            r.wf(),
            r.left_motor_speed == 0,
            r.right_motor_speed == 0,
            r.left_motor_speed_easing == (Easing {
                start_value: 0,
                end_value: 0,
                duration_per_unit_ms: DURATION_PER_UNIT_MS,
                time_step_ms: TICK_TIME_STEP_MS,
                time_milli: 0,
            }),
            r.right_motor_speed_easing == r.left_motor_speed_easing,
            !r.use_interval_ticking,
    {
        DriveDispatcher {
            left_motor_speed: 0,
            right_motor_speed: 0,
            left_motor_speed_easing: Easing::new(0, 0, DURATION_PER_UNIT_MS, TICK_TIME_STEP_MS),
            right_motor_speed_easing: Easing::new(0, 0, DURATION_PER_UNIT_MS, TICK_TIME_STEP_MS),
            use_interval_ticking: false,
        }
    }

    /// Retarget the left motor: the new trajectory starts from the current
    /// interpolated value — not the prior target — so a retarget mid-motion
    /// leaves no jump in the commanded value.
    pub fn set_left_motor_speed(&mut self, speed: i64)
        requires
            old(self).wf(),
            -VALUE_SCALE <= speed <= VALUE_SCALE,
        ensures
            final(self).wf(),
            final(self).left_motor_speed_easing
                == old(self).left_motor_speed_easing.retargeted(old(self).left_motor_speed, speed),
            final(self).right_motor_speed_easing == old(self).right_motor_speed_easing,
            final(self).left_motor_speed == old(self).left_motor_speed,
            final(self).right_motor_speed == old(self).right_motor_speed,
            final(self).use_interval_ticking == old(self).use_interval_ticking,
    {
        self.left_motor_speed_easing =
            self.left_motor_speed_easing.with(self.left_motor_speed, speed);
    }

    /// Retarget the right motor; see `set_left_motor_speed`.
    pub fn set_right_motor_speed(&mut self, speed: i64)
        requires
            old(self).wf(),
            -VALUE_SCALE <= speed <= VALUE_SCALE,
        ensures
            final(self).wf(),
            final(self).right_motor_speed_easing
                == old(self).right_motor_speed_easing.retargeted(old(self).right_motor_speed, speed),
            final(self).left_motor_speed_easing == old(self).left_motor_speed_easing,
            final(self).left_motor_speed == old(self).left_motor_speed,
            final(self).right_motor_speed == old(self).right_motor_speed,
            final(self).use_interval_ticking == old(self).use_interval_ticking,
    {
        self.right_motor_speed_easing =
            self.right_motor_speed_easing.with(self.right_motor_speed, speed);
    }

    /// Bypass interpolation: both held values drop to zero at once and both
    /// trajectories become trivial zero-to-zero ramps. The caller commands
    /// the actuator to stop before calling this.
    pub fn stop_immediately(&mut self)
        requires
            old(self).wf(),
        ensures
            final(self).wf(),
            final(self).left_motor_speed == 0,
            final(self).right_motor_speed == 0,
            final(self).left_motor_speed_easing
                == old(self).left_motor_speed_easing.retargeted(0, 0),
            final(self).right_motor_speed_easing
                == old(self).right_motor_speed_easing.retargeted(0, 0),
            final(self).use_interval_ticking == old(self).use_interval_ticking,
    {
        self.left_motor_speed = 0;
        self.right_motor_speed = 0;
        self.set_left_motor_speed(0);
        self.set_right_motor_speed(0);
    }

    /// The dispatcher state one tick later: both trajectories advanced, both
    /// held values at the new interpolated positions.
    pub open spec fn ticked(self) -> DriveDispatcher {
        let left = self.left_motor_speed_easing.advanced();
        let right = self.right_motor_speed_easing.advanced();
        DriveDispatcher {
            left_motor_speed: left.current_value() as i64,
            right_motor_speed: right.current_value() as i64,
            left_motor_speed_easing: left,
            right_motor_speed_easing: right,
            use_interval_ticking: !(left.spec_is_finished() && right.spec_is_finished()),
        }
    }

    /// The dispatcher state `n` ticks later.
    pub open spec fn ticked_by(self, n: nat) -> DriveDispatcher
        decreases n,
    {
        if n == 0 {
            self
        } else {
            self.ticked().ticked_by((n - 1) as nat)
        }
    }

    /// One tick: advance both trajectories, hold the two interpolated values
    /// and return them as `(left, right)` for the actuator. Once both
    /// trajectories are finished the tick loop is asked to stand down until
    /// the next speed command.
    pub fn update(&mut self) -> (r: (i64, i64))
        requires
            old(self).wf(),
        ensures
            *final(self) == old(self).ticked(),
            final(self).wf(),
            final(self).left_motor_speed_easing == old(self).left_motor_speed_easing.advanced(),
            final(self).right_motor_speed_easing == old(self).right_motor_speed_easing.advanced(),
            final(self).left_motor_speed as int
                == old(self).left_motor_speed_easing.advanced().current_value(),
            final(self).right_motor_speed as int
                == old(self).right_motor_speed_easing.advanced().current_value(),
            r == (final(self).left_motor_speed, final(self).right_motor_speed),
            final(self).use_interval_ticking
                == !(final(self).left_motor_speed_easing.spec_is_finished()
                    && final(self).right_motor_speed_easing.spec_is_finished()),
    {
        proof {
            lemma_current_value_within_scale(self.left_motor_speed_easing.advanced());
            lemma_current_value_within_scale(self.right_motor_speed_easing.advanced());
        }
        self.left_motor_speed = self.left_motor_speed_easing.apply_easing();
        self.right_motor_speed = self.right_motor_speed_easing.apply_easing();
        let finished =
            self.left_motor_speed_easing.is_finished()
            && self.right_motor_speed_easing.is_finished();
        self.use_interval_ticking = !finished;
        (self.left_motor_speed, self.right_motor_speed)
    }
}

/// The value a well-formed trajectory reports stays within full scale.
pub proof fn lemma_current_value_within_scale(e: Easing)
    requires
        e.wf(),
    ensures
        -VALUE_SCALE <= e.current_value() <= VALUE_SCALE,
{
    lemma_trajectory_monotone(e, e.time_milli as int, 1000);
}

/// Ticking the dispatcher advances each trajectory one step, so `n` ticks
/// leave each trajectory `n` steps along, with the held values tracking
/// them; well-formedness is preserved throughout.
pub proof fn lemma_ticked_by_follows_trajectories(d: DriveDispatcher, n: nat)
    requires
        d.wf(),
    ensures
        d.ticked_by(n).wf(),
        d.ticked_by(n).left_motor_speed_easing == d.left_motor_speed_easing.advanced_by(n),
        d.ticked_by(n).right_motor_speed_easing == d.right_motor_speed_easing.advanced_by(n),
        n > 0 ==> d.ticked_by(n).left_motor_speed as int
            == d.left_motor_speed_easing.advanced_by(n).current_value(),
        n > 0 ==> d.ticked_by(n).right_motor_speed as int
            == d.right_motor_speed_easing.advanced_by(n).current_value(),
    decreases n,
{
    crate::easing::lemma_increment_bounds(d.left_motor_speed_easing);
    crate::easing::lemma_increment_bounds(d.right_motor_speed_easing);
    if n > 0 {
        lemma_current_value_within_scale(d.left_motor_speed_easing.advanced());
        lemma_current_value_within_scale(d.right_motor_speed_easing.advanced());
        lemma_ticked_by_follows_trajectories(d.ticked(), (n - 1) as nat);
        if n == 1 {
        } else {
            crate::easing::lemma_advanced_by_keeps_shape(d.left_motor_speed_easing.advanced(), (n - 1) as nat);
        }
    }
}

/// Drive ramp law: a speed command turns into a trajectory that the tick
/// loop completes in a bounded number of ticks — as many as it takes the
/// per-tick increment to cover full progress, ten with the default timing
/// for a full-scale change — after which the held value is exactly the
/// commanded speed.
pub proof fn lemma_drive_ramp_converges(d: DriveDispatcher, n: nat)
    requires
        d.wf(),
        n > 0,
        d.left_motor_speed_easing.time_milli + n * d.left_motor_speed_easing.increment_of()
            >= 1000,
    ensures
        d.ticked_by(n).left_motor_speed as int == d.left_motor_speed_easing.end_value,
        d.ticked_by(n).left_motor_speed_easing.spec_is_finished(),
{
    lemma_ticked_by_follows_trajectories(d, n);
    crate::easing::lemma_trajectory_converges(d.left_motor_speed_easing, n);
}

}
