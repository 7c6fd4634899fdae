use rover_core::drive::MotorDirection;
use rover_core::drive::direction_pin_levels;
use rover_core::drive::map_from_range_to_range;
use rover_core::drive::motor_output;
use rover_core::drive_dispatcher::DriveDispatcher;

#[test]
fn motor_output_selects_direction_and_duty() {
    assert_eq!(motor_output(0).unwrap(), (MotorDirection::Idle, 0));
    assert_eq!(motor_output(640).unwrap(), (MotorDirection::Forward, 640));
    assert_eq!(motor_output(-640).unwrap(), (MotorDirection::Backward, 640));
    assert_eq!(motor_output(1000).unwrap(), (MotorDirection::Forward, 1000));
    assert!(motor_output(1001).is_err());
    assert!(motor_output(-1001).is_err());
}

#[test]
fn direction_pins_are_mutually_exclusive() {
    assert_eq!(direction_pin_levels(MotorDirection::Idle), (false, false));
    assert_eq!(direction_pin_levels(MotorDirection::Forward), (true, false));
    assert_eq!(direction_pin_levels(MotorDirection::Backward), (false, true));
}

#[test]
fn range_mapping_is_linear() {
    // Identity map.
    assert_eq!(map_from_range_to_range(700, 0, 1000, 0, 1000), 700);
    // Upper half map, as a motor with a dead zone would use.
    assert_eq!(map_from_range_to_range(0, 0, 1000, 500, 1000), 500);
    assert_eq!(map_from_range_to_range(500, 0, 1000, 500, 1000), 750);
    assert_eq!(map_from_range_to_range(1000, 0, 1000, 500, 1000), 1000);
}

#[test]
fn full_speed_command_reaches_the_target_in_ten_ticks() {
    let mut dispatcher = DriveDispatcher::new();
    dispatcher.set_left_motor_speed(1000);
    let mut last = (0, 0);
    for _ in 0..10 {
        last = dispatcher.update();
    }
    assert_eq!(last, (1000, 0));
    assert_eq!(dispatcher.left_motor_speed, 1000);
    assert!(dispatcher.left_motor_speed_easing.is_finished());
    assert!(!dispatcher.use_interval_ticking);
}

#[test]
fn retarget_mid_motion_starts_from_the_held_value() {
    let mut dispatcher = DriveDispatcher::new();
    dispatcher.set_left_motor_speed(1000);
    for _ in 0..3 {
        dispatcher.update();
    }
    let held = dispatcher.left_motor_speed;
    assert!(held > 0 && held < 1000);
    dispatcher.set_left_motor_speed(0);
    // The new trajectory begins exactly at the held value: no jump.
    assert_eq!(dispatcher.left_motor_speed_easing.start_value, held);
    assert_eq!(dispatcher.left_motor_speed_easing.end_value, 0);
}

#[test]
fn stop_immediately_zeroes_everything() {
    let mut dispatcher = DriveDispatcher::new();
    dispatcher.set_left_motor_speed(800);
    dispatcher.set_right_motor_speed(-800);
    dispatcher.update();
    dispatcher.stop_immediately();
    assert_eq!(dispatcher.left_motor_speed, 0);
    assert_eq!(dispatcher.right_motor_speed, 0);
    assert!(dispatcher.left_motor_speed_easing.is_finished());
    assert!(dispatcher.right_motor_speed_easing.is_finished());
    // The next tick keeps the motors at zero.
    assert_eq!(dispatcher.update(), (0, 0));
}

#[test]
fn ticking_stands_down_only_when_both_trajectories_finish() {
    let mut dispatcher = DriveDispatcher::new();
    dispatcher.set_left_motor_speed(200);
    dispatcher.set_right_motor_speed(1000);
    dispatcher.update();
    dispatcher.update();
    // Left (short ramp) finished, right has not: keep ticking.
    assert!(dispatcher.left_motor_speed_easing.is_finished());
    assert!(!dispatcher.right_motor_speed_easing.is_finished());
    assert!(dispatcher.use_interval_ticking);
}
