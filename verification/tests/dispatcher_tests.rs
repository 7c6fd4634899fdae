use rover_core::command::Command;
use rover_core::command::Motor;
use rover_core::controller_provider::ControllerProvider;
use rover_core::dispatcher::distribute_command;
use rover_core::drive_dispatcher::DriveDispatcher;
use rover_core::winch::Winch;
use rover_core::winch::WinchCommand;

fn subsystems() -> (Option<DriveDispatcher>, Option<Winch>, ControllerProvider) {
    let mut provider = ControllerProvider::new();
    provider.try_create_new_controller(
        "/dev/input/event5".to_string(),
        "Wireless Controller".to_string(),
        0,
    );
    (Some(DriveDispatcher::new()), Some(Winch::initialize()), provider)
}

#[test]
fn disconnection_stops_drive_and_winch_exactly_once() {
    let (mut drive, mut winch, mut provider) = subsystems();
    // Put the drive mid-trajectory first.
    {
        let d = drive.as_mut().unwrap();
        d.set_left_motor_speed(1000);
        d.update();
        assert_ne!(d.left_motor_speed, 0);
    }
    let outcome = distribute_command(
        Command::HandleGamepadDisconnection("/dev/input/event5".to_string()),
        &mut drive,
        &mut winch,
        &mut provider,
        7000,
    )
    .unwrap();
    assert!(outcome.drive_stopped);
    assert!(!outcome.shutdown);
    let d = drive.as_ref().unwrap();
    assert_eq!(d.left_motor_speed, 0);
    assert_eq!(d.right_motor_speed, 0);
    // Exactly one stop was enqueued for the winch worker.
    assert_eq!(winch.as_mut().unwrap().take_pending(), vec![WinchCommand::Stop]);
    // The device is gone from the provider and debounced.
    assert!(!provider.contains_controller(&"/dev/input/event5".to_string()));
    let recreate = provider.try_create_new_controller(
        "/dev/input/event5".to_string(),
        "Wireless Controller".to_string(),
        7500,
    );
    assert_eq!(recreate, None);
}

#[test]
fn drive_commands_retarget_one_motor() {
    let (mut drive, mut winch, mut provider) = subsystems();
    distribute_command(
        Command::Drive { motor: Motor::Left, speed: 750 },
        &mut drive,
        &mut winch,
        &mut provider,
        0,
    )
    .unwrap();
    {
        let d = drive.as_ref().unwrap();
        assert_eq!(d.left_motor_speed_easing.end_value, 750);
        assert_eq!(d.right_motor_speed_easing.end_value, 0);
    }
    distribute_command(
        Command::Drive { motor: Motor::Right, speed: -250 },
        &mut drive,
        &mut winch,
        &mut provider,
        0,
    )
    .unwrap();
    assert_eq!(drive.as_ref().unwrap().right_motor_speed_easing.end_value, -250);
    assert!(winch.as_mut().unwrap().take_pending().is_empty());
}

#[test]
fn winch_commands_enqueue_for_the_worker() {
    let (mut drive, mut winch, mut provider) = subsystems();
    distribute_command(
        Command::Drive { motor: Motor::Winch, speed: 600 },
        &mut drive,
        &mut winch,
        &mut provider,
        0,
    )
    .unwrap();
    distribute_command(
        Command::Drive { motor: Motor::Winch, speed: 0 },
        &mut drive,
        &mut winch,
        &mut provider,
        0,
    )
    .unwrap();
    distribute_command(Command::ReleaseWinch, &mut drive, &mut winch, &mut provider, 0).unwrap();
    assert_eq!(winch.as_mut().unwrap().take_pending(), vec![
        WinchCommand::Wind { speed: 600 },
        WinchCommand::Stop,
        WinchCommand::Release,
    ]);
}

#[test]
fn rumble_is_dropped_for_untracked_devices() {
    let (mut drive, mut winch, mut provider) = subsystems();
    let known = distribute_command(
        Command::RumbleGamepad("/dev/input/event5".to_string()),
        &mut drive,
        &mut winch,
        &mut provider,
        0,
    )
    .unwrap();
    assert_eq!(known.rumble_device, Some("/dev/input/event5".to_string()));
    let unknown = distribute_command(
        Command::RumbleGamepad("/dev/input/event9".to_string()),
        &mut drive,
        &mut winch,
        &mut provider,
        0,
    )
    .unwrap();
    assert_eq!(unknown.rumble_device, None);
}

#[test]
fn power_check_and_shutdown_are_outward_effects() {
    let (mut drive, mut winch, mut provider) = subsystems();
    let power = distribute_command(
        Command::CheckGamepadPower("/dev/input/event5".to_string()),
        &mut drive,
        &mut winch,
        &mut provider,
        0,
    )
    .unwrap();
    assert_eq!(power.check_power_device, Some("/dev/input/event5".to_string()));
    let shutdown =
        distribute_command(Command::Shutdown, &mut drive, &mut winch, &mut provider, 0).unwrap();
    assert!(shutdown.shutdown);
}

#[test]
fn absent_subsystems_are_skipped() {
    let mut drive: Option<DriveDispatcher> = None;
    let mut winch: Option<Winch> = None;
    let mut provider = ControllerProvider::new();
    let outcome = distribute_command(
        Command::Drive { motor: Motor::Left, speed: 500 },
        &mut drive,
        &mut winch,
        &mut provider,
        0,
    )
    .unwrap();
    assert!(!outcome.drive_stopped);
    let outcome = distribute_command(
        Command::HandleGamepadDisconnection("/dev/input/event5".to_string()),
        &mut drive,
        &mut winch,
        &mut provider,
        0,
    )
    .unwrap();
    assert!(!outcome.drive_stopped);
}

#[test]
fn closed_winch_queue_surfaces_as_an_error() {
    let (mut drive, mut winch, mut provider) = subsystems();
    winch.as_mut().unwrap().mark_closed();
    let result = distribute_command(
        Command::ReleaseWinch,
        &mut drive,
        &mut winch,
        &mut provider,
        0,
    );
    assert!(result.is_err());
    // Commands that do not touch the winch still succeed.
    let result =
        distribute_command(Command::Shutdown, &mut drive, &mut winch, &mut provider, 0);
    assert!(result.is_ok());
}
