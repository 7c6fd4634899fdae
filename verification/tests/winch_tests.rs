use rover_core::winch::BurstOutcome;
use rover_core::winch::Winch;
use rover_core::winch::WinchCommand;
use rover_core::winch::WorkerAction;
use rover_core::winch::WorkerState;
use rover_core::winch::coalesce_burst;
use rover_core::winch::map_speed_to_delay;
use rover_core::winch::step_pattern;
use rover_core::winch::winding_step_action;
use rover_core::winch::winding_transition;
use rover_core::winch::worker_dispatch;

#[test]
fn burst_of_winds_coalesces_to_the_last() {
    let burst = vec![
        WinchCommand::Wind { speed: 100 },
        WinchCommand::Wind { speed: 200 },
        WinchCommand::Wind { speed: 300 },
    ];
    let outcome = coalesce_burst(&burst);
    assert_eq!(outcome, BurstOutcome {
        release_pulses: 0,
        last_command: Some(WinchCommand::Wind { speed: 300 }),
    });
}

#[test]
fn interleaved_releases_each_fire_once_and_last_wind_wins() {
    let burst = vec![
        WinchCommand::Wind { speed: 100 },
        WinchCommand::Release,
        WinchCommand::Wind { speed: 200 },
        WinchCommand::Release,
        WinchCommand::Wind { speed: 900 },
    ];
    let outcome = coalesce_burst(&burst);
    assert_eq!(outcome.release_pulses, 2);
    assert_eq!(outcome.last_command, Some(WinchCommand::Wind { speed: 900 }));
    // The worker keeps winding at the last speed, never an intermediate one.
    let (_, state, action) = winding_transition(100, &burst);
    assert_eq!(state, WorkerState::Winding { speed: 900 });
    assert_eq!(action, None);
}

#[test]
fn only_releases_defer_to_the_current_wind() {
    let burst = vec![WinchCommand::Release, WinchCommand::Release];
    let (outcome, state, action) = winding_transition(-400, &burst);
    assert_eq!(outcome.release_pulses, 2);
    assert_eq!(outcome.last_command, None);
    assert_eq!(state, WorkerState::Winding { speed: -400 });
    assert_eq!(action, None);
}

#[test]
fn empty_burst_keeps_winding() {
    let burst: Vec<WinchCommand> = Vec::new();
    let (outcome, state, action) = winding_transition(700, &burst);
    assert_eq!(outcome.release_pulses, 0);
    assert_eq!(state, WorkerState::Winding { speed: 700 });
    assert_eq!(action, None);
}

#[test]
fn stop_and_quit_win_coalescing_too() {
    let burst = vec![WinchCommand::Wind { speed: 500 }, WinchCommand::Stop];
    let (_, state, action) = winding_transition(500, &burst);
    assert_eq!(state, WorkerState::Idle);
    assert_eq!(action, Some(WorkerAction::MotorOff));

    let burst = vec![WinchCommand::Stop, WinchCommand::Quit];
    let (_, state, action) = winding_transition(500, &burst);
    assert_eq!(state, WorkerState::Terminated);
    assert_eq!(action, Some(WorkerAction::MotorOff));
}

#[test]
fn dispatch_from_idle() {
    assert_eq!(
        worker_dispatch(WinchCommand::Wind { speed: -250 }),
        (WorkerState::Winding { speed: -250 }, None),
    );
    assert_eq!(
        worker_dispatch(WinchCommand::Release),
        (WorkerState::Idle, Some(WorkerAction::ReleasePulse)),
    );
    assert_eq!(
        worker_dispatch(WinchCommand::Quit),
        (WorkerState::Terminated, Some(WorkerAction::MotorOff)),
    );
}

#[test]
fn step_delay_interpolates_between_bounds() {
    assert_eq!(map_speed_to_delay(1000), 800);
    assert_eq!(map_speed_to_delay(-1000), 800);
    assert_eq!(map_speed_to_delay(0), 5000);
    assert_eq!(map_speed_to_delay(500), 2900);
    assert_eq!(map_speed_to_delay(-500), 2900);
    // Out-of-scale speeds clamp to full speed, even the extreme ones.
    assert_eq!(map_speed_to_delay(5000), 800);
    assert_eq!(map_speed_to_delay(i64::MIN), 800);
}

#[test]
fn winding_steps_in_the_sign_direction() {
    assert_eq!(
        winding_step_action(1000),
        Some(WorkerAction::StepForward { delay_us: 800 }),
    );
    assert_eq!(
        winding_step_action(-500),
        Some(WorkerAction::StepBackward { delay_us: 2900 }),
    );
    assert_eq!(winding_step_action(0), None);
}

#[test]
fn wind_encodes_zero_as_stop() {
    let mut winch = Winch::initialize();
    winch.wind(0).unwrap();
    winch.wind(350).unwrap();
    winch.stop().unwrap();
    winch.release().unwrap();
    winch.join().unwrap();
    let pending = winch.take_pending();
    assert_eq!(pending, vec![
        WinchCommand::Stop,
        WinchCommand::Wind { speed: 350 },
        WinchCommand::Stop,
        WinchCommand::Release,
        WinchCommand::Quit,
    ]);
    assert!(winch.take_pending().is_empty());
}

#[test]
fn closed_queue_rejects_enqueues() {
    let mut winch = Winch::initialize();
    winch.mark_closed();
    assert!(winch.wind(100).is_err());
    assert!(winch.stop().is_err());
    assert!(winch.release().is_err());
    assert!(winch.take_pending().is_empty());
}

#[test]
fn step_sequence_walks_the_four_coils() {
    assert_eq!(step_pattern(0), (true, false, false, true));
    assert_eq!(step_pattern(1), (true, false, false, false));
    assert_eq!(step_pattern(7), (false, false, false, true));
    // Adjacent patterns overlap in at least one energized coil per cycle.
    for i in 0..8 {
        let p = step_pattern(i);
        assert!(p.0 || p.1 || p.2 || p.3);
    }
}
