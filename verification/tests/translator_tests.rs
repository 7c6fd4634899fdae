use rover_core::command::Command;
use rover_core::command::Motor;
use rover_core::controller_provider::InputDevice;
use rover_core::event_combinator::EventCombinator;
use rover_core::event_combinator::SpecialEvent;
use rover_core::event_translator::Event;
use rover_core::event_translator::EventTranslator;

fn pad() -> InputDevice {
    InputDevice {
        path: "/dev/input/event5".to_string(),
        name: "Wireless Controller".to_string(),
    }
}

#[test]
fn shutdown_fires_once_per_rising_edge() {
    let mut translator = EventTranslator::new();
    let pad = pad();
    assert_eq!(translator.translate(Event::MenuL(true), &pad), vec![]);
    assert_eq!(
        translator.translate(Event::MenuR(true), &pad),
        vec![Command::Shutdown],
    );
    // Both stay held: a repeated press event does not re-fire.
    assert_eq!(translator.translate(Event::MenuL(true), &pad), vec![]);
    assert_eq!(translator.translate(Event::MenuR(true), &pad), vec![]);
    // Releasing one re-arms the combo.
    assert_eq!(translator.translate(Event::MenuR(false), &pad), vec![]);
    assert_eq!(
        translator.translate(Event::MenuR(true), &pad),
        vec![Command::Shutdown],
    );
}

#[test]
fn disconnect_translates_regardless_of_combo_state() {
    let mut translator = EventTranslator::new();
    let pad = pad();
    translator.translate(Event::MenuL(true), &pad);
    assert_eq!(
        translator.translate(Event::Disconnect(Some("/dev/input/event5".to_string())), &pad),
        vec![Command::HandleGamepadDisconnection("/dev/input/event5".to_string())],
    );
    assert_eq!(translator.translate(Event::Disconnect(None), &pad), vec![]);
}

#[test]
fn action_buttons_fire_on_press_edge_only() {
    let mut translator = EventTranslator::new();
    let pad = pad();
    assert_eq!(
        translator.translate(Event::ActionA(true), &pad),
        vec![
            Command::Drive { motor: Motor::Left, speed: 0 },
            Command::Drive { motor: Motor::Right, speed: 0 },
        ],
    );
    assert_eq!(translator.translate(Event::ActionA(false), &pad), vec![]);
    assert_eq!(
        translator.translate(Event::ActionV(true), &pad),
        vec![
            Command::Drive { motor: Motor::Left, speed: 1000 },
            Command::Drive { motor: Motor::Right, speed: 1000 },
        ],
    );
    assert_eq!(
        translator.translate(Event::ActionB(true), &pad),
        vec![Command::RumbleGamepad("/dev/input/event5".to_string())],
    );
    assert_eq!(
        translator.translate(Event::ActionH(true), &pad),
        vec![Command::ReleaseWinch],
    );
    assert_eq!(
        translator.translate(Event::Exit(true), &pad),
        vec![Command::CheckGamepadPower("/dev/input/event5".to_string())],
    );
}

#[test]
fn sticks_are_cross_wired_and_inverted() {
    let mut translator = EventTranslator::new();
    let pad = pad();
    assert_eq!(
        translator.translate(Event::JoyY(600), &pad),
        vec![Command::Drive { motor: Motor::Right, speed: -600 }],
    );
    assert_eq!(
        translator.translate(Event::CamY(-1000), &pad),
        vec![Command::Drive { motor: Motor::Left, speed: 1000 }],
    );
}

#[test]
fn trigger_axes_drive_the_winch_in_opposite_directions() {
    let mut translator = EventTranslator::new();
    let pad = pad();
    // A trigger axis is normalized from [-1, 1] to [0, 1].
    assert_eq!(
        translator.translate(Event::JoyZ(-1000), &pad),
        vec![Command::Drive { motor: Motor::Winch, speed: 0 }],
    );
    assert_eq!(
        translator.translate(Event::JoyZ(1000), &pad),
        vec![Command::Drive { motor: Motor::Winch, speed: 1000 }],
    );
    assert_eq!(
        translator.translate(Event::JoyZ(0), &pad),
        vec![Command::Drive { motor: Motor::Winch, speed: 500 }],
    );
    assert_eq!(
        translator.translate(Event::CamZ(1000), &pad),
        vec![Command::Drive { motor: Motor::Winch, speed: -1000 }],
    );
    assert_eq!(
        translator.translate(Event::CamZ(0), &pad),
        vec![Command::Drive { motor: Motor::Winch, speed: -500 }],
    );
}

#[test]
fn unmapped_events_translate_to_nothing() {
    let mut translator = EventTranslator::new();
    assert_eq!(translator.translate(Event::Other, &pad()), vec![]);
}

#[test]
fn combinator_reports_whenever_both_are_held() {
    let mut combinator = EventCombinator::new();
    assert_eq!(combinator.add(&Event::MenuL(true)), None);
    assert_eq!(combinator.add(&Event::MenuR(true)), Some(SpecialEvent::Shutdown));
    // Unlike the translator, the combinator keeps reporting while both hold.
    assert_eq!(combinator.add(&Event::MenuL(true)), Some(SpecialEvent::Shutdown));
    assert_eq!(combinator.add(&Event::MenuR(false)), None);
    assert_eq!(combinator.add(&Event::Other), None);
}
