//! Event translator: maps one raw input event, paired with its source
//! device, to the domain commands it stands for.
//!
//! The translator is stateless with respect to devices; its only state is
//! the dead-man combo — the two menu buttons whose simultaneous hold means
//! shutdown. `Shutdown` is emitted exactly once per rising edge of "both
//! held": it does not re-fire while both stay held, and re-arms once either
//! is released.

use vstd::prelude::*;
use crate::command::Command;
use crate::command::Motor;
use crate::controller_provider::InputDevice;

verus! {

/// One raw event from a gamepad. Axis values are fixed-point thousandths in
/// `[-1000, 1000]`.
#[derive(Debug, Clone)]
pub enum Event {
    /// The device went away; carries its path when the backend knows it.
    Disconnect(Option<String>),
    /// Left dead-man (menu) button.
    MenuL(bool),
    /// Right dead-man (menu) button.
    MenuR(bool),
    /// Emergency stop: both drive motors to zero.
    ActionA(bool),
    /// Rumble the source gamepad.
    ActionB(bool),
    /// Release the winch line.
    ActionH(bool),
    /// Full speed ahead on both drive motors.
    ActionV(bool),
    /// Query the source gamepad's battery.
    Exit(bool),
    /// Left stick, vertical: right motor, inverted (cross-wired by design).
    JoyY(i64),
    /// Right stick, vertical: left motor, inverted (cross-wired by design).
    CamY(i64),
    /// Left trigger-style axis: winds the winch in.
    JoyZ(i64),
    /// Right trigger-style axis: pays the winch out.
    CamZ(i64),
    /// Any raw event the translator does not map.
    Other,
}

impl Event {
    /// Axis payloads stay within full scale.
    pub open spec fn wf(self) -> bool {
        match self {
            Event::JoyY(v) => -1000 <= v <= 1000,
            Event::CamY(v) => -1000 <= v <= 1000,
            Event::JoyZ(v) => -1000 <= v <= 1000,
            Event::CamZ(v) => -1000 <= v <= 1000,
            _ => true,
        }
    }
}

/// The dead-man combo state after an event: menu button events update their
/// side, everything else leaves the pair alone.
pub open spec fn combo_after(left: bool, right: bool, event: Event) -> (bool, bool) {
    match event {
        Event::MenuL(pressed) => (pressed, right),
        Event::MenuR(pressed) => (left, pressed),
        _ => (left, right),
    }
}

/// Whether an event is the rising edge of "both dead-man buttons held".
pub open spec fn shutdown_edge(left: bool, right: bool, event: Event) -> bool {
    let after = combo_after(left, right, event);
    after.0 && after.1 && !(left && right)
}

/// The commands one event translates to, given the combo state before it.
pub open spec fn translate_spec(left: bool, right: bool, event: Event, controller: InputDevice)
    -> Seq<Command> {
    match event {
        Event::Disconnect(id_option) => match id_option {
            Some(controller_id) => seq![Command::HandleGamepadDisconnection(controller_id)],
            None => seq![],
        },
        Event::MenuL(pressed) => if shutdown_edge(left, right, event) {
            seq![Command::Shutdown]
        } else {
            seq![]
        },
        Event::MenuR(pressed) => if shutdown_edge(left, right, event) {
            seq![Command::Shutdown]
        } else {
            seq![]
        },
        Event::ActionA(pressed) => if pressed {
            seq![
                Command::Drive { motor: Motor::Left, speed: 0 },
                Command::Drive { motor: Motor::Right, speed: 0 },
            ]
        } else {
            seq![]
        },
        Event::ActionB(pressed) => if pressed {
            seq![Command::RumbleGamepad(controller.path)]
        } else {
            seq![]
        },
        Event::ActionH(pressed) => if pressed {
            seq![Command::ReleaseWinch]
        } else {
            seq![]
        },
        Event::ActionV(pressed) => if pressed {
            seq![
                Command::Drive { motor: Motor::Left, speed: 1000 },
                Command::Drive { motor: Motor::Right, speed: 1000 },
            ]
        } else {
            seq![]
        },
        Event::Exit(pressed) => if pressed {
            seq![Command::CheckGamepadPower(controller.path)]
        } else {
            seq![]
        },
        Event::JoyY(value) => seq![Command::Drive { motor: Motor::Right, speed: ((-value) as i64) }],
        Event::CamY(value) => seq![Command::Drive { motor: Motor::Left, speed: ((-value) as i64) }],
        Event::JoyZ(value) => seq![
            Command::Drive { motor: Motor::Winch, speed: (((value + 1000) / 2) as i64) },
        ],
        Event::CamZ(value) => seq![
            Command::Drive { motor: Motor::Winch, speed: ((-((value + 1000) / 2)) as i64) },
        ],
        Event::Other => seq![],
    }
}

/// Owns the dead-man combo state and translates one event at a time.
#[derive(Debug)]
pub struct EventTranslator {
    /// Whether the left dead-man (menu) button is held.
    pub menu_left_pressed: bool,
    /// Whether the right dead-man (menu) button is held.
    pub menu_right_pressed: bool,
}

impl EventTranslator {
    /// A translator with both dead-man buttons released.
    pub fn new() -> (r: EventTranslator)
        ensures
            !r.menu_left_pressed,
            !r.menu_right_pressed,
    {
        EventTranslator { menu_left_pressed: false, menu_right_pressed: false }
    }

    /// Translate one raw event from `controller` into its commands, updating
    /// the combo state.
    pub fn translate(&mut self, event: Event, controller: &InputDevice) -> (r: Vec<Command>)
        requires
            event.wf(),
        ensures
            (final(self).menu_left_pressed, final(self).menu_right_pressed) == combo_after(
                old(self).menu_left_pressed,
                old(self).menu_right_pressed,
                event,
            ),
            r@ =~= translate_spec(
                old(self).menu_left_pressed,
                old(self).menu_right_pressed,
                event,
                *controller,
            ),
            forall|i: int| 0 <= i < r@.len() ==> (#[trigger] r@[i]).wf(),
    {
        let was_both = self.menu_left_pressed && self.menu_right_pressed;
        let mut commands: Vec<Command> = Vec::new();
        match event {
            Event::Disconnect(id_option) => {
                match id_option {
                    Some(controller_id) => {
                        commands.push(Command::HandleGamepadDisconnection(controller_id));
                    }
                    None => {}
                }
            }
            Event::MenuL(pressed) => {
                self.menu_left_pressed = pressed;
                if self.check_shutdown_edge(was_both) {
                    commands.push(Command::Shutdown);
                }
            }
            Event::MenuR(pressed) => {
                self.menu_right_pressed = pressed;
                if self.check_shutdown_edge(was_both) {
                    commands.push(Command::Shutdown);
                }
            }
            Event::ActionA(pressed) => {
                if pressed {
                    commands.push(Command::Drive { motor: Motor::Left, speed: 0 });
                    commands.push(Command::Drive { motor: Motor::Right, speed: 0 });
                }
            }
            Event::ActionB(pressed) => {
                if pressed {
                    commands.push(Command::RumbleGamepad(controller.path.clone()));
                }
            }
            Event::ActionH(pressed) => {
                if pressed {
                    commands.push(Command::ReleaseWinch);
                }
            }
            Event::ActionV(pressed) => {
                if pressed {
                    commands.push(Command::Drive { motor: Motor::Left, speed: 1000 });
                    commands.push(Command::Drive { motor: Motor::Right, speed: 1000 });
                }
            }
            Event::Exit(pressed) => {
                if pressed {
                    commands.push(Command::CheckGamepadPower(controller.path.clone()));
                }
            }
            Event::JoyY(value) => {
                commands.push(Command::Drive { motor: Motor::Right, speed: -value });
            }
            Event::CamY(value) => {
                commands.push(Command::Drive { motor: Motor::Left, speed: -value });
            }
            Event::JoyZ(value) => {
                let speed: i64 = (((value + 1000) as u64) / 2) as i64;
                commands.push(Command::Drive { motor: Motor::Winch, speed });
            }
            Event::CamZ(value) => {
                let speed: i64 = (((value + 1000) as u64) / 2) as i64;
                commands.push(Command::Drive { motor: Motor::Winch, speed: -speed });
            }
            Event::Other => {}
        }
        commands
    }

    /// Whether the combo state just produced a rising edge of "both held".
    fn check_shutdown_edge(&self, was_both: bool) -> (r: bool)
        ensures
            r == (self.menu_left_pressed && self.menu_right_pressed && !was_both),
    {
        self.menu_left_pressed && self.menu_right_pressed && !was_both
    }
}

/// Whether a command sequence holds a `Shutdown`.
pub open spec fn contains_shutdown(commands: Seq<Command>) -> bool {
    exists|i: int| 0 <= i < commands.len() && (#[trigger] commands[i]) is Shutdown
}

/// Dead-man law: an event's translation holds `Shutdown` exactly when that
/// event is the rising edge of "both dead-man buttons held", and then it is
/// the whole translation — once per edge, no re-fire while both stay held,
/// re-armed by any release.
pub proof fn lemma_shutdown_exactly_on_rising_edge(
    left: bool,
    right: bool,
    event: Event,
    controller: InputDevice,
)
    ensures
        contains_shutdown(translate_spec(left, right, event, controller)) <==> shutdown_edge(
            left,
            right,
            event,
        ),
        shutdown_edge(left, right, event) ==> translate_spec(left, right, event, controller)
            =~= seq![Command::Shutdown],
{
    let commands = translate_spec(left, right, event, controller);
    if shutdown_edge(left, right, event) {
        match event {
            Event::MenuL(p) => {
                assert(commands[0] is Shutdown);
            }
            Event::MenuR(p) => {
                assert(commands[0] is Shutdown);
            }
            _ => {
                // No other event changes the combo, so none forms an edge.
                assert(combo_after(left, right, event) == (left, right));
                assert(false);
            }
        }
    } else {
        assert forall|i: int| 0 <= i < commands.len()
            implies !((#[trigger] commands[i]) is Shutdown) by {}
    }
}

}
