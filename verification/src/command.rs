//! The command vocabulary produced by the event translator and consumed by
//! the command dispatcher.

use vstd::prelude::*;
use crate::easing::VALUE_SCALE;

verus! {

/// Actuator a `Drive` command is aimed at.
#[derive(Clone, Copy, Debug, PartialEq, Eq, Structural)]
pub enum Motor {
    Left,
    Right,
    Winch,
}

/// One domain command. Commands are transient: the event translator creates
/// them and the command dispatcher consumes them immediately. Speeds are
/// fixed-point thousandths of full scale.
#[derive(Clone, Debug, PartialEq)]
pub enum Command {
    Drive { motor: Motor, speed: i64 },
    ReleaseWinch,
    CheckGamepadPower(String),
    RumbleGamepad(String),
    Shutdown,
    HandleGamepadDisconnection(String),
}

impl Command {
    /// Any speed a command carries stays within full scale.
    pub open spec fn wf(self) -> bool {
        match self {
            Command::Drive { motor, speed } => -VALUE_SCALE <= speed <= VALUE_SCALE,
            _ => true,
        }
    }
}

}
