//! Error values surfaced by the control core. Each carries a plain message;
//! conversions from collaborator-specific errors live with the binary that
//! owns those collaborators.

use vstd::prelude::*;

verus! {

/// A plain error wrapping a message string.
#[derive(Debug)]
pub struct StringError {
    pub details: String,
}

impl StringError {
    pub fn new(msg: &str) -> (r: StringError)
        ensures
            r.details@ == msg@,
    {
        StringError { details: msg.to_owned() }
    }
}

/// Error raised by the drive subsystem: a rejected speed, or a hardware
/// failure reported by the motor outputs.
#[derive(Debug)]
pub struct PropulsionError(pub String);

impl PropulsionError {
    pub fn new(msg: &str) -> (r: PropulsionError)
        ensures
            r.0@ == msg@,
    {
        PropulsionError(msg.to_owned())
    }
}

/// Error raised by the winch subsystem: its command queue's consumer has
/// terminated, so nothing more can be enqueued.
#[derive(Debug)]
pub struct WinchError(pub String);

impl WinchError {
    pub fn new(msg: &str) -> (r: WinchError)
        ensures
            r.0@ == msg@,
    {
        WinchError(msg.to_owned())
    }
}

}
