//! Control core of a teleoperated ground vehicle: gamepad events are turned
//! into a small command vocabulary, drive motor speeds follow smooth eased
//! trajectories, and a line-handling winch executes a preemptible command
//! queue with last-write-wins coalescing.
//!
//! Continuous quantities (speeds in [-1.0, 1.0], normalized trajectory
//! progress) are carried as fixed-point integers in thousandths, so every
//! rule of the control pipeline is stated and proved exactly. The hardware
//! registers, the device backend, the network client and the OS signal
//! plumbing are external collaborators; the surrounding binary owns them and
//! feeds this library plain values.

pub mod command;
pub mod controller_provider;
pub mod dispatcher;
pub mod drive;
pub mod event_combinator;
pub mod event_translator;
pub mod network;
pub mod power;
pub mod sonar;
pub mod text;
pub mod drive_dispatcher;
pub mod easing;
pub mod error;
pub mod winch;
