//! Command dispatcher: pure routing of one command to the subsystem it is
//! for.
//!
//! The dispatcher updates the drive dispatcher, the winch queue and the
//! controller provider directly, and reports the outward effects — rumble,
//! battery query, host shutdown, a hardware stop — for the binary that owns
//! those collaborators to perform. A disconnection is treated as a safety
//! event: the device leaves the provider and both drive and winch are
//! stopped, so no actuator keeps running without a live controller.
//!
//! A subsystem that failed to initialize is `None` and is skipped; routing
//! itself introduces no failure mode beyond the winch queue reporting its
//! consumer gone.

use vstd::prelude::*;
use crate::command::Command;
use crate::command::Motor;
use crate::controller_provider::ControllerProvider;
use crate::controller_provider::debounce_at;
use crate::drive_dispatcher::DriveDispatcher;
use crate::error::WinchError;
use crate::winch::Winch;
use crate::winch::WinchCommand;
use crate::winch::wind_encoding;

verus! {

/// The outward effects one routed command asks the binary to perform.
#[derive(Debug)]
pub struct DispatchOutcome {
    /// Shut the host down.
    pub shutdown: bool,
    /// Rumble this still-tracked gamepad.
    pub rumble_device: Option<String>,
    /// Query this gamepad's battery.
    pub check_power_device: Option<String>,
    /// The drive hardware must be commanded to stop (a disconnection was
    /// handled while a drive dispatcher was present).
    pub drive_stopped: bool,
}

impl DispatchOutcome {
    /// An outcome asking for nothing.
    pub open spec fn is_none(self) -> bool {
        &&& !self.shutdown
        &&& self.rumble_device is None
        &&& self.check_power_device is None
        &&& !self.drive_stopped
    }
}

/// Whether routing a command enqueues on the winch, so a closed winch queue
/// turns into an error.
pub open spec fn command_needs_winch(command: Command) -> bool {
    match command {
        Command::HandleGamepadDisconnection(controller_id) => true,
        Command::Drive { motor, speed } => motor == Motor::Winch,
        Command::ReleaseWinch => true,
        _ => false,
    }
}

/// Route one command: update the subsystem it addresses and report the
/// outward effects to perform. Absent subsystems are skipped; a rumble or
/// battery query for a device that is no longer tracked is silently dropped.
/// The only error is the winch queue's consumer being gone, discovered on
/// enqueue; the provider and drive updates of the same command stand.
pub fn distribute_command(
    command: Command,
    drive_dispatcher: &mut Option<DriveDispatcher>,
    winch: &mut Option<Winch>,
    controller_provider: &mut ControllerProvider,
    now_ms: u64,
) -> (r: Result<DispatchOutcome, WinchError>)
    requires
        command.wf(),
        old(controller_provider).wf(),
        (*old(drive_dispatcher)) matches Some(d) ==> d.wf(),
        (*old(winch)) matches Some(w) ==> w.wf(),
    ensures
        final(controller_provider).wf(),
        (*final(drive_dispatcher)) is Some <==> (*old(drive_dispatcher)) is Some,
        (*final(winch)) is Some <==> (*old(winch)) is Some,
        (*final(drive_dispatcher)) matches Some(d) ==> d.wf(),
        (*final(winch)) matches Some(w) ==> w.wf(),
        (*old(winch)) matches Some(w) ==> ((*final(winch)) matches Some(w2) && w2.closed == w.closed),
        r is Err <==> (command_needs_winch(command) && ((*old(winch)) matches Some(w) && w.closed)),
        // Disconnection: the device leaves the provider, its path is
        // debounced at `now_ms`, and both subsystems are stopped — exactly
        // one stop each.
        command matches Command::HandleGamepadDisconnection(controller_id) ==> {
            &&& !final(controller_provider).tracks(controller_id@)
            &&& (forall|q: Seq<char>| q != controller_id@
                ==> final(controller_provider).tracks(q)
                    == old(controller_provider).tracks(q))
            &&& (old(controller_provider).tracks(controller_id@)
                ==> debounce_at(final(controller_provider).debounce@, controller_id@)
                    == Some(now_ms))
            &&& ((*old(drive_dispatcher)) matches Some(d)
                ==> ((*final(drive_dispatcher)) matches Some(d2)
                    && d2.left_motor_speed == 0
                    && d2.right_motor_speed == 0
                    && d2.left_motor_speed_easing == d.left_motor_speed_easing.retargeted(0, 0)
                    && d2.right_motor_speed_easing == d.right_motor_speed_easing.retargeted(0, 0)))
            &&& ((*old(winch)) matches Some(w)
                ==> (!w.closed ==> ((*final(winch)) matches Some(w2)
                    && w2.pending@ == w.pending@.push(WinchCommand::Stop))))
            &&& (r matches Ok(out) ==> out.drive_stopped == ((*old(drive_dispatcher)) is Some)
                && !out.shutdown && out.rumble_device is None && out.check_power_device is None)
        },
        // Drive commands retarget exactly one trajectory, or enqueue one
        // winch command; nothing else moves.
        command matches Command::Drive { motor, speed } ==> {
            &&& (motor == Motor::Left
                ==> ((*old(drive_dispatcher)) matches Some(d)
                    ==> ((*final(drive_dispatcher)) matches Some(d2)
                        && d2 == (DriveDispatcher {
                            left_motor_speed_easing: d.left_motor_speed_easing.retargeted(
                                d.left_motor_speed,
                                speed,
                            ),
                            ..d
                        }))))
            &&& (motor == Motor::Right
                ==> ((*old(drive_dispatcher)) matches Some(d)
                    ==> ((*final(drive_dispatcher)) matches Some(d2)
                        && d2 == (DriveDispatcher {
                            right_motor_speed_easing: d.right_motor_speed_easing.retargeted(
                                d.right_motor_speed,
                                speed,
                            ),
                            ..d
                        }))))
            &&& (motor == Motor::Winch
                ==> ((*old(winch)) matches Some(w)
                    ==> (!w.closed ==> ((*final(winch)) matches Some(w2)
                        && w2.pending@ == w.pending@.push(wind_encoding(speed))))))
            &&& (motor != Motor::Winch
                ==> ((*old(winch)) matches Some(w)
                    ==> ((*final(winch)) matches Some(w2) && w2.pending@ == w.pending@)))
            &&& (motor == Motor::Winch ==> *final(drive_dispatcher) == *old(drive_dispatcher))
            &&& *final(controller_provider) == *old(controller_provider)
            &&& (r matches Ok(out) ==> out.is_none())
        },
        command is ReleaseWinch ==> {
            &&& ((*old(winch)) matches Some(w)
                ==> (!w.closed ==> ((*final(winch)) matches Some(w2)
                    && w2.pending@ == w.pending@.push(WinchCommand::Release))))
            &&& *final(drive_dispatcher) == *old(drive_dispatcher)
            &&& *final(controller_provider) == *old(controller_provider)
            &&& (r matches Ok(out) ==> out.is_none())
        },
        // Rumble goes out only while the device is still tracked; a battery
        // query is always forwarded; both leave every subsystem alone.
        command matches Command::RumbleGamepad(controller_id) ==> {
            &&& *final(drive_dispatcher) == *old(drive_dispatcher)
            &&& *final(winch) == *old(winch)
            &&& *final(controller_provider) == *old(controller_provider)
            &&& (r matches Ok(out) ==> out.rumble_device == (
                if old(controller_provider).tracks(controller_id@) {
                    Some(controller_id)
                } else {
                    None::<String>
                })
                && !out.shutdown && out.check_power_device is None && !out.drive_stopped)
        },
        command matches Command::CheckGamepadPower(controller_id) ==> {
            &&& *final(drive_dispatcher) == *old(drive_dispatcher)
            &&& *final(winch) == *old(winch)
            &&& *final(controller_provider) == *old(controller_provider)
            &&& (r matches Ok(out) ==> out.check_power_device == Some(controller_id)
                && !out.shutdown && out.rumble_device is None && !out.drive_stopped)
        },
        command is Shutdown ==> {
            &&& *final(drive_dispatcher) == *old(drive_dispatcher)
            &&& *final(winch) == *old(winch)
            &&& *final(controller_provider) == *old(controller_provider)
            &&& (r matches Ok(out) ==> out.shutdown && out.rumble_device is None
                && out.check_power_device is None && !out.drive_stopped)
        },
{
    let mut outcome = DispatchOutcome {
        shutdown: false,
        rumble_device: None,
        check_power_device: None,
        drive_stopped: false,
    };
    match command {
        Command::HandleGamepadDisconnection(controller_id) => {
            controller_provider.disconnect_controller(&controller_id, now_ms);
            match drive_dispatcher {
                Some(d) => {
                    d.stop_immediately();
                    outcome.drive_stopped = true;
                }
                None => {}
            }
            match winch {
                Some(w) => {
                    w.stop()?;
                }
                None => {}
            }
        }
        Command::Drive { motor, speed } => match motor {
            Motor::Left => {
                match drive_dispatcher {
                    Some(d) => {
                        d.set_left_motor_speed(speed);
                    }
                    None => {}
                }
            }
            Motor::Right => {
                match drive_dispatcher {
                    Some(d) => {
                        d.set_right_motor_speed(speed);
                    }
                    None => {}
                }
            }
            Motor::Winch => {
                match winch {
                    Some(w) => {
                        w.wind(speed)?;
                    }
                    None => {}
                }
            }
        },
        Command::ReleaseWinch => {
            match winch {
                Some(w) => {
                    w.release()?;
                }
                None => {}
            }
        }
        Command::CheckGamepadPower(controller_id) => {
            outcome.check_power_device = Some(controller_id);
        }
        Command::RumbleGamepad(controller_id) => {
            if controller_provider.contains_controller(&controller_id) {
                outcome.rumble_device = Some(controller_id);
            }
        }
        Command::Shutdown => {
            outcome.shutdown = true;
        }
    }
    Ok(outcome)
}

}
