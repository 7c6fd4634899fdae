//! Remote-procedure messages of the telemetry hub, and the one decision the
//! control core makes about them: how a method invocation is answered.
//!
//! The websocket transport and the JSON encoding are the binary's work; the
//! core only builds the reply values.

use vstd::prelude::*;
use crate::text::decimal_digits;
use crate::text::u64_to_string;

verus! {

/// What one hub message carries.
#[derive(Clone, Copy, Debug, PartialEq, Eq, Structural)]
pub enum NetworkMessageType {
    Text,
    MethodInvocation,
    ConnectionEvent,
}

/// One hub message: its kind and its payload, itself encoded as text.
#[derive(Debug)]
pub struct NetworkMessage {
    pub message_type: NetworkMessageType,
    pub data: String,
}

/// A remote call carried by a `MethodInvocation` message.
#[derive(Debug)]
pub struct MethodInvocationDescriptor {
    /// The name of the remote method.
    pub method_name: String,
    /// The arguments passed to the method.
    pub arguments: Option<Vec<String>>,
    /// The unique identifier of the invocation.
    pub identifier: String,
}

/// The reply to a remote call.
#[derive(Debug)]
pub struct MethodInvocationResult {
    /// The unique identifier of the invocation it answers.
    pub identifier: String,
    /// The result of the method call, as text.
    pub result: Option<String>,
    /// The remote exception of the method call.
    pub exception: Option<String>,
}

/// Answer one remote invocation: the distance-measurement method returns
/// the measured distance in decimal; any other method name is not served.
pub fn respond_to_invocation(descriptor: MethodInvocationDescriptor, measured_distance_cm: u64)
    -> (r: Option<MethodInvocationResult>)
    ensures
        r is Some <==> descriptor.method_name@ == "measure_distance"@,
        r matches Some(reply) ==> reply.identifier == descriptor.identifier
            && (reply.result matches Some(text)
                && text@ == decimal_digits(measured_distance_cm as nat))
            && reply.exception is None,
{
    let measure_distance: String = "measure_distance".to_owned();
    if descriptor.method_name == measure_distance {
        Some(MethodInvocationResult {
            identifier: descriptor.identifier,
            result: Some(u64_to_string(measured_distance_cm)),
            exception: None,
        })
    } else {
        None
    }
}

}
