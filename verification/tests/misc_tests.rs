use rover_core::error::PropulsionError;
use rover_core::error::StringError;
use rover_core::error::WinchError;
use rover_core::network::MethodInvocationDescriptor;
use rover_core::network::NetworkMessage;
use rover_core::network::NetworkMessageType;
use rover_core::network::respond_to_invocation;
use rover_core::sonar::Pulse;
use rover_core::sonar::distance_from_pulse_us;
use rover_core::text::u64_to_string;

#[test]
fn errors_carry_their_messages() {
    assert_eq!(StringError::new("boom").details, "boom");
    assert_eq!(PropulsionError::new("pin lost").0, "pin lost");
    assert_eq!(WinchError::new("queue closed").0, "queue closed");
}

#[test]
fn decimal_rendering_matches() {
    assert_eq!(u64_to_string(0), "0");
    assert_eq!(u64_to_string(7), "7");
    assert_eq!(u64_to_string(42), "42");
    assert_eq!(u64_to_string(1000), "1000");
    assert_eq!(u64_to_string(18446744073709551615), "18446744073709551615");
}

#[test]
fn distance_measurement_method_is_answered() {
    let descriptor = MethodInvocationDescriptor {
        method_name: "measure_distance".to_string(),
        arguments: None,
        identifier: "b2c3".to_string(),
    };
    let reply = respond_to_invocation(descriptor, 42).unwrap();
    assert_eq!(reply.identifier, "b2c3");
    assert_eq!(reply.result, Some("42".to_string()));
    assert_eq!(reply.exception, None);
}

#[test]
fn unknown_methods_are_not_served() {
    let descriptor = MethodInvocationDescriptor {
        method_name: "do_math".to_string(),
        arguments: Some(vec!["4".to_string(), "3".to_string()]),
        identifier: "x".to_string(),
    };
    assert!(respond_to_invocation(descriptor, 42).is_none());
}

#[test]
fn network_message_kinds_are_distinct() {
    let message = NetworkMessage {
        message_type: NetworkMessageType::MethodInvocation,
        data: "{}".to_string(),
    };
    assert_eq!(message.message_type, NetworkMessageType::MethodInvocation);
    assert_ne!(NetworkMessageType::Text, NetworkMessageType::ConnectionEvent);
}

#[test]
fn pulse_length_needs_both_edges() {
    assert_eq!(Pulse::empty().length(), None);
    let pulse = Pulse { start: Some(1000), end: Some(59310) };
    assert_eq!(pulse.length(), Some(58310));
    // An inverted pulse saturates to zero rather than failing.
    let inverted = Pulse { start: Some(2000), end: Some(1000) };
    assert_eq!(inverted.length(), Some(0));
    let half = Pulse { start: Some(1000), end: None };
    assert_eq!(half.length(), None);
}

#[test]
fn echo_time_maps_to_centimeters() {
    assert_eq!(distance_from_pulse_us(0), 0);
    // 58310 us of round trip is a meter away.
    assert_eq!(distance_from_pulse_us(58310), 1000);
    assert_eq!(distance_from_pulse_us(1000000), 17150);
}
