use rover_core::power::PowerStatus;
use rover_core::power::build_device_address_map;
use rover_core::power::find_event_tokens;
use rover_core::power::parse_handlers_line;
use rover_core::power::parse_u32;
use rover_core::power::parse_uniq_line;
use rover_core::power::power_status_from_files;
use rover_core::power::str_ends_with;
use rover_core::power::str_has_prefix;
use rover_core::power::trim_str;

fn listing() -> Vec<String> {
    vec![
        "I: Bus=0005 Vendor=054c Product=09cc Version=8100".to_string(),
        "N: Name=\"Wireless Controller\"".to_string(),
        "U: Uniq=aa:bb:cc:dd:ee:ff".to_string(),
        "H: Handlers=sysrq kbd event3 js0".to_string(),
        "".to_string(),
        "U: Uniq=11:22:33:44:55:66".to_string(),
        "H: Handlers=event17 event4".to_string(),
    ]
}

#[test]
fn address_map_pairs_event_handlers_with_addresses() {
    let map = build_device_address_map(&listing());
    assert_eq!(map, vec![
        ("/dev/input/event3".to_string(), "aa:bb:cc:dd:ee:ff".to_string()),
        ("/dev/input/event17".to_string(), "11:22:33:44:55:66".to_string()),
        ("/dev/input/event4".to_string(), "11:22:33:44:55:66".to_string()),
    ]);
}

#[test]
fn handlers_before_any_address_contribute_nothing() {
    let lines = vec!["H: Handlers=kbd event2".to_string()];
    assert_eq!(build_device_address_map(&lines), vec![]);
}

#[test]
fn event_zero_is_not_a_device_token() {
    let tokens = find_event_tokens("kbd event0 event10 js0");
    assert_eq!(tokens, vec!["event10".to_string()]);
}

#[test]
fn event_tokens_take_every_following_digit() {
    let tokens = find_event_tokens("event3 mouse1 event256");
    assert_eq!(tokens, vec!["event3".to_string(), "event256".to_string()]);
}

#[test]
fn uniq_line_requires_address_characters() {
    assert_eq!(parse_uniq_line("U: Uniq=aa:bb"), Some("aa:bb".to_string()));
    assert_eq!(parse_uniq_line("U: Uniq="), None);
    assert_eq!(parse_uniq_line("U: Uniq=aa bb"), None);
    assert_eq!(parse_uniq_line("S: Sysfs=/devices"), None);
}

#[test]
fn handlers_line_requires_handler_characters() {
    assert_eq!(
        parse_handlers_line("H: Handlers=kbd event3"),
        Some("kbd event3".to_string()),
    );
    assert_eq!(parse_handlers_line("H: Handlers="), None);
    assert_eq!(parse_handlers_line("U: Uniq=aa"), None);
}

#[test]
fn prefix_and_suffix_checks() {
    assert!(str_has_prefix("/sys/class/power_supply/sony", "/sys"));
    assert!(!str_has_prefix("/sys", "/system"));
    assert!(str_ends_with("/sys/class/power_supply/sony-aa:bb", "aa:bb"));
    assert!(!str_ends_with("/sys/class/power_supply/sony-aa:bb", "cc:dd"));
    assert!(str_ends_with("anything", ""));
}

#[test]
fn trimming_strips_blank_margins() {
    assert_eq!(trim_str("  85\n"), "85");
    assert_eq!(trim_str("\t Discharging \r\n"), "Discharging");
    assert_eq!(trim_str("   "), "");
    assert_eq!(trim_str("solid"), "solid");
}

#[test]
fn decimal_parsing_is_exact() {
    assert_eq!(parse_u32("85"), Some(85));
    assert_eq!(parse_u32("0"), Some(0));
    assert_eq!(parse_u32("4294967295"), Some(u32::MAX));
    assert_eq!(parse_u32("4294967296"), None);
    assert_eq!(parse_u32(""), None);
    assert_eq!(parse_u32("8 5"), None);
    assert_eq!(parse_u32("-5"), None);
}

#[test]
fn power_status_assembles_from_attribute_files() {
    let status = power_status_from_files(" 85\n", "Discharging\n", "Battery\n").unwrap();
    let PowerStatus { capacity, status, device_type } = status;
    assert_eq!(capacity, 85);
    assert_eq!(status, "Discharging");
    assert_eq!(device_type, "Battery");
    assert!(power_status_from_files("n/a\n", "Full\n", "Mains\n").is_none());
}
