use ingen_drm::audit::{audit_line, is_critical_line, Watchdog, WatchdogVerdict};
use ingen_drm::hex::hex_encode;

#[test]
fn hex_encode_empty_is_empty() {
    assert_eq!(hex_encode(&[]), "");
}

#[test]
fn hex_encode_two_lower_case_digits_per_byte() {
    assert_eq!(hex_encode(&[0x00, 0xff, 0x1a, 0x09, 0xa0]), "00ff1a09a0");
}

#[test]
fn hex_encode_every_byte_value() {
    let all: Vec<u8> = (0u8..=255).collect();
    let expected: String = all.iter().map(|b| format!("{:02x}", b)).collect();
    assert_eq!(hex_encode(&all), expected);
}

#[test]
fn audit_line_layout() {
    assert_eq!(
        audit_line(1700000000123, "AUTH", "License verified"),
        "[1700000000123] [AUTH] License verified"
    );
}

#[test]
fn audit_line_zero_timestamp_and_empty_message() {
    assert_eq!(audit_line(0, "WATCHDOG", ""), "[0] [WATCHDOG] ");
}

#[test]
fn audit_line_largest_timestamp() {
    assert_eq!(
        audit_line(u128::MAX, "X", "y"),
        format!("[{}] [X] y", u128::MAX)
    );
}

#[test]
fn critical_lines_are_recognised() {
    assert!(is_critical_line("[12] [CRITICAL] Memory Tamper Detected"));
    assert!(is_critical_line("[CRITICAL]"));
    assert!(is_critical_line(&audit_line(5, "CRITICAL", "Auth Failed")));
}

#[test]
fn other_lines_are_not_critical() {
    assert!(!is_critical_line(""));
    assert!(!is_critical_line("[12] [WATCHDOG] Integrity check #1 passed."));
    assert!(!is_critical_line("[CRITICAL"));
    assert!(!is_critical_line("[critical]"));
}

#[test]
fn watchdog_counts_passed_checks() {
    let mut w = Watchdog::new();
    assert_eq!(w.tick(false), WatchdogVerdict::CheckPassed(1));
    assert_eq!(w.tick(false), WatchdogVerdict::CheckPassed(2));
    assert_eq!(w.tick(false), WatchdogVerdict::CheckPassed(3));
}

#[test]
fn watchdog_reports_tampering() {
    let mut w = Watchdog::new();
    assert_eq!(w.tick(false), WatchdogVerdict::CheckPassed(1));
    assert_eq!(w.tick(true), WatchdogVerdict::TamperDetected);
}

#[test]
fn hex_encode_of_concatenation_is_concatenation() {
    let a = [0x12u8, 0xab];
    let b = [0x00u8, 0xff, 0x7e];
    let ab: Vec<u8> = [&a[..], &b[..]].concat();
    assert_eq!(hex_encode(&ab), hex_encode(&a) + &hex_encode(&b));
}

#[test]
fn hex_encode_tells_inputs_apart() {
    assert_ne!(hex_encode(&[0x01, 0x23]), hex_encode(&[0x12, 0x03]));
    assert_ne!(hex_encode(&[0x0a]), hex_encode(&[0xa0]));
}
