use beaug::device_errors::{
    is_disconnected_error, is_locked_error, is_retryable_error, is_transient_error, LedgerStatus,
};

#[test]
fn test_is_transient_error() {
    assert!(is_transient_error("Overlapped I/O operation is in progress"));
    assert!(is_transient_error("overlapped io operation"));
    assert!(is_transient_error("Device is busy"));
    assert!(is_transient_error("BUSY"));
    assert!(is_transient_error("transport error occurred"));
    assert!(is_transient_error("i/o error during communication"));
    assert!(is_transient_error("io error"));
    assert!(is_transient_error("hidapi timeout error"));
    assert!(!is_transient_error("device not found"));
    assert!(!is_transient_error("hidapi: no device found"));
    assert!(!is_transient_error("locked"));
    assert!(!is_transient_error("denied"));
}

#[test]
fn test_is_locked_error() {
    assert!(is_locked_error("Device is locked"));
    assert!(is_locked_error("Error 6983"));
    assert!(is_locked_error("Error 6985"));
    assert!(is_locked_error("Request denied"));
    assert!(is_locked_error("App not open"));
    assert!(!is_locked_error("device not found"));
    assert!(!is_locked_error("busy"));
}

#[test]
fn test_is_disconnected_error() {
    assert!(is_disconnected_error("Device not found"));
    assert!(is_disconnected_error("No device connected"));
    assert!(is_disconnected_error("hidapi: no device found"));
    assert!(is_disconnected_error("hidapi: device not found"));
    assert!(is_disconnected_error("Ledger not connected"));
    assert!(!is_disconnected_error("locked"));
    assert!(!is_disconnected_error("busy"));
    assert!(!is_disconnected_error("denied"));
}

#[test]
fn rejection_and_denial_are_never_retryable() {
    assert!(!is_retryable_error("Transaction rejected by user"));
    assert!(!is_retryable_error("request denied on device"));
    assert!(!is_retryable_error("Denied"));
    assert!(!is_retryable_error("timeout while waiting: rejected"));
}

#[test]
fn device_state_errors_are_not_retryable() {
    assert!(!is_retryable_error("Device is locked"));
    assert!(!is_retryable_error("APDU error 6985"));
    assert!(!is_retryable_error("hidapi: no device found"));
    assert!(!is_retryable_error("Ledger not connected"));
}

#[test]
fn transient_and_unknown_errors_are_retryable() {
    assert!(is_retryable_error("request timeout"));
    assert!(is_retryable_error("network unreachable"));
    assert!(is_retryable_error("rate limit exceeded"));
    assert!(is_retryable_error("Overlapped I/O operation is in progress"));
    assert!(is_retryable_error("something odd happened"));
}

#[test]
fn ledger_status_predicates_and_text() {
    let mut address = [0u8; 20];
    address[0] = 0xab;
    address[1] = 0xcd;
    address[2] = 0x01;
    address[18] = 0x12;
    address[19] = 0xf0;
    let connected = LedgerStatus::Connected { address };
    assert!(connected.is_ready() && connected.is_usable() && !connected.has_problem());
    assert_eq!(connected.display_text(), "\u{1f7e2} Connected: 0xabcd01...12f0");
    assert!(LedgerStatus::Checking.is_usable() && !LedgerStatus::Checking.is_ready());
    assert!(LedgerStatus::Locked.has_problem());
    assert_eq!(LedgerStatus::Disconnected.display_text(), "\u{1f534} Not Connected");
    assert_eq!(LedgerStatus::Unknown("odd".to_string()).display_text(), "\u{26aa} odd");
    assert_eq!(LedgerStatus::Locked.color(), (255, 193, 7));
}

use beaug::device_errors::{
    cast_attempt_decision, classify_device_error, ledger_error_message_lowered, map_ledger_error,
    native_attempt_decision, status_from_cast_error, status_from_native_error, DeviceAttempt,
};

#[test]
fn ledger_errors_map_to_user_messages() {
    assert_eq!(
        map_ledger_error("HIDAPI error: no device"),
        "Ledger device not found. Please ensure it's connected and unlocked."
    );
    assert_eq!(map_ledger_error("APDU 0x6985"), "Ledger is locked or Ethereum app is not open.");
    assert_eq!(map_ledger_error("User REJECTED"), "Transaction was rejected on the Ledger device.");
    assert_eq!(map_ledger_error("Timeout"), "Ledger operation timed out. Please try again.");
    assert_eq!(map_ledger_error("device BUSY"), "Ledger device is busy. Please wait and try again.");
    assert_eq!(map_ledger_error("Strange Thing"), "Ledger error: Strange Thing");
    assert_eq!(ledger_error_message_lowered("strange thing", "Strange Thing"), "Ledger error: Strange Thing");
}

#[test]
fn native_device_retries() {
    let busy = classify_device_error("Device BUSY");
    assert!(busy.transient && !busy.locked && !busy.disconnected);
    assert!(matches!(native_attempt_decision(2, false, busy, "m".to_string()), DeviceAttempt::RetryAfter(600)));
    let busy = classify_device_error("Device BUSY");
    assert!(matches!(native_attempt_decision(5, false, busy, "m".to_string()), DeviceAttempt::Fail(_)));
    let odd = classify_device_error("weird");
    assert!(matches!(native_attempt_decision(1, true, odd, "m".to_string()), DeviceAttempt::RetryAfter(300)));
    let odd = classify_device_error("weird");
    assert!(matches!(native_attempt_decision(1, false, odd, "m".to_string()), DeviceAttempt::Fail(_)));
    let locked = classify_device_error("Device is LOCKED");
    match native_attempt_decision(1, true, locked, "locked!".to_string()) {
        DeviceAttempt::Fail(m) => assert_eq!(m, "locked!"),
        _ => panic!("a locked device is not retried"),
    }
}

#[test]
fn cast_device_retries() {
    match cast_attempt_decision(1, "error 6983") {
        DeviceAttempt::Fail(m) => assert_eq!(m, "Ledger is locked or Ethereum app is not open."),
        _ => panic!(),
    }
    match cast_attempt_decision(1, "DeviceNotFound") {
        DeviceAttempt::Fail(m) => assert_eq!(m, "Ledger device not found. Please ensure it's connected and unlocked."),
        _ => panic!(),
    }
    assert!(matches!(
        cast_attempt_decision(3, "Overlapped I/O operation is in progress"),
        DeviceAttempt::RetryAfter(900)
    ));
    match cast_attempt_decision(5, "Overlapped I/O operation is in progress") {
        DeviceAttempt::Fail(m) => assert_eq!(m, "Ledger error: Overlapped I/O operation is in progress"),
        _ => panic!(),
    }
}

#[test]
fn device_status_from_errors() {
    assert!(matches!(status_from_cast_error("Denied by app"), LedgerStatus::Locked));
    assert!(matches!(status_from_cast_error("No device found"), LedgerStatus::Disconnected));
    match status_from_cast_error("0123456789012345678901234567890123456789-extra") {
        LedgerStatus::Unknown(m) => assert_eq!(m, "0123456789012345678901234567890123456789"),
        _ => panic!(),
    }
    assert!(matches!(status_from_native_error("Device LOCKED"), LedgerStatus::Locked));
    assert!(matches!(status_from_native_error("No Device"), LedgerStatus::Disconnected));
    match status_from_native_error("short") {
        LedgerStatus::Unknown(m) => assert_eq!(m, "short"),
        _ => panic!(),
    }
}
