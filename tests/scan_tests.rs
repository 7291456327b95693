use beaug::scan::{ConsecutiveEmptyScan, FundedScan};

fn addr(i: u32) -> [u8; 20] {
    let mut a = [0u8; 20];
    a[19] = i as u8;
    a
}

fn run_streak_scan(start: u32, target: u32, balances: &[u128]) -> ConsecutiveEmptyScan {
    let mut scan = ConsecutiveEmptyScan::new(start, target);
    let mut k = 0;
    while scan.wants_next() && k < balances.len() {
        let i = scan.next_index;
        scan.record(addr(i), balances[k], format!("path {}", i));
        k += 1;
    }
    scan
}

#[test]
fn streak_scan_resets_on_funded_accounts() {
    let scan = run_streak_scan(3, 2, &[5, 0, 7, 0, 0, 1]);
    let result = scan.finish();
    assert_eq!(result.records.len(), 5);
    assert_eq!(result.empty_addresses, vec![(6, addr(6)), (7, addr(7))]);
    assert_eq!(result.last_scanned_index, 7);
    assert!(result.met_target);
    assert!(!result.cancelled);
    assert_eq!(
        result.summary(),
        "Found 2 consecutive empty addresses (target met). Scanned up to index 7."
    );
}

#[test]
fn streak_scan_cancel_keeps_records() {
    let mut scan = run_streak_scan(0, 3, &[0, 4]);
    scan.cancel();
    assert!(!scan.wants_next());
    let result = scan.finish();
    assert_eq!(result.records.len(), 2);
    assert!(result.empty_addresses.is_empty());
    assert!(result.cancelled && !result.met_target);
    assert_eq!(result.summary(), "Scan cancelled.");
    let lines = result.formatted_records();
    assert_eq!(lines[1], "path 1: 0x0000000000000000000000000000000000000001 - 0.000000000000000004 ETH");
}

#[test]
fn streak_scan_before_any_record() {
    let scan = ConsecutiveEmptyScan::new(0, 0);
    assert!(!scan.wants_next());
    let result = scan.finish();
    assert_eq!(result.last_scanned_index, 0);
    assert!(result.met_target);
    assert_eq!(ConsecutiveEmptyScan::new(10, 1).last_scanned_index, 9);
    let partial = run_streak_scan(4, 3, &[0, 0]).finish();
    assert_eq!(partial.summary(), "Found 2 consecutive empty addresses. Scanned up to index 5.");
}

#[test]
fn funded_scan_is_bounded_by_its_window() {
    let mut scan = FundedScan::new(10, 100);
    let mut n = 0;
    while scan.wants_next() {
        let i = scan.next_index;
        scan.record(addr(i), if i % 2 == 0 { 1 } else { 0 }, String::new());
        n += 1;
    }
    assert_eq!(n, 50);
    let result = scan.finish();
    assert_eq!(result.funded.len(), 25);
    assert_eq!(result.empty.len(), 25);
    assert_eq!(result.funded[0].index, 10);
}

#[test]
fn funded_scan_stops_on_streak_or_stop() {
    let mut scan = FundedScan::new(0, 2);
    for b in [3u128, 0, 0] {
        assert!(scan.wants_next());
        let i = scan.next_index;
        scan.record(addr(i), b, String::new());
    }
    assert!(!scan.wants_next());
    let mut other = FundedScan::new(0, 2);
    other.stop();
    assert!(!other.wants_next());
    assert_eq!(FundedScan::new(u32::MAX - 10, 1).scan_limit, u32::MAX);
}
