use beaug::manager::{
    backoff_delay_ms, batch_delay_before, confirmation_poll_limit, confirmed_result,
    on_send_failure, NonceTracker, RetryDecision, TransactionManagerConfig, TransactionResult,
};

#[test]
fn sequential_nonces_start_at_the_chain_count() {
    let mut tracker = NonceTracker::new();
    let c = 17u64;
    let got: Vec<u64> = (0..5).map(|_| tracker.get_next_nonce(c).unwrap()).collect();
    assert_eq!(got, vec![17, 18, 19, 20, 21]);
}

#[test]
fn nonces_follow_outside_transactions_and_never_go_back() {
    let mut tracker = NonceTracker::new();
    assert_eq!(tracker.refresh_nonce(3), 3);
    assert_eq!(tracker.get_next_nonce(3), Some(3));
    assert_eq!(tracker.get_next_nonce(9), Some(9));
    assert_eq!(tracker.get_next_nonce(2), Some(10));
    assert_eq!(tracker.get_next_nonce(u64::MAX), None);
    assert_eq!(tracker.get_next_nonce(0), Some(11));
}

#[test]
fn denied_is_final_even_with_retries_left() {
    match on_send_failure(1, 5, 2000, "Request denied by user".to_string()) {
        RetryDecision::GiveUp(TransactionResult::Failed { error, retryable }) => {
            assert_eq!(error, "Request denied by user");
            assert!(!retryable);
        }
        _ => panic!("a denial must not be retried"),
    }
    assert!(matches!(
        on_send_failure(1, 5, 2000, "tx rejected".to_string()),
        RetryDecision::GiveUp(TransactionResult::Failed { retryable: false, .. })
    ));
}

#[test]
fn retryable_errors_back_off_exponentially_until_attempts_run_out() {
    assert!(matches!(on_send_failure(1, 2, 2000, "timeout".to_string()), RetryDecision::RetryAfter(2000)));
    assert!(matches!(on_send_failure(2, 2, 2000, "timeout".to_string()), RetryDecision::RetryAfter(4000)));
    assert!(matches!(
        on_send_failure(3, 2, 2000, "timeout".to_string()),
        RetryDecision::GiveUp(TransactionResult::Failed { retryable: true, .. })
    ));
    assert_eq!(backoff_delay_ms(300, 4), 2400);
    assert_eq!(backoff_delay_ms(u64::MAX / 2, 3), u64::MAX);
}

#[test]
fn broadcast_counts_as_success_without_a_receipt() {
    let hash = [9u8; 32];
    assert!(matches!(
        confirmed_result(hash, Some((Some(12), 21000))),
        TransactionResult::Success { block_number: Some(12), gas_used: 21000, .. }
    ));
    assert!(matches!(
        confirmed_result(hash, None),
        TransactionResult::Success { block_number: None, gas_used: 0, .. }
    ));
    assert_eq!(confirmation_poll_limit(90), 180);
    assert_eq!(confirmation_poll_limit(u64::MAX), u64::MAX);
}

#[test]
fn batch_pauses_between_transactions_only() {
    assert_eq!(batch_delay_before(0, 3000), 0);
    assert_eq!(batch_delay_before(1, 3000), 3500);
    assert_eq!(batch_delay_before(4, u64::MAX), u64::MAX);
}

#[test]
fn manager_config_defaults() {
    let c = TransactionManagerConfig::default();
    assert_eq!(c.inter_transaction_delay_ms, 3000);
    assert_eq!(c.max_retries, 2);
    assert_eq!(c.retry_delay_ms, 2000);
    assert!(c.wait_for_confirmation);
    assert_eq!(c.confirmation_timeout_secs, 90);
    assert_eq!(c.coin_type, 60);
}

#[test]
fn a_refresh_never_moves_the_nonce_back() {
    let mut tracker = NonceTracker::new();
    assert_eq!(tracker.get_next_nonce(5), Some(5));
    assert_eq!(tracker.get_next_nonce(5), Some(6));
    assert_eq!(tracker.get_next_nonce(6), Some(7));
    // Earlier transactions are still pending: the chain reports fewer.
    assert_eq!(tracker.refresh_nonce(4), 4);
    assert_eq!(tracker.get_next_nonce(4), Some(8));
    // Transactions sent from elsewhere move it forward.
    assert_eq!(tracker.refresh_nonce(20), 20);
    assert_eq!(tracker.get_next_nonce(20), Some(20));
}
