use beaug::manager::TransactionResult;
use beaug::queue::{QueueError, TransactionQueue, TransactionStatus};
use beaug::transaction::PendingTransaction;

fn transfer(value: u128) -> PendingTransaction {
    PendingTransaction {
        to: [7u8; 20],
        value,
        gas_limit: 21000,
        gas_price: 1_000_000_000,
        operation_name: format!("op_{}", value),
    }
}

fn queue_of(n: u128) -> TransactionQueue {
    let mut q = TransactionQueue::new();
    let items = (1..=n)
        .map(|v| (transfer(v), format!("desc {}", v), format!("dest {}", v)))
        .collect();
    q.add_transactions(items);
    q
}

#[test]
fn added_transactions_get_sequential_ids_and_pending_status() {
    let mut q = queue_of(3);
    q.add_transactions(vec![(transfer(9), "d".to_string(), "l".to_string())]);
    let all = q.get_transactions();
    assert_eq!(all.len(), 4);
    for (i, t) in all.iter().enumerate() {
        assert_eq!(t.id, i);
        assert!(matches!(t.status, TransactionStatus::Pending));
    }
    assert_eq!(all[3].transaction.value, 9);
    assert_eq!(all[0].description, "desc 1");
    assert_eq!(all[2].destination_label, "dest 3");
    assert_eq!(q.get_delay(), 3000);
    q.clear();
    assert!(q.get_transactions().is_empty());
}

#[test]
fn update_pending_value_fails_unless_pending() {
    let mut q = queue_of(2);
    assert!(q.update_pending_transaction_value(0, 55).is_ok());
    assert_eq!(q.get_transactions()[0].transaction.value, 55);
    q.skip_transaction(1).ok().unwrap();
    assert!(matches!(q.update_pending_transaction_value(1, 77), Err(QueueError::NotPending)));
    assert_eq!(q.get_transactions()[1].transaction.value, 2);
    q.update_status(0, TransactionStatus::InProgress);
    assert!(matches!(q.update_pending_transaction_value(0, 1), Err(QueueError::NotPending)));
    assert!(matches!(q.update_pending_transaction_value(9, 1), Err(QueueError::NotFound)));
}

#[test]
fn batch_run_never_touches_a_skipped_transaction() {
    let mut q = queue_of(3);
    let ids = q.pending_ids();
    assert_eq!(ids, vec![0, 1, 2]);
    // The user skips the second one while the batch works on the first.
    let first = q.begin_batch_item(ids[0]).unwrap();
    assert_eq!(first.value, 1);
    q.skip_transaction(1).ok().unwrap();
    q.finish_execution(0, TransactionResult::Success { tx_hash: [1u8; 32], block_number: Some(5), gas_used: 21000 });
    assert!(q.begin_batch_item(ids[1]).is_none());
    assert!(matches!(q.get_transaction_status(1), Some(TransactionStatus::Skipped)));
    assert!(q.begin_batch_item(ids[2]).is_some());
    assert!(matches!(q.get_transaction_status(2), Some(TransactionStatus::InProgress)));
}

#[test]
fn execution_states() {
    let mut q = queue_of(2);
    assert!(q.begin_execution(0).is_ok());
    assert!(matches!(q.begin_execution(0), Err(QueueError::NotExecutable)));
    q.finish_execution(0, TransactionResult::Failed { error: "timeout".to_string(), retryable: true });
    assert!(q.begin_execution(0).is_ok());
    q.finish_execution(0, TransactionResult::Failed { error: "rejected".to_string(), retryable: false });
    assert!(matches!(q.begin_execution(0), Err(QueueError::NotExecutable)));
    assert!(matches!(q.skip_transaction(0), Err(QueueError::CannotSkip)));
    assert!(matches!(q.begin_execution(5), Err(QueueError::NotFound)));
    assert!(matches!(q.get_transaction_status(5), None));
    match q.get_transaction_status(0) {
        Some(TransactionStatus::Failed { error, retryable }) => {
            assert_eq!(error, "rejected");
            assert!(!retryable);
        }
        _ => panic!("expected a failure"),
    }
}

#[test]
fn statistics_count_by_status() {
    let mut q = queue_of(5);
    q.skip_transaction(4).ok().unwrap();
    q.begin_execution(0).ok().unwrap();
    q.finish_execution(0, TransactionResult::Success { tx_hash: [0u8; 32], block_number: None, gas_used: 0 });
    q.begin_execution(1).ok().unwrap();
    q.finish_execution(1, TransactionResult::Failed { error: "x".to_string(), retryable: false });
    q.begin_execution(2).ok().unwrap();
    let s = q.get_statistics();
    assert_eq!((s.total, s.pending, s.in_progress, s.success, s.failed, s.skipped), (5, 1, 1, 1, 1, 1));
    assert!(!s.is_complete());
    assert_eq!(s.summary(), "Total: 5 | Pending: 1 | Success: 1 | Failed: 1 | Skipped: 1");
    q.skip_transaction(3).ok().unwrap();
    q.finish_execution(2, TransactionResult::Success { tx_hash: [0u8; 32], block_number: None, gas_used: 0 });
    assert!(q.get_statistics().is_complete());
    assert!(TransactionQueue::new().get_statistics().is_complete());
}

#[test]
fn delay_can_be_set() {
    let mut q = TransactionQueue::with_delay(10);
    assert_eq!(q.get_delay(), 10);
    q.set_delay(250);
    assert_eq!(q.get_delay(), 250);
}

use beaug::rerandomize::{has_processed_transactions, redistribute_amounts};

#[test]
fn redistributed_amounts_add_up() {
    for _ in 0..20 {
        let v = redistribute_amounts(1_000_000, 100, 4);
        assert_eq!(v.len(), 4);
        assert!(v.iter().all(|a| *a >= 100));
        assert_eq!(v.iter().sum::<u128>(), 1_000_400);
    }
    assert_eq!(redistribute_amounts(0, 7, 3), vec![7, 7, 7]);
}

#[test]
fn rerandomize_changes_only_pending_amounts() {
    let gas_price = 10u128;
    let min = gas_price * 25_000 * 5;
    let mut q = queue_of(3);
    q.begin_execution(0).ok().unwrap();
    let before = q.get_transactions();
    assert!(!has_processed_transactions(&before));
    let source = 10 * min + 2 * gas_price * 25_000;
    assert!(q.rerandomize_pending_amounts(source, gas_price));
    let after = q.get_transactions();
    assert_eq!(after[0].transaction.value, 1);
    assert!(after[1].transaction.value >= min && after[2].transaction.value >= min);
    assert_eq!(after[1].transaction.value + after[2].transaction.value, 10 * min);
    // Too little left: nothing changes.
    assert!(!q.rerandomize_pending_amounts(min, gas_price));
    // Once something was skipped, amounts stay.
    q.skip_transaction(2).ok().unwrap();
    assert!(has_processed_transactions(&q.get_transactions()));
    assert!(!q.rerandomize_pending_amounts(source, gas_price));
}

#[test]
fn batch_pauses_between_items_but_not_after_the_last() {
    let q = TransactionQueue::with_delay(1500);
    assert_eq!(q.delay_after(0, 3), 1500);
    assert_eq!(q.delay_after(1, 3), 1500);
    assert_eq!(q.delay_after(2, 3), 0);
    assert_eq!(q.delay_after(0, 1), 0);
    assert_eq!(q.delay_after(5, 3), 0);
}
