use beaug::receivers::{parse_recipient_addresses, PreFoundStep, ReceiverSearch};
use beaug::split::{
    indexed_name, plan_split, prepare_equal_transactions, prepare_random_transactions,
    random_split_step, random_step_bounds, split_fees, RandomStep, SplitError, SplitMode,
};
use beaug::types::AccountInfo;

const ETH: u128 = 1_000_000_000_000_000_000;

fn account(index: u32, balance: u128, nonce: u64) -> AccountInfo {
    let mut address = [0u8; 20];
    address[19] = index as u8;
    AccountInfo {
        index,
        address,
        balance,
        nonce,
        derivation_path: format!("m/44'/60'/{}'/0/0", index),
    }
}

fn accounts(n: u32) -> Vec<AccountInfo> {
    (1..=n).map(|i| account(i, 0, 0)).collect()
}

#[test]
fn equal_split_example_one_eth_three_recipients() {
    let fee = ETH / 10_000; // 0.0001 ETH
    let txs = prepare_equal_transactions(&accounts(3), ETH, 5 * fee, fee, 21000, 1, "SplitFundsEqual", 0)
        .ok()
        .unwrap();
    let distributable = ETH - 3 * fee;
    assert_eq!(distributable, 999_700_000_000_000_000);
    let share = distributable / 3;
    assert_eq!(share, 333_233_333_333_333_333);
    assert_eq!(txs.len(), 3);
    for (i, tx) in txs.iter().enumerate() {
        assert_eq!(tx.value, share);
        assert_eq!(tx.operation_name, format!("SplitFundsEqual_equal_{}", i));
    }
    let spent: u128 = txs.iter().map(|t| t.value + fee).sum();
    assert_eq!(ETH - spent, 1); // the remainder stays on the source
}

#[test]
fn equal_split_amounts_identical_and_within_balance() {
    let fee = 21_000 * 3_000_000_000u128;
    let source = 7 * ETH / 3 + 17;
    let keep = ETH / 7;
    let txs = prepare_equal_transactions(&accounts(7), source, 5 * fee, fee, 21000, 3_000_000_000, "op", keep)
        .ok()
        .unwrap();
    assert!(txs.iter().all(|t| t.value == txs[0].value));
    let spent: u128 = txs.iter().map(|t| t.value + fee).sum();
    assert!(spent + keep <= source);
    assert!(source - spent - keep < 7);
}

#[test]
fn equal_split_errors() {
    let fee = ETH / 10_000;
    assert!(matches!(
        prepare_equal_transactions(&accounts(0), ETH, fee, fee, 21000, 1, "op", 0),
        Err(SplitError::NoRecipients)
    ));
    assert!(matches!(
        prepare_equal_transactions(&accounts(3), 3 * fee, fee, fee, 21000, 1, "op", 0),
        Err(SplitError::BalanceTooLowForEqualSplit)
    ));
    match prepare_equal_transactions(&accounts(3), 3 * fee + 30, 11, fee, 21000, 1, "op", 0) {
        Err(SplitError::ShareBelowMinimum { share, minimum }) => {
            assert_eq!(share, 10);
            assert_eq!(minimum, 11);
        }
        _ => panic!("expected a share below the minimum"),
    }
}

#[test]
fn random_split_example_two_recipients() {
    let fee = ETH / 10_000; // 0.0001 ETH
    let min = 5 * ETH / 10_000; // 0.0005 ETH
    let source = ETH / 2;
    let keep = ETH / 10;
    for _ in 0..50 {
        let txs = prepare_random_transactions(&accounts(2), source, min, fee, 21000, 1, "SplitFundsRandom", keep);
        assert_eq!(txs.len(), 2);
        let max_for_first = (source - keep - 2 * fee) / 2;
        assert_eq!(max_for_first, 199_900_000_000_000_000);
        assert!(txs[0].value >= min && txs[0].value < max_for_first);
        let after_first = source - txs[0].value - fee;
        assert_eq!(txs[1].value, after_first - keep - fee);
        assert_eq!(txs[0].operation_name, "SplitFundsRandom_to_1");
        assert_eq!(txs[1].operation_name, "SplitFundsRandom_to_2");
        let spent: u128 = txs.iter().map(|t| t.value + fee).sum();
        assert_eq!(spent + keep, source);
    }
}

#[test]
fn random_split_stops_early_when_balance_runs_out() {
    let fee = 10u128;
    let min = 100u128;
    // Enough for one minimum transfer per recipient only while few are left.
    let txs = prepare_random_transactions(&accounts(5), 300, min, fee, 21000, 1, "op", 0);
    assert!(txs.is_empty());
    let txs = prepare_random_transactions(&accounts(1), 300, min, fee, 21000, 1, "op", 0);
    assert_eq!(txs.len(), 1);
    assert_eq!(txs[0].value, 290);
}

#[test]
fn random_step_is_exact_for_a_draw() {
    // 1000 on the source, 2 recipients, fee 10, minimum 100, keep 50:
    // share = (1000 - 50 - 20) / 2 = 465, span = 365.
    assert_eq!(random_step_bounds(1000, 2, 100, 10, 50), Some((100, 365)));
    assert!(matches!(random_split_step(1000, 2, 100, 10, 50, 7), RandomStep::Send(107)));
    assert!(matches!(random_split_step(1000, 2, 100, 10, 50, 365 + 7), RandomStep::Send(107)));
    assert!(matches!(random_split_step(1000, 1, 100, 10, 50, 7), RandomStep::Send(940)));
    assert!(matches!(random_split_step(160, 1, 100, 10, 50, 0), RandomStep::Stop));
    assert_eq!(random_step_bounds(u128::MAX, 3, 1, u128::MAX, 0), None);
}

#[test]
fn fees_scale_with_speed() {
    let f = split_fees(10_000_000_000, 150).unwrap();
    assert_eq!(f.effective_gas_price, 15_000_000_000);
    assert_eq!(f.tx_fee, 15_000_000_000 * 21_000);
    assert_eq!(f.min_transfer_amount, 10_000_000_000 * 21_000 * 5);
    assert!(split_fees(u128::MAX, 200).is_none());
}

#[test]
fn plan_split_equal_labels_each_transfer() {
    let gas_price = 1_000_000_000u128; // 1 gwei, fee 0.000021 ETH
    let list = plan_split(SplitMode::Equal, &accounts(3), 2, ETH, gas_price, 100, 0).ok().unwrap();
    assert_eq!(list.len(), 2);
    let share = (ETH - 2 * 21_000 * gas_price) / 2;
    assert_eq!(list[0].0.value, share);
    assert_eq!(list[0].1, format!("SplitFundsEqual #1: {} ETH", "0.499979000000000000"));
    assert_eq!(list[1].1, "SplitFundsEqual #2: 0.499979000000000000 ETH");
    assert_eq!(
        list[0].2,
        "m/44'/60'/1'/0/0 \u{2192} 0x0000000000000000000000000000000000000001"
    );
}

#[test]
fn plan_split_rejections() {
    let gas_price = 1_000_000_000u128;
    assert!(matches!(
        plan_split(SplitMode::Equal, &accounts(1), 2, ETH, gas_price, 100, 0),
        Err(SplitError::NotEnoughRecipients { found: 1, needed: 2 })
    ));
    assert!(matches!(
        plan_split(SplitMode::Random, &accounts(2), 2, ETH, gas_price, 100, ETH),
        Err(SplitError::RemainingBalanceTooHigh { .. })
    ));
    assert!(matches!(
        plan_split(SplitMode::Random, &accounts(2), 2, 100_000, gas_price, 100, 0),
        Err(SplitError::BalanceTooLow { .. })
    ));
    assert!(matches!(
        plan_split(SplitMode::Random, &accounts(2), 0, ETH, gas_price, 100, 0),
        Err(SplitError::NoValidTransactions)
    ));
    assert!(matches!(
        plan_split(SplitMode::Equal, &accounts(2), 2, ETH, u128::MAX, 100, 0),
        Err(SplitError::AmountOverflow)
    ));
}

#[test]
fn plan_split_random_never_overspends() {
    let gas_price = 2_000_000_000u128;
    let keep = ETH / 4;
    let list = plan_split(SplitMode::Random, &accounts(6), 6, ETH, gas_price, 120, keep).ok().unwrap();
    assert_eq!(list.len(), 6);
    let fee = (gas_price * 120 / 100) * 21_000;
    let spent: u128 = list.iter().map(|e| e.0.value + fee).sum();
    assert_eq!(spent + keep, ETH);
    assert!(list.iter().all(|e| e.0.value >= gas_price * 105_000));
}

#[test]
fn names_carry_the_index() {
    assert_eq!(indexed_name("SplitFundsRandom", "_to_", 42), "SplitFundsRandom_to_42");
}

#[test]
fn recipient_addresses_parse_or_name_the_bad_one() {
    let good = "0x0000000000000000000000000000000000000001".to_string();
    let parsed = parse_recipient_addresses(&vec![good.clone()]).ok().unwrap();
    assert_eq!(parsed[0][19], 1);
    match parse_recipient_addresses(&vec![good, "0xzz".to_string()]) {
        Err(SplitError::InvalidAddress { address }) => assert_eq!(address, "0xzz"),
        _ => panic!("expected an invalid address"),
    }
}

#[test]
fn receiver_search_skips_source_and_checked_indices() {
    let mut search = ReceiverSearch::new(2, 2, 0);
    assert!(matches!(search.consider_pre_found(1), PreFoundStep::Check));
    assert!(search.offer(account(1, 0, 0)));
    assert!(matches!(search.consider_pre_found(2), PreFoundStep::Skip));
    assert!(matches!(search.consider_pre_found(3), PreFoundStep::Check));
    assert!(!search.offer(account(3, 5, 0)));
    assert!(matches!(search.consider_pre_found(4), PreFoundStep::Check));
    assert!(!search.offer(account(4, 0, 1)));
    assert_eq!(search.next_scan_index(), Some(0));
    assert_eq!(search.next_scan_index(), Some(5));
    assert!(search.offer(account(5, 0, 0)));
    assert!(search.has_enough());
    assert_eq!(search.next_scan_index(), None);
    assert!(matches!(search.consider_pre_found(9), PreFoundStep::Stop));
    let found: Vec<u32> = search.into_receivers().iter().map(|a| a.index).collect();
    assert_eq!(found, vec![1, 5]);
}

#[test]
fn receiver_search_takes_only_the_awaited_index() {
    let mut search = ReceiverSearch::new(0, 3, 10);
    // Nothing awaits yet: an empty account is still refused.
    assert!(!search.offer(account(7, 0, 0)));
    assert_eq!(search.next_scan_index(), Some(10));
    // An account at another index is refused.
    assert!(!search.offer(account(11, 0, 0)));
    assert_eq!(search.next_scan_index(), Some(11));
    assert!(search.offer(account(11, 0, 0)));
    // The same index is not taken twice.
    assert!(!search.offer(account(11, 0, 0)));
    assert!(matches!(search.consider_pre_found(11), PreFoundStep::Skip));
    assert!(matches!(search.consider_pre_found(3), PreFoundStep::Check));
    assert!(matches!(search.consider_pre_found(3), PreFoundStep::Skip));
    assert!(!search.offer(account(3, 0, 0)));
    assert_eq!(search.receivers().len(), 1);
    assert_eq!(search.receivers()[0].index, 11);
}

#[test]
fn receiver_search_window_is_bounded() {
    let mut search = ReceiverSearch::new(1000, 1, u32::MAX - 1);
    assert_eq!(search.scan_end(), u32::MAX);
    assert_eq!(search.next_scan_index(), Some(u32::MAX - 1));
    assert_eq!(search.next_scan_index(), None);
    let mut search = ReceiverSearch::new(0, 1, 10);
    let mut seen = 0;
    while search.next_scan_index().is_some() {
        seen += 1;
    }
    assert_eq!(seen, 200);
}
