use beaug::bulk_input::BulkDisperseType;
use beaug::bulk_plan::{plan_bulk_disperse, BulkPlanError};

fn addr(i: u8) -> [u8; 20] {
    let mut a = [0u8; 20];
    a[19] = i;
    a
}

const ETH: u128 = 1_000_000_000_000_000_000;

#[test]
fn equal_bulk_shares_the_amount_and_appends_the_tip() {
    let dt = BulkDisperseType::Equal(vec![addr(1), addr(2), addr(3)]);
    let plan = plan_bulk_disperse(&dt, ETH, ETH / 100, Some(addr(9)), 2 * ETH, 1_000_000_000, 100).ok().unwrap();
    assert_eq!(plan.recipients, vec![addr(1), addr(2), addr(3), addr(9)]);
    let share = ETH / 3;
    assert_eq!(plan.amounts, vec![share, share, share, ETH / 100]);
    assert_eq!(plan.total_value, 3 * share + ETH / 100);
    // Four recipients: (150k + 480k) * 1.1.
    assert_eq!(plan.gas_limit, 693_000);
    assert_eq!(plan.gas_price, 1_000_000_000);
}

#[test]
fn mixed_bulk_keeps_listed_amounts() {
    let dt = BulkDisperseType::Mixed(vec![(addr(1), 5), (addr(2), 7)]);
    let plan = plan_bulk_disperse(&dt, 12, 0, None, ETH, 10, 150).ok().unwrap();
    assert_eq!(plan.amounts, vec![5, 7]);
    assert_eq!(plan.total_value, 12);
    assert_eq!(plan.gas_price, 15);
    assert!(matches!(
        plan_bulk_disperse(&dt, 11, 0, None, ETH, 10, 100),
        Err(BulkPlanError::AmountBelowSum { amount: 11, sum: 12 })
    ));
}

#[test]
fn bulk_plan_rejections() {
    let dt = BulkDisperseType::Equal(vec![addr(1), addr(2)]);
    assert!(matches!(plan_bulk_disperse(&dt, ETH, 1, None, ETH, 1, 100), Err(BulkPlanError::MissingTipRecipient)));
    assert!(matches!(plan_bulk_disperse(&dt, 1, 0, None, ETH, 1, 100), Err(BulkPlanError::ZeroShare)));
    let empty = BulkDisperseType::Mixed(vec![]);
    assert!(matches!(plan_bulk_disperse(&empty, 1, 0, None, ETH, 1, 100), Err(BulkPlanError::NoRecipients)));
    match plan_bulk_disperse(&dt, ETH, 0, None, ETH, 1_000_000_000, 100) {
        Err(BulkPlanError::BalanceTooLow { balance, needed }) => {
            assert_eq!(balance, ETH);
            assert_eq!(needed, ETH + 1_000_000_000 * 429_000);
        }
        _ => panic!("expected a low balance"),
    }
    let big = BulkDisperseType::Mixed(vec![(addr(1), u128::MAX), (addr(2), 1)]);
    assert!(matches!(plan_bulk_disperse(&big, 1, 0, None, ETH, 1, 100), Err(BulkPlanError::AmountOverflow)));
}

#[test]
fn bulk_plan_errors_come_in_order() {
    let dt = BulkDisperseType::Mixed(vec![(addr(1), u128::MAX), (addr(2), 1)]);
    assert!(matches!(plan_bulk_disperse(&dt, 0, 0, None, 0, 1, 100), Err(BulkPlanError::AmountOverflow)));
    let dt = BulkDisperseType::Mixed(vec![(addr(1), 5), (addr(2), 7)]);
    // Too little balance is reported before an amount below the sum.
    assert!(matches!(
        plan_bulk_disperse(&dt, 1, 0, None, 11, 0, 100),
        Err(BulkPlanError::BalanceTooLow { balance: 11, needed: 12 })
    ));
    assert!(matches!(
        plan_bulk_disperse(&dt, 1, 0, None, 12, 0, 100),
        Err(BulkPlanError::AmountBelowSum { amount: 1, sum: 12 })
    ));
}
