use beaug::helpers::calculate_disperse_gas_limit;

#[test]
fn test_calculate_disperse_gas_limit_one_recipient() {
    let result = calculate_disperse_gas_limit(1);
    assert_eq!(result, 297_000);
}

#[test]
fn test_calculate_disperse_gas_limit_ten_recipients() {
    let result = calculate_disperse_gas_limit(10);
    assert_eq!(result, 1_485_000);
}

#[test]
fn test_calculate_disperse_gas_limit_fifty_recipients() {
    let result = calculate_disperse_gas_limit(50);
    assert_eq!(result, 6_765_000);
}

#[test]
fn test_calculate_disperse_gas_limit_cap_at_max() {
    let result = calculate_disperse_gas_limit(200);
    assert_eq!(result, 15_000_000);
}

#[test]
fn test_calculate_disperse_gas_limit_zero_recipients() {
    let result = calculate_disperse_gas_limit(0);
    assert_eq!(result, 165_000);
}

#[test]
fn disperse_gas_limit_around_the_cap() {
    // 113 recipients: (150k + 13.56M) * 1.1 = 15.081M, over the cap.
    assert_eq!(calculate_disperse_gas_limit(113), 15_000_000);
    // 112 recipients: (150k + 13.44M) * 1.1 = 14.949M.
    assert_eq!(calculate_disperse_gas_limit(112), 14_949_000);
    assert_eq!(calculate_disperse_gas_limit(usize::MAX), 15_000_000);
}
