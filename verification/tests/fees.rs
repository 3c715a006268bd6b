use trickle::common::{Address, FeeError};
use trickle::fees::math::calculate_fee;
use trickle::fees::{FeeContract, FeePayout, FeeSplit};

#[test]
fn test_calculate_fee_basic() {
    // 10_000 tokens * 250 basis points (2.5%) / 10_000 = 250
    assert_eq!(calculate_fee(10_000, 250).unwrap(), 250);
}

#[test]
fn math_test_calculate_fee_zero_rate() {
    assert_eq!(calculate_fee(10_000, 0).unwrap(), 0);
}

#[test]
fn test_calculate_fee_zero_amount() {
    assert_eq!(calculate_fee(0, 250).unwrap(), 0);
}

#[test]
fn test_calculate_fee_one_percent() {
    // 1_000_000 * 100 / 10_000 = 10_000
    assert_eq!(calculate_fee(1_000_000, 100).unwrap(), 10_000);
}

#[test]
fn test_calculate_fee_overflow_and_rounding() {
    assert_eq!(calculate_fee(i128::MAX, 2), Err(FeeError::FeeCalculationOverflow));
    // A zero rate never overflows.
    assert_eq!(calculate_fee(i128::MAX, 0), Ok(0));
    // Rounds toward zero: 9_999 * 1 / 10_000 = 0, -9_999 * 1 / 10_000 = 0.
    assert_eq!(calculate_fee(9_999, 1), Ok(0));
    assert_eq!(calculate_fee(-15_000, 10_000), Ok(-15_000));
    assert_eq!(calculate_fee(-19_999, 1), Ok(-1));
}

fn setup() -> (FeeContract, Address, Address) {
    let admin = Address::new(1);
    let fee_recipient = Address::new(2);
    let mut client = FeeContract::new();
    client.initialize(admin, fee_recipient);
    (client, admin, fee_recipient)
}

#[test]
fn test_calculate_fee() {
    let (mut client, admin, _) = setup();

    // Set fee rate to 250 basis points (2.5%).
    client.set_fee_rate(admin, 250).unwrap();

    // 10_000 * 250 / 10_000 = 250
    let fee = client.calculate_fee(10_000).unwrap();
    assert_eq!(fee, 250);
}

#[test]
fn test_test_calculate_fee_zero_rate() {
    let (client, _admin, _) = setup();

    // Fee rate is 0 by default.
    let fee = client.calculate_fee(10_000).unwrap();
    assert_eq!(fee, 0);
}

#[test]
fn test_set_fee_rate() {
    let (mut client, admin, _) = setup();

    assert_eq!(client.set_fee_rate(admin, 500), Ok(0));

    let fee = client.calculate_fee(10_000).unwrap();
    assert_eq!(fee, 500); // 5%
    assert_eq!(client.get_fee_rate(), 500);
}

#[test]
fn test_set_fee_rate_unauthorized() {
    let (mut client, _admin, recipient) = setup();
    assert_eq!(client.set_fee_rate(recipient, 500), Err(FeeError::Unauthorized));
    assert_eq!(client.get_fee_rate(), 0);
}

#[test]
fn test_collect_and_withdraw_fees() {
    let (mut client, admin, fee_recipient) = setup();
    let payer = Address::new(3);
    client.set_fee_rate(admin, 100).unwrap();

    assert_eq!(client.collect_creation_fee(payer, 50_000), Ok(500));
    assert_eq!(
        client.collect_withdrawal_fee(payer, 20_000),
        Ok(FeeSplit { fee: 200, net: 19_800 })
    );
    assert_eq!(client.get_accumulated_fees(), 700);

    assert_eq!(client.withdraw_fees(payer), Err(FeeError::Unauthorized));
    assert_eq!(client.get_accumulated_fees(), 700);
    assert_eq!(
        client.withdraw_fees(admin),
        Ok(FeePayout { amount: 700, recipient: fee_recipient })
    );
    assert_eq!(client.get_accumulated_fees(), 0);
    assert_eq!(client.get_admin(), admin);
    assert_eq!(client.get_fee_recipient(), fee_recipient);
}

#[test]
fn test_collect_fee_overflow_changes_nothing() {
    let (mut client, admin, _) = setup();
    client.set_fee_rate(admin, 3).unwrap();
    let payer = Address::new(3);
    assert_eq!(
        client.collect_creation_fee(payer, i128::MAX),
        Err(FeeError::FeeCalculationOverflow)
    );
    assert_eq!(client.get_accumulated_fees(), 0);
}

#[test]
fn test_fee_never_exceeds_amount_at_full_rate() {
    for rate in [0u32, 1, 250, 9_999, 10_000] {
        for amount in [0i128, 1, 9_999, 10_000, 123_456_789] {
            let fee = calculate_fee(amount, rate).unwrap();
            assert!(0 <= fee && fee <= amount);
        }
    }
    assert_eq!(calculate_fee(123_456_789, 10_000), Ok(123_456_789));
}
