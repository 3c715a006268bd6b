use trickle::common::{Address, RecipientInfo};
use trickle::multistream::math::calculate_recipient_share;
use trickle::multistream::{MultiStreamConfig, MultiStreamContract};

#[test]
fn test_recipient_share_basic() {
    let share = calculate_recipient_share(10_000, 3, 10, 0);
    assert_eq!(share, 3_000);
}

#[test]
fn test_recipient_share_after_withdrawal() {
    let share = calculate_recipient_share(10_000, 3, 10, 1_000);
    assert_eq!(share, 2_000);
}

#[test]
fn test_recipient_share_nothing_accrued() {
    let share = calculate_recipient_share(0, 3, 10, 0);
    assert_eq!(share, 0);
}

#[test]
fn test_recipient_share_full_weight() {
    let share = calculate_recipient_share(10_000, 10, 10, 0);
    assert_eq!(share, 10_000);
}

#[test]
fn test_recipient_share_overdrawn() {
    let share = calculate_recipient_share(10_000, 3, 10, 5_000);
    assert_eq!(share, 0);
}

#[test]
fn test_recipient_share_zero_total_weight() {
    let share = calculate_recipient_share(10_000, 3, 0, 0);
    assert_eq!(share, 0);
}

#[test]
fn test_recipient_shares_do_not_over_allocate() {
    // 1_000 split 1:1:1 — each gets 333, one token of dust stays.
    let a = calculate_recipient_share(1_000, 1, 3, 0);
    let b = calculate_recipient_share(1_000, 1, 3, 0);
    let c = calculate_recipient_share(1_000, 1, 3, 0);
    assert_eq!(a, 333);
    assert!(a + b + c <= 1_000);
    // Negative shares round toward zero.
    assert_eq!(calculate_recipient_share(-10, 1, 3, -10), 7);
}

#[test]
fn test_multistream_storage_round_trip() {
    let sender = Address::new(1);
    let alice = Address::new(2);
    let mut m = MultiStreamContract::new();
    assert_eq!(m.get_total_weight(), 0);
    assert_eq!(m.get_withdrawn(alice), 0);
    assert_eq!(m.get_recipient_info(alice), None);

    let config = MultiStreamConfig {
        sender,
        asset: Address::new(3),
        total_amount: 1_000,
        duration: 10,
        flow_rate: 100,
        start_time: 5,
        last_update_time: 5,
    };
    m.set_config(config);
    assert_eq!(m.get_config(), config);

    let info = RecipientInfo { address: alice, weight: 3 };
    m.set_recipient_info(alice, info);
    m.set_total_weight(3);
    m.set_withdrawn(alice, 40);
    assert_eq!(m.get_recipient_info(alice), Some(info));
    assert_eq!(m.get_total_weight(), 3);
    assert_eq!(m.get_withdrawn(alice), 40);

    m.remove_recipient_info(alice);
    assert_eq!(m.get_recipient_info(alice), None);
}

#[test]
fn test_weighted_split_loses_less_than_one_per_recipient() {
    let weights = [1u32, 2, 3, 4];
    let total: u32 = weights.iter().sum();
    for accrued in [0i128, 1, 7, 999, 10_000] {
        let paid: i128 = weights
            .iter()
            .map(|w| calculate_recipient_share(accrued, *w, total, 0))
            .sum();
        assert!(paid <= accrued);
        assert!(paid > accrued - weights.len() as i128);
    }
}
