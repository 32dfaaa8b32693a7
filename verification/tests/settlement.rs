use loyalty_pay::errors::ErrorCode;
use loyalty_pay::settlement::{pow10_u64, process_payment_transfer, settle, Settlement};
use loyalty_pay::state::{AccountKey, AccountState, LoyaltyCard};
use loyalty_pay::tiers::Tier;

fn key(b: u8) -> AccountKey {
    AccountKey { bytes: [b; 32] }
}

fn card(loyalty_points: u64, threshold: u64, refund_percentage: u8) -> LoyaltyCard {
    LoyaltyCard {
        merchant: key(1),
        customer: key(2),
        loyalty_points,
        threshold,
        refund_percentage,
        mint_address: key(3),
    }
}

fn settle_existing(c: LoyaltyCard, amount: u64, decimals: u8) -> Result<Settlement, ErrorCode> {
    settle(AccountState::Existing(c), key(2), key(1), key(3), amount, decimals)
}

#[test]
fn first_payment_creates_card_with_defaults() {
    let r = settle(AccountState::New, key(2), key(1), key(3), 50, 0).unwrap();
    assert!(r.mint_reward_asset);
    // A first payment is classified like any other, starting from zero
    // points: fifty points cross the boundary at 33.
    assert_eq!(r.tier_transition, Some(Tier::Rare));
    assert_eq!(r.transfer_amount, 50);
    assert_eq!(r.refund_amount, 0);
    assert_eq!(r.updated_card.loyalty_points, 50);
    assert_eq!(r.updated_card.threshold, 100);
    assert_eq!(r.updated_card.refund_percentage, 15);
    assert_eq!(r.updated_card.customer, key(2));
    assert_eq!(r.updated_card.merchant, key(1));
    assert_eq!(r.updated_card.mint_address, key(3));
}

#[test]
fn first_payment_without_boundary_crossing_publishes_no_tier() {
    let r = settle(AccountState::New, key(2), key(1), key(3), 20, 0).unwrap();
    assert!(r.mint_reward_asset);
    assert_eq!(r.tier_transition, None);
    assert_eq!(r.updated_card.loyalty_points, 20);
}

#[test]
fn payment_below_threshold_earns_points_without_refund() {
    let r = settle_existing(card(0, 100, 15), 50, 0).unwrap();
    assert_eq!(r.updated_card.loyalty_points, 50);
    assert_eq!(r.transfer_amount, 50);
    assert_eq!(r.refund_amount, 0);
    assert_eq!(r.tier_transition, Some(Tier::Rare));
    assert!(!r.mint_reward_asset);
}

#[test]
fn payment_crossing_threshold_earns_no_refund_yet() {
    let r = settle_existing(card(95, 100, 15), 10, 0).unwrap();
    assert_eq!(r.updated_card.loyalty_points, 105);
    assert_eq!(r.transfer_amount, 10);
    assert_eq!(r.refund_amount, 0);
    assert_eq!(r.tier_transition, Some(Tier::Legendary));
}

#[test]
fn payment_above_threshold_fires_refund_and_resets() {
    let r = settle_existing(card(120, 100, 15), 10, 0).unwrap();
    assert_eq!(r.refund_amount, 1);
    assert_eq!(r.transfer_amount, 9);
    assert_eq!(r.updated_card.loyalty_points, 30);
    assert_eq!(r.tier_transition, Some(Tier::Common));
}

#[test]
fn refund_is_floored_toward_zero() {
    // 15% of 9 units is 1.35, floored to 1.
    let r = settle_existing(card(100, 100, 15), 9, 0).unwrap();
    assert_eq!(r.refund_amount, 1);
    assert_eq!(r.transfer_amount, 8);
    assert_eq!(r.updated_card.loyalty_points, 9);
}

#[test]
fn tiny_firing_refund_truncates_to_zero() {
    // 15% of 1 unit truncates to 0: the refund fires yet the whole
    // payment is still transferred.
    let r = settle_existing(card(120, 100, 15), 1, 0).unwrap();
    assert_eq!(r.refund_amount, 0);
    assert_eq!(r.transfer_amount, 1);
    assert_eq!(r.updated_card.loyalty_points, 21);
}

#[test]
fn scaling_applies_before_the_refund_subtraction() {
    // 6-decimal denomination: 3 whole units scale to 3_000_000, and the
    // 15% refund is taken from the scaled amount.
    let r = settle_existing(card(100, 100, 15), 3, 6).unwrap();
    assert_eq!(r.refund_amount, 450_000);
    assert_eq!(r.transfer_amount, 2_550_000);
    assert_eq!(r.updated_card.loyalty_points, 3);
}

#[test]
fn transfer_never_exceeds_scaled_payment() {
    for points in [0u64, 50, 99, 100, 150] {
        for amount in [1u64, 7, 100] {
            let r = settle_existing(card(points, 100, 15), amount, 2).unwrap();
            let scaled = amount * 100;
            assert!(r.transfer_amount <= scaled);
            assert_eq!(r.transfer_amount + r.refund_amount, scaled);
            let fires = points >= 100;
            assert_eq!(r.refund_amount, scaled * 15 / 100 * (fires as u64));
        }
    }
}

#[test]
fn point_overflow_fails_whole_settlement() {
    let r = settle_existing(card(u64::MAX - 5, 100, 15), 10, 0);
    assert_eq!(r, Err(ErrorCode::Overflow));
}

#[test]
fn scaling_overflow_fails_whole_settlement() {
    let r = settle_existing(card(0, 100, 15), u64::MAX / 10, 6);
    assert_eq!(r, Err(ErrorCode::Overflow));
}

#[test]
fn transfer_computation_without_refund_passes_amount_through() {
    let r = process_payment_transfer(0, 40, 10, 100, 15, 50).unwrap();
    assert_eq!(r, (40, 50));
}

#[test]
fn transfer_computation_refund_formula_is_exact() {
    // floor(1_000 * 15 / 100) == 150
    let r = process_payment_transfer(1, 100, 100, 100, 15, 200).unwrap();
    assert_eq!(r, (850, 100));
}

#[test]
fn transfer_computation_scaling_overflow_is_reported() {
    let r = process_payment_transfer(19, 2, 0, 100, 15, 2);
    assert_eq!(r, Err(ErrorCode::Overflow));
}

#[test]
fn zero_refund_percentage_keeps_transfer_whole() {
    let r = settle_existing(card(200, 100, 0), 40, 0).unwrap();
    assert_eq!(r.refund_amount, 0);
    assert_eq!(r.transfer_amount, 40);
    assert_eq!(r.updated_card.loyalty_points, 140);
}

#[test]
fn full_refund_percentage_transfers_nothing() {
    let r = settle_existing(card(100, 100, 100), 25, 0).unwrap();
    assert_eq!(r.refund_amount, 25);
    assert_eq!(r.transfer_amount, 0);
}

#[test]
fn power_of_ten_scale_factors() {
    assert_eq!(pow10_u64(0), 1);
    assert_eq!(pow10_u64(1), 10);
    assert_eq!(pow10_u64(6), 1_000_000);
    assert_eq!(pow10_u64(19), 10_000_000_000_000_000_000);
}
