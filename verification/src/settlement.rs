use vstd::prelude::*;
use vstd::arithmetic::div_mod::{lemma_div_by_multiple, lemma_div_is_ordered};
use vstd::arithmetic::mul::{
    lemma_mul_is_commutative, lemma_mul_nonnegative, lemma_mul_upper_bound,
};
use crate::errors::ErrorCode;
use crate::state::{
    AccountKey, AccountState, LoyaltyCard, DEFAULT_REFUND_PERCENTAGE, DEFAULT_THRESHOLD,
};
use crate::tiers::{classify, spec_classify, Tier};

verus! {

/// `10^exponent`, the factor that maps a whole-unit payment amount to
/// the fixed-point on-ledger denomination.
pub open spec fn pow10(exponent: nat) -> nat
    decreases exponent,
{
    if exponent == 0 {
        1
    } else {
        10 * pow10((exponent - 1) as nat)
    }
}

proof fn lemma_pow10_19_fits()
    ensures
        pow10(19) == 10_000_000_000_000_000_000,
{
    reveal_with_fuel(pow10, 20);
}

proof fn lemma_pow10_increases(lo: nat, hi: nat)
    requires
        lo <= hi,
    ensures
        pow10(lo) <= pow10(hi),
    decreases hi,
{
    if lo < hi {
        lemma_pow10_increases(lo, (hi - 1) as nat);
    }
}

/// Compute `10^exponent` as a `u64`. The exponent is capped at 19
/// because `10^20` no longer fits in 64 bits.
pub fn pow10_u64(exponent: u8) -> (power: u64)
    requires
        exponent <= 19,
    ensures
        power == pow10(exponent as nat),
{
    let mut power: u64 = 1;
    let mut i: u8 = 0;
    while i < exponent
        invariant
            i <= exponent <= 19,
            power == pow10(i as nat),
        decreases exponent - i,
    {
        proof {
            lemma_pow10_increases((i + 1) as nat, 19);
            lemma_pow10_19_fits();
            assert(pow10((i + 1) as nat) == 10 * pow10(i as nat));
        }
        power = power * 10;
        i = i + 1;
    }
    power
}

/// A refund fires exactly when the account already held at least
/// `threshold` points before this payment, and the payment is non-zero
/// (so the point balance actually moved). The payment that first crosses
/// the threshold earns no refund; the ones after it do.
pub open spec fn refund_fires(previous_points: int, threshold: int, new_points: int) -> bool {
    previous_points >= threshold && new_points > previous_points
}

/// The cash-back on a scaled payment amount:
/// `floor(scaled_amount * refund_percentage / 100)`, truncated toward
/// zero.
pub open spec fn spec_refund_amount(scaled_amount: int, refund_percentage: int) -> int {
    scaled_amount * refund_percentage / 100
}

/// The scaled amount the customer actually transfers: the scaled payment
/// minus the refund when one fires, the whole scaled payment otherwise.
pub open spec fn spec_transfer_amount(
    scaled_amount: int,
    refund_percentage: int,
    fires: bool,
) -> int {
    if fires {
        scaled_amount - spec_refund_amount(scaled_amount, refund_percentage)
    } else {
        scaled_amount
    }
}

/// The point balance after settlement: when a refund fires the threshold
/// "resets" by exactly its own value, preserving any surplus above it;
/// otherwise the gross balance stands.
pub open spec fn spec_updated_points(
    previous_points: int,
    threshold: int,
    new_points: int,
) -> int {
    if refund_fires(previous_points, threshold, new_points) {
        new_points - threshold
    } else {
        new_points
    }
}

/// A refund is never negative and never exceeds the scaled amount it is
/// taken from.
pub proof fn lemma_refund_amount_bounds(scaled_amount: int, refund_percentage: int)
    requires
        0 <= scaled_amount,
        0 <= refund_percentage <= 100,
    ensures
        0 <= spec_refund_amount(scaled_amount, refund_percentage) <= scaled_amount,
{
    lemma_mul_nonnegative(scaled_amount, refund_percentage);
    lemma_mul_upper_bound(refund_percentage, 100, scaled_amount, scaled_amount);
    lemma_mul_is_commutative(scaled_amount, refund_percentage);
    lemma_div_is_ordered(scaled_amount * refund_percentage, 100 * scaled_amount, 100);
    lemma_div_by_multiple(scaled_amount, 100);
    lemma_mul_is_commutative(scaled_amount, 100);
}

/// Compute the scaled transfer amount and the post-settlement point
/// balance for one payment.
///
/// `amount` is the whole-unit payment; it is scaled by
/// `10^usdc_decimals` into the on-ledger denomination before anything is
/// subtracted from it, so the refund and the payment are always compared
/// in the same denomination. `current_points` is the gross balance the
/// payment reached (the previous balance plus the payment). When a
/// refund fires, the refund is computed in 128-bit width so the
/// intermediate product cannot overflow, and the threshold resets the
/// balance by exactly its own value.
pub fn process_payment_transfer(
    usdc_decimals: u8,
    amount: u64,
    previous_points: u64,
    threshold: u64,
    refund_percentage: u8,
    current_points: u64,
) -> (r: Result<(u64, u64), ErrorCode>)
    requires
        usdc_decimals <= 19,
        refund_percentage <= 100,
    ensures
        r is Ok <==> amount * pow10(usdc_decimals as nat) <= u64::MAX,
        r matches Err(e) ==> e == ErrorCode::Overflow,
        r matches Ok(pair) ==> ({
            let scaled = amount * pow10(usdc_decimals as nat);
            let fires = refund_fires(
                previous_points as int,
                threshold as int,
                current_points as int,
            );
            &&& pair.0 == spec_transfer_amount(scaled, refund_percentage as int, fires)
            &&& pair.0 <= scaled
            &&& pair.1 == spec_updated_points(
                previous_points as int,
                threshold as int,
                current_points as int,
            )
        }),
{
    let factor = pow10_u64(usdc_decimals);
    let scaled = match amount.checked_mul(factor) {
        Some(s) => s,
        None => {
            return Err(ErrorCode::Overflow);
        },
    };
    if previous_points >= threshold && current_points > previous_points {
        proof {
            lemma_mul_upper_bound(scaled as int, u64::MAX as int, refund_percentage as int, 100);
            lemma_refund_amount_bounds(scaled as int, refund_percentage as int);
        }
        let wide: u128 = (scaled as u128) * (refund_percentage as u128);
        let refund = (wide / 100) as u64;
        let transfer_amount = scaled - refund;
        let updated_points = current_points - threshold;
        Ok((transfer_amount, updated_points))
    } else {
        Ok((scaled, current_points))
    }
}

/// Accrual law: when no refund fires the settled balance never drops
/// below the previous one, and when one fires it is exactly
/// `previous_points + payment_amount - threshold`, which is never
/// negative (the balance had already reached the threshold, so the reset
/// cannot underflow).
pub proof fn lemma_points_accrual(previous_points: int, threshold: int, payment_amount: int)
    requires
        0 <= previous_points,
        0 <= threshold,
        0 <= payment_amount,
    ensures
        !refund_fires(previous_points, threshold, previous_points + payment_amount)
            ==> spec_updated_points(previous_points, threshold, previous_points + payment_amount)
                >= previous_points,
        refund_fires(previous_points, threshold, previous_points + payment_amount)
            ==> spec_updated_points(previous_points, threshold, previous_points + payment_amount)
                == previous_points + payment_amount - threshold,
        spec_updated_points(previous_points, threshold, previous_points + payment_amount) >= 0,
{
}

/// Transfer bound law: the transfer never exceeds the scaled payment,
/// and it equals the scaled payment exactly when no refund fires. The
/// equivalence asks that a firing refund be large enough not to truncate
/// to zero (`scaled_amount * refund_percentage >= 100`); a smaller one
/// rounds down to nothing and leaves the transfer whole.
pub proof fn lemma_transfer_amount_bound(
    scaled_amount: int,
    refund_percentage: int,
    fires: bool,
)
    requires
        0 <= scaled_amount,
        0 <= refund_percentage <= 100,
        fires ==> scaled_amount * refund_percentage >= 100,
    ensures
        spec_transfer_amount(scaled_amount, refund_percentage, fires) <= scaled_amount,
        spec_transfer_amount(scaled_amount, refund_percentage, fires) == scaled_amount
            <==> !fires,
{
    if fires {
        lemma_refund_amount_bounds(scaled_amount, refund_percentage);
        lemma_div_is_ordered(100, scaled_amount * refund_percentage, 100);
    }
}

/// Everything the caller must act on after one settled payment: the
/// updated record to persist, the scaled amount to move from customer to
/// merchant, and the side effects to perform. The core never moves value
/// or publishes metadata itself; it hands these commands back so that a
/// failed settlement leaves no partial state behind.
#[derive(Clone, Copy, Debug, PartialEq, Eq)]
pub struct Settlement {
    /// The record to write back to the account store.
    pub updated_card: LoyaltyCard,
    /// The scaled amount the transfer executor must move.
    pub transfer_amount: u64,
    /// The scaled cash-back kept by the customer; zero when no refund
    /// fired.
    pub refund_amount: u64,
    /// True exactly on a first payment: a reward asset must be minted
    /// for the pair.
    pub mint_reward_asset: bool,
    /// The tier label to publish, when this payment crossed a tier
    /// boundary.
    pub tier_transition: Option<Tier>,
}

/// The point balance a payment starts from: zero for a pair that has no
/// card yet.
pub open spec fn previous_points_of(account: AccountState) -> u64 {
    match account {
        AccountState::New => 0,
        AccountState::Existing(card) => card.loyalty_points,
    }
}

/// The threshold a payment settles under: the default one on a first
/// payment, the card's own afterwards.
pub open spec fn threshold_of(account: AccountState) -> u64 {
    match account {
        AccountState::New => DEFAULT_THRESHOLD,
        AccountState::Existing(card) => card.threshold,
    }
}

/// The refund percentage a payment settles under: the default one on a
/// first payment, the card's own afterwards.
pub open spec fn refund_percentage_of(account: AccountState) -> u8 {
    match account {
        AccountState::New => DEFAULT_REFUND_PERCENTAGE,
        AccountState::Existing(card) => card.refund_percentage,
    }
}

/// Settle one payment of `amount` whole units against the pair's
/// account, atomically: either every field of the result is computed, or
/// the whole settlement fails with `Overflow` and nothing is returned.
/// A zero payment is a caller error and lies outside this operation's
/// domain.
///
/// On a first payment the card is created with the default threshold and
/// refund percentage, bound to `customer`, `merchant` and
/// `reward_asset`, and the result signals that the reward asset must be
/// minted. On a later payment the card's own parameters govern the
/// refund. On every payment, first ones included, the move from the
/// previous to the gross point balance is classified into the tier
/// transition to publish (a first payment starts from zero points).
/// Classification always sees the gross (pre-reset) balance, not the
/// balance a firing refund resets to.
pub fn settle(
    account: AccountState,
    customer: AccountKey,
    merchant: AccountKey,
    reward_asset: AccountKey,
    amount: u64,
    usdc_decimals: u8,
) -> (r: Result<Settlement, ErrorCode>)
    requires
        amount > 0,
        usdc_decimals <= 19,
        account matches AccountState::Existing(card) ==> card.wf(),
    ensures
        r is Ok <==> previous_points_of(account) + amount <= u64::MAX
            && amount * pow10(usdc_decimals as nat) <= u64::MAX,
        r matches Err(e) ==> e == ErrorCode::Overflow,
        r matches Ok(s) ==> ({
            let prev = previous_points_of(account) as int;
            let thr = threshold_of(account) as int;
            let pct = refund_percentage_of(account) as int;
            let gross = prev + amount;
            let scaled = amount * pow10(usdc_decimals as nat);
            let fires = refund_fires(prev, thr, gross);
            &&& s.updated_card.loyalty_points == spec_updated_points(prev, thr, gross)
            &&& s.transfer_amount == spec_transfer_amount(scaled, pct, fires)
            &&& s.transfer_amount <= scaled
            &&& s.refund_amount == if fires {
                spec_refund_amount(scaled, pct)
            } else {
                0
            }
            &&& s.updated_card.threshold == thr
            &&& s.updated_card.refund_percentage == pct
            &&& s.updated_card.wf()
            &&& s.mint_reward_asset == (account is New)
            &&& s.tier_transition == spec_classify(prev, gross)
            &&& match account {
                AccountState::New => s.updated_card.customer == customer
                    && s.updated_card.merchant == merchant
                    && s.updated_card.mint_address == reward_asset,
                AccountState::Existing(card) => s.updated_card.customer == card.customer
                    && s.updated_card.merchant == card.merchant
                    && s.updated_card.mint_address == card.mint_address,
            }
        }),
{
    let (card, is_new) = match account {
        AccountState::New => (
            LoyaltyCard {
                merchant,
                customer,
                loyalty_points: 0,
                threshold: DEFAULT_THRESHOLD,
                refund_percentage: DEFAULT_REFUND_PERCENTAGE,
                mint_address: reward_asset,
            },
            true,
        ),
        AccountState::Existing(card) => (card, false),
    };
    let previous_points = card.loyalty_points;
    let gross_points = match previous_points.checked_add(amount) {
        Some(g) => g,
        None => {
            return Err(ErrorCode::Overflow);
        },
    };
    let tier_transition = classify(previous_points, gross_points);
    let (transfer_amount, updated_points) = match process_payment_transfer(
        usdc_decimals,
        amount,
        previous_points,
        card.threshold,
        card.refund_percentage,
        gross_points,
    ) {
        Ok(pair) => pair,
        Err(e) => {
            return Err(e);
        },
    };
    let factor = pow10_u64(usdc_decimals);
    let scaled = amount * factor;
    let refund_amount = scaled - transfer_amount;
    Ok(Settlement {
        updated_card: LoyaltyCard {
            merchant: card.merchant,
            customer: card.customer,
            loyalty_points: updated_points,
            threshold: card.threshold,
            refund_percentage: card.refund_percentage,
            mint_address: card.mint_address,
        },
        transfer_amount,
        refund_amount,
        mint_reward_asset: is_new,
        tier_transition,
    })
}

} // verus!
