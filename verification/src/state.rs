use vstd::prelude::*;

verus! {

/// Point threshold installed on a loyalty card at creation. Once an
/// account holds at least this many points, later payments earn a
/// cash-back refund.
pub const DEFAULT_THRESHOLD: u64 = 100;

/// Refund percentage installed on a loyalty card at creation.
pub const DEFAULT_REFUND_PERCENTAGE: u8 = 15;

/// An opaque 32-byte identity: a customer, a merchant, or the reward
/// asset bound to a loyalty card. The core never looks inside one; it
/// only copies identities into the records it builds.
#[derive(Clone, Copy, Debug, PartialEq, Eq)]
pub struct AccountKey {
    pub bytes: [u8; 32],
}

/// Persistent record of one customer-merchant reward relationship.
///
/// `threshold` and `refund_percentage` are fixed at creation;
/// `loyalty_points` is adjusted only through checked arithmetic, never
/// silently wrapping. `mint_address` names the reward asset bound to the
/// card when its first payment was settled.
#[derive(Clone, Copy, Debug, PartialEq, Eq)]
pub struct LoyaltyCard {
    pub merchant: AccountKey,
    pub customer: AccountKey,
    pub loyalty_points: u64,
    pub threshold: u64,
    pub refund_percentage: u8,
    pub mint_address: AccountKey,
}

impl LoyaltyCard {
    /// Well-formedness: the refund percentage is a percentage.
    /// Constructors establish it and settlement preserves it.
    pub open spec fn wf(self) -> bool {
        self.refund_percentage <= 100
    }
}

/// The account a payment settles against: either no card exists yet for
/// this customer-merchant pair, or one created by an earlier payment.
#[derive(Clone, Copy, Debug)]
pub enum AccountState {
    /// No payment has ever been settled for this pair; settling one
    /// creates the card and signals that a reward asset must be minted.
    New,
    /// The card created by this pair's first payment.
    Existing(LoyaltyCard),
}

} // verus!
