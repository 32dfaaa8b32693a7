//! Settlement core of a customer-to-merchant loyalty program.
//!
//! Each payment accrues loyalty points on a per-(customer, merchant)
//! account, may trigger a tiered cash-back refund once the account's
//! point threshold has been reached, and drives a four-tier reward-status
//! state machine. The core only computes amounts and state transitions;
//! executing the asset transfer and publishing tier metadata are the
//! caller's job.

pub mod errors;
pub mod settlement;
pub mod state;
pub mod tiers;
