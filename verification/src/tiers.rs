use vstd::prelude::*;

verus! {

/// One of the four reward-status labels a loyalty card can display.
#[derive(Clone, Copy, Debug, PartialEq, Eq)]
pub enum Tier {
    Common,
    Rare,
    Epic,
    Legendary,
}

/// The tier transition, if any, that a move from `previous_points` to
/// `new_points` triggers.
///
/// Transitions are edge-triggered: one fires only when a tier boundary
/// is crossed between the two values, never merely because the new value
/// lies inside a tier's range. The guards apply in order and at most one
/// fires:
/// - at or above 100 and still climbing: back to `Common` (the reset
///   that follows a reward redemption);
/// - crossing 33: `Rare`;
/// - crossing 66: `Epic`;
/// - reaching 100 from below: `Legendary`.
pub open spec fn spec_classify(previous_points: int, new_points: int) -> Option<Tier> {
    if previous_points >= 100 && new_points > previous_points {
        Some(Tier::Common)
    } else if previous_points <= 33 && new_points > 33 {
        Some(Tier::Rare)
    } else if previous_points <= 66 && new_points > 66 {
        Some(Tier::Epic)
    } else if previous_points < 100 && new_points >= 100 {
        Some(Tier::Legendary)
    } else {
        None
    }
}

/// Classify the move from `previous_points` to `new_points` into the
/// tier transition to publish, or `None` when no boundary was crossed.
///
/// Classification is evaluated on the gross point value a payment
/// reaches, before any refund resets the ledger back below the
/// threshold.
pub fn classify(previous_points: u64, new_points: u64) -> (transition: Option<Tier>)
    ensures
        transition == spec_classify(previous_points as int, new_points as int),
{
    if previous_points >= 100 && new_points > previous_points {
        Some(Tier::Common)
    } else if previous_points <= 33 && new_points > 33 {
        Some(Tier::Rare)
    } else if previous_points <= 66 && new_points > 66 {
        Some(Tier::Epic)
    } else if previous_points < 100 && new_points >= 100 {
        Some(Tier::Legendary)
    } else {
        None
    }
}

/// Classification is idempotent: the transition is a function of the
/// `(previous_points, new_points)` pair alone, so classifying the same
/// pair any number of times yields the same `Option<Tier>`.
pub proof fn lemma_classify_idempotent(
    previous_points: int,
    new_points: int,
    first: Option<Tier>,
    second: Option<Tier>,
)
    requires
        first == spec_classify(previous_points, new_points),
        second == spec_classify(previous_points, new_points),
    ensures
        first == second,
{
}

} // verus!
