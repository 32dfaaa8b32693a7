use vstd::prelude::*;

verus! {

/// Error raised by the settlement core.
///
/// Any checked-arithmetic failure aborts the whole settlement with
/// `Overflow`; no partially updated account is ever returned. The two
/// remaining variants belong to the authorization checks that the
/// surrounding program performs before value moves.
#[derive(Clone, Copy, Debug, PartialEq, Eq)]
pub enum ErrorCode {
    /// Arithmetic overflow occurred.
    Overflow,
    /// Only the merchant who owns this card can close it.
    Unauthorized,
    /// Token destination account is not owned by the customer.
    ConstraintTokenOwner,
}

} // verus!
