use vstd::prelude::*;

verus! {

/// Every way an invocation of the order book can fail.
///
/// Each failure aborts the invocation atomically: the store is left
/// exactly as it was and no instruction is emitted.
#[derive(Clone, Copy, Debug, PartialEq, Eq, Structural)]
pub enum ContractError {
    /// The caller is not the recorded lender of the offer.
    Unauthorized,
    /// No record exists for the derived asset key.
    NotFound,
    /// A lend offer already exists for the derived asset key.
    AlreadyListed,
    /// Delisting was attempted while an unexpired rental exists.
    StillRented,
    /// The lender attempted to rent its own offer.
    SelfRentForbidden,
    /// The requested lend duration is below the policy minimum.
    DurationTooShort,
    /// The requested lend duration is above the policy maximum.
    DurationTooLong,
}

} // verus!
