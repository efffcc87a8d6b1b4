use vstd::prelude::*;

verus! {

/// Errors surfaced by the raffle core. Every operation checks its
/// preconditions in a fixed order, reports the first violated one and
/// leaves the state unchanged; no error is recovered from internally.
#[derive(Debug, Clone, PartialEq, Eq)]
pub enum ContractError {
    /// The caller is not a member of the administrator set.
    Unauthorized {},
    /// No round is stored under the requested id.
    NotFound {},
    /// The participant already appears in the round's player list.
    AlreadyRegistered {},
    /// The round has been marked inactive, so no further joins are taken.
    RegistrationsClosed {},
    /// The attached payment does not fit the round's settlement asset.
    WrongPayment {},
    /// A native-settled round was paid in a denomination other than ujuno.
    MustPayByJuno {},
    /// A token-settled round was paid in the native currency.
    MustPayByToken {},
    /// The contribution amount is below the round's minimum stake.
    NotSufficientFunds {},
    /// The round's close time has passed, so no further joins are taken.
    RaffleExpired {},
    /// The round's close time has not been reached yet, so it cannot close.
    RaffleNotEnded {},
    /// The duration class selector is not one of the enumerated values.
    WrongExpire {},
    /// The round's prize shares sum to zero, so no payout can be computed.
    DivisionByZero {},
}

} // verus!
