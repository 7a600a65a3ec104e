use vstd::prelude::*;

verus! {

/// The errors the program refuses a request with.
#[derive(Clone, Copy, Debug, PartialEq, Eq, Structural)]
pub enum GigContractError {
    /// Invalid seller is trying to release funds.
    InvalidSeller,
    /// Invalid seller is trying to activate contract.
    InvalidActivator,
    /// Invalid buyer is trying to accept contract.
    InvalidAcceptor,
    /// Invalid buyer is trying to release funds.
    InvalidBuyer,
    /// Invalid admin is trying to release funds.
    InvalidAdmin,
    /// Dispute amount should be 50 cent.
    InvalidDisputeAmount,
    /// Contract is not active yet or already completed.
    CantRelease,
    /// Contract status should be Created to accept.
    CantAccept,
    /// Can not activate contract.
    CantActivate,
    /// Contract is not pending or disputed yet so admin can't approve now or already completed.
    NotReadyYet,
    /// Invalid payment token.
    PayTokenMintError,
    /// Invalid pay amount.
    PayAmountError,
    /// Hourly contract was paused.
    HourlyContractPaused,
    /// Hourly contract was ended.
    HourlyContractEnded,
    /// Exceeded weekly hours limit.
    WeeklyHoursLimitError,
    /// It needs to be ready to pay.
    HourlyGigPayError,
    /// Hourly contract was not paid yet.
    HourlyContractNotPaidYet,
    /// Invalid featured day.
    InvalidFeaturedDay,
    /// The account holds fewer lamports than asked for.
    InsufficientFunds,
    /// The contract type selector is neither 0 nor 1.
    InvalidContractType,
}

} // verus!
