//! The faults with which an operation is refused. Every fault is raised
//! before anything is written: a refused call leaves the state as it was.

use vstd::prelude::*;

verus! {

/// The four families of fault.
#[derive(Clone, Copy, Debug, PartialEq, Eq, Structural)]
pub enum ErrorKind {
    /// An argument, or the state the call was made in, does not admit the operation.
    Precondition,
    /// The caller does not hold the role that the operation is reserved for.
    Authorization,
    /// The operation would leave a position under-collateralised, or asks for
    /// more than a balance, an allowance or a deposit holds.
    InvariantBreach,
    /// A quantity to be recorded does not fit its type, or a subtraction would
    /// go below zero. Fatal: nothing is saturated or wrapped.
    Arithmetic,
}

/// Why an operation was refused.
#[derive(Clone, Copy, Debug, PartialEq, Eq, Structural)]
pub enum Error {
    /// The caller already has an active trove.
    TroveExists,
    /// A trove cannot be opened without collateral.
    ZeroCollateral,
    /// The requested debt is below the minimum.
    DebtBelowMinimum,
    /// The interest rate is below the lowest rate allowed.
    RateTooLow,
    /// The interest rate is above the highest rate allowed.
    RateTooHigh,
    /// The account has no active trove.
    NoActiveTrove,
    /// The trove still owes debt.
    DebtOutstanding,
    /// The trove is not below the liquidation ratio.
    NotLiquidatable,
    /// An amount of zero was given where a positive one is needed.
    ZeroAmount,
    /// A price of zero was reported.
    ZeroPrice,
    /// The reported price is too far from the smoothed price.
    DeviationTooHigh,
    /// The price feed has not been updated recently enough.
    StalePrice,
    /// The faucet was used too recently.
    FaucetCooldown,
    /// The caller is not the owner.
    NotOwner,
    /// The caller is not the trove manager.
    NotTroveManager,
    /// The caller may not report prices.
    NotFeeder,
    /// The caller may not mint or burn.
    NotMinter,
    /// The collateral ratio would fall below the minimum.
    BelowMinimumRatio,
    /// More collateral was asked for than the trove holds.
    InsufficientCollateral,
    /// More was asked for than the deposit holds.
    InsufficientDeposit,
    /// More was asked for than the balance holds.
    InsufficientBalance,
    /// More was asked for than the allowance grants.
    InsufficientAllowance,
    /// Overflow of a recorded quantity, or subtraction below zero.
    Arithmetic,
}

impl Error {
    /// The family a fault belongs to.
    pub open spec fn spec_kind(self) -> ErrorKind {
        match self {
            Error::TroveExists
            | Error::ZeroCollateral
            | Error::DebtBelowMinimum
            | Error::RateTooLow
            | Error::RateTooHigh
            | Error::NoActiveTrove
            | Error::DebtOutstanding
            | Error::NotLiquidatable
            | Error::ZeroAmount
            | Error::ZeroPrice
            | Error::DeviationTooHigh
            | Error::StalePrice
            | Error::FaucetCooldown => ErrorKind::Precondition,
            Error::NotOwner
            | Error::NotTroveManager
            | Error::NotFeeder
            | Error::NotMinter => ErrorKind::Authorization,
            Error::BelowMinimumRatio
            | Error::InsufficientCollateral
            | Error::InsufficientDeposit
            | Error::InsufficientBalance
            | Error::InsufficientAllowance => ErrorKind::InvariantBreach,
            Error::Arithmetic => ErrorKind::Arithmetic,
        }
    }

    /// The family a fault belongs to.
    pub fn kind(self) -> (k: ErrorKind)
        ensures
            k == self.spec_kind(),
            (k == ErrorKind::Arithmetic) <==> (self == Error::Arithmetic),
    {
        match self {
            Error::TroveExists
            | Error::ZeroCollateral
            | Error::DebtBelowMinimum
            | Error::RateTooLow
            | Error::RateTooHigh
            | Error::NoActiveTrove
            | Error::DebtOutstanding
            | Error::NotLiquidatable
            | Error::ZeroAmount
            | Error::ZeroPrice
            | Error::DeviationTooHigh
            | Error::StalePrice
            | Error::FaucetCooldown => ErrorKind::Precondition,
            Error::NotOwner
            | Error::NotTroveManager
            | Error::NotFeeder
            | Error::NotMinter => ErrorKind::Authorization,
            Error::BelowMinimumRatio
            | Error::InsufficientCollateral
            | Error::InsufficientDeposit
            | Error::InsufficientBalance
            | Error::InsufficientAllowance => ErrorKind::InvariantBreach,
            Error::Arithmetic => ErrorKind::Arithmetic,
        }
    }

    /// The text with which a fault is reported.
    pub open spec fn spec_message(self) -> Seq<char> {
        match self {
            Error::TroveExists => "Trove already exists"@,
            Error::ZeroCollateral => "Collateral must be positive"@,
            Error::DebtBelowMinimum => "Debt below minimum"@,
            Error::RateTooLow => "Interest rate too low"@,
            Error::RateTooHigh => "Interest rate too high"@,
            Error::NoActiveTrove => "No active trove"@,
            Error::DebtOutstanding => "Must repay all debt first"@,
            Error::NotLiquidatable => "Trove not liquidatable"@,
            Error::ZeroAmount => "Amount must be positive"@,
            Error::ZeroPrice => "Price must be positive"@,
            Error::DeviationTooHigh => "Deviation too high"@,
            Error::StalePrice => "Price is stale"@,
            Error::FaucetCooldown => "Faucet cooldown active"@,
            Error::NotOwner => "Only owner"@,
            Error::NotTroveManager => "Only TroveManager"@,
            Error::NotFeeder => "Not authorized"@,
            Error::NotMinter => "Not authorized minter"@,
            Error::BelowMinimumRatio => "Below minimum collateral ratio"@,
            Error::InsufficientCollateral => "Insufficient collateral"@,
            Error::InsufficientDeposit => "Insufficient deposit"@,
            Error::InsufficientBalance => "Insufficient balance"@,
            Error::InsufficientAllowance => "Insufficient allowance"@,
            Error::Arithmetic => "Arithmetic fault"@,
        }
    }

    /// The text with which a fault is reported.
    pub fn message(self) -> (text: &'static str)
        ensures
            text@ == self.spec_message(),
    {
        match self {
            Error::TroveExists => "Trove already exists",
            Error::ZeroCollateral => "Collateral must be positive",
            Error::DebtBelowMinimum => "Debt below minimum",
            Error::RateTooLow => "Interest rate too low",
            Error::RateTooHigh => "Interest rate too high",
            Error::NoActiveTrove => "No active trove",
            Error::DebtOutstanding => "Must repay all debt first",
            Error::NotLiquidatable => "Trove not liquidatable",
            Error::ZeroAmount => "Amount must be positive",
            Error::ZeroPrice => "Price must be positive",
            Error::DeviationTooHigh => "Deviation too high",
            Error::StalePrice => "Price is stale",
            Error::FaucetCooldown => "Faucet cooldown active",
            Error::NotOwner => "Only owner",
            Error::NotTroveManager => "Only TroveManager",
            Error::NotFeeder => "Not authorized",
            Error::NotMinter => "Not authorized minter",
            Error::BelowMinimumRatio => "Below minimum collateral ratio",
            Error::InsufficientCollateral => "Insufficient collateral",
            Error::InsufficientDeposit => "Insufficient deposit",
            Error::InsufficientBalance => "Insufficient balance",
            Error::InsufficientAllowance => "Insufficient allowance",
            Error::Arithmetic => "Arithmetic fault",
        }
    }
}

} // verus!
