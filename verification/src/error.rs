//! What a caller is told when a request is refused.
use vstd::prelude::*;

verus! {

/// Error types for the price oracle contract.
#[derive(Clone, Copy, Debug, PartialEq, Eq, Structural)]
pub enum Error {
    /// Asset does not exist in the price oracle.
    AssetNotFound,
    /// Unauthorized caller - not a whitelisted provider.
    Unauthorized,
    /// Asset symbol is not in the approved list (NGN, KES, GHS).
    InvalidAssetSymbol,
    /// Stake withdrawal amount must be greater than zero.
    InvalidStakeAmount,
    /// Validator already has a pending unbonding request.
    UnbondingAlreadyQueued,
    /// Validator does not have an unbonding request.
    UnbondingRequestNotFound,
    /// The minimum unbonding delay has not elapsed yet.
    UnbondingDelayActive,
    /// The queued unbonding request was already released.
    UnbondingAlreadyReleased,
    /// The current ledger plus the unbonding delay overflowed.
    LedgerSequenceOverflow,
}

impl Error {
    /// The number under which the contract reports the error.
    pub open spec fn spec_code(self) -> u32 {
        match self {
            Error::AssetNotFound => 1,
            Error::Unauthorized => 2,
            Error::InvalidAssetSymbol => 3,
            Error::InvalidStakeAmount => 4,
            Error::UnbondingAlreadyQueued => 5,
            Error::UnbondingRequestNotFound => 6,
            Error::UnbondingDelayActive => 7,
            Error::UnbondingAlreadyReleased => 8,
            Error::LedgerSequenceOverflow => 9,
        }
    }

    /// Returns the number under which the contract reports the error.
    pub fn code(self) -> (code: u32)
        ensures
            code == self.spec_code(),
    {
        match self {
            Error::AssetNotFound => 1,
            Error::Unauthorized => 2,
            Error::InvalidAssetSymbol => 3,
            Error::InvalidStakeAmount => 4,
            Error::UnbondingAlreadyQueued => 5,
            Error::UnbondingRequestNotFound => 6,
            Error::UnbondingDelayActive => 7,
            Error::UnbondingAlreadyReleased => 8,
            Error::LedgerSequenceOverflow => 9,
        }
    }
}

/// Error types of liquidity validation and of the slashing that follows from it.
#[derive(Clone, Copy, Debug, PartialEq, Eq, Structural)]
pub enum ContractError {
    /// Reported liquidity is negative or zero.
    InvalidLiquidity,
    /// Reported liquidity is below the configured minimum.
    LiquidityBelowThreshold,
    /// The threshold is out of bounds, or there is none where one is needed.
    InvalidLiquidityThreshold,
    /// The scaled slash amount is too large to be represented.
    InvalidSlashAmount,
    /// The slashing engine could not deduct the amount from the provider's stake.
    InsufficientStake,
}

} // verus!
