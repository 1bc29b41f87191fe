use vstd::prelude::*;

verus! {

/// Every way an instruction of the protocol can be refused.
#[derive(Debug, Clone, Copy, PartialEq, Eq)]
pub enum MineballError {
    /// The tax rate is above `MAX_TAX_RATE`.
    InvalidTaxRate,
    /// The four tax shares do not sum to `BASIS_POINTS`.
    InvalidTaxShares,
    /// The sender holds less than the transfer amount.
    InsufficientBalance,
    /// The reward pool is below its distribution threshold.
    RewardPoolBelowThreshold,
    /// The buyback pool is below its execution threshold.
    BuybackPoolBelowThreshold,
    /// The liquidity pool is below its addition threshold.
    LiquidityPoolBelowThreshold,
    /// The claim cooldown has not elapsed, or the computed reward is zero.
    NoRewardsToClaim,
    /// A checked arithmetic step overflowed.
    ArithmeticOverflow,
    /// The signer may not perform this action.
    Unauthorized,
    /// The transfer amount is zero.
    InvalidAmount,
}

impl MineballError {
    /// The human-readable message of the error.
    pub fn message(&self) -> (r: &'static str) {
        match self {
            MineballError::InvalidTaxRate => "Invalid tax rate (must be between 0 and 1000 basis points)",
            MineballError::InvalidTaxShares => "Tax shares do not sum to 10000 basis points",
            MineballError::InsufficientBalance => "Insufficient balance for transfer",
            MineballError::RewardPoolBelowThreshold => "Reward pool below distribution threshold",
            MineballError::BuybackPoolBelowThreshold => "Buyback pool below execution threshold",
            MineballError::LiquidityPoolBelowThreshold => "Liquidity pool below addition threshold",
            MineballError::NoRewardsToClaim => "No rewards available to claim",
            MineballError::ArithmeticOverflow => "Arithmetic overflow",
            MineballError::Unauthorized => "Unauthorized",
            MineballError::InvalidAmount => "Invalid amount",
        }
    }
}

} // verus!
