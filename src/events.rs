use vstd::prelude::*;

use crate::pubkey::Pubkey;

verus! {

/// Emitted when the reward pool is flushed.
#[derive(Debug, Clone, Copy, PartialEq, Eq)]
pub struct RewardsDistributed {
    pub cycle: u64,
    pub amount: u64,
    /// Always zero: recipients are only known when they claim.
    pub recipients: u64,
    pub timestamp: i64,
}

/// Emitted when the buyback pool is flushed.
#[derive(Debug, Clone, Copy, PartialEq, Eq)]
pub struct BuybackExecuted {
    pub cycle: u64,
    pub amount: u64,
    pub tokens_bought: u64,
    pub timestamp: i64,
}

/// Emitted when the liquidity pool is flushed.
#[derive(Debug, Clone, Copy, PartialEq, Eq)]
pub struct LiquidityAdded {
    pub cycle: u64,
    pub amount: u64,
    pub timestamp: i64,
}

/// Summary of a completed mining cycle.
#[derive(Debug, Clone, Copy, PartialEq, Eq)]
pub struct MiningCycleCompleted {
    pub cycle: u64,
    pub total_volume: u64,
    pub rewards_distributed: u64,
    pub buyback_executed: u64,
    pub liquidity_added: u64,
    pub timestamp: i64,
}

/// Emitted on each taxed transfer.
#[derive(Debug, Clone, Copy, PartialEq, Eq)]
pub struct TransferWithTaxExecuted {
    pub from: Pubkey,
    pub to: Pubkey,
    pub amount: u64,
    pub tax_amount: u64,
    pub timestamp: i64,
}

/// Emitted when a holder claims rewards.
#[derive(Debug, Clone, Copy, PartialEq, Eq)]
pub struct RewardsClaimed {
    pub holder: Pubkey,
    pub amount: u64,
    pub timestamp: i64,
}

} // verus!
