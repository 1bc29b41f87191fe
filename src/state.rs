use vstd::prelude::*;

use crate::constants::{BASIS_POINTS, MAX_TAX_RATE};
use crate::pubkey::Pubkey;

verus! {

/// The protocol's single global record: policy, pool balances, lifetime
/// counters, thresholds and timestamps.
#[derive(Debug, Clone, Copy, PartialEq, Eq)]
pub struct MineballState {
    /// Authority that set the protocol up.
    pub authority: Pubkey,
    /// Mint of the taxed token.
    pub mint: Pubkey,
    /// Supply of the token when the protocol was set up.
    pub total_supply: u64,
    /// Tax rate in basis points (600 is 6%).
    pub tax_rate: u16,
    /// Shares of the tax in basis points; they sum to `BASIS_POINTS`.
    pub mining_reward_share: u16,
    pub buyback_share: u16,
    pub liquidity_share: u16,
    pub burn_share: u16,
    /// Balances accumulated since each pool's last flush.
    pub mining_reward_pool: u64,
    pub buyback_pool: u64,
    pub liquidity_pool: u64,
    /// Lifetime counters; they only grow.
    pub total_burned: u64,
    pub total_mining_cycles: u64,
    pub total_volume: u64,
    pub total_rewards_distributed: u64,
    pub total_buyback_executed: u64,
    pub total_liquidity_added: u64,
    /// Balance each pool must reach before it can be flushed.
    pub reward_distribution_threshold: u64,
    pub buyback_threshold: u64,
    pub liquidity_threshold: u64,
    /// Unix timestamps.
    pub created_at: i64,
    pub last_reward_distribution: i64,
    pub last_buyback: i64,
    pub last_liquidity_add: i64,
    /// Bump of the record's derived address.
    pub bump: u8,
}

impl MineballState {
    /// Stored size of the record: discriminator, fields and padding.
    pub const LEN: usize = 8 + 32 + 32 + 8 + 2 + 2 + 2 + 2 + 2 + 8 + 8 + 8 + 8 + 8 + 8 + 8 + 8 + 8
        + 8 + 8 + 8 + 8 + 8 + 8 + 8 + 1 + 128;

    /// The tax policy that every accepted initialization sets up: a tax
    /// rate of at most `MAX_TAX_RATE` and four shares that make a whole.
    pub open spec fn wf(&self) -> bool {
        &&& self.tax_rate <= MAX_TAX_RATE
        &&& self.mining_reward_share + self.buyback_share + self.liquidity_share
            + self.burn_share == BASIS_POINTS
    }

    /// Whether the state holds a valid tax policy, as `wf` states it.
    pub fn has_valid_policy(&self) -> (r: bool)
        ensures
            r == self.wf(),
    {
        let shares: u32 = self.mining_reward_share as u32 + self.buyback_share as u32
            + self.liquidity_share as u32 + self.burn_share as u32;
        self.tax_rate <= MAX_TAX_RATE && shares == BASIS_POINTS as u32
    }
}

/// A holder's reward bookkeeping, created on the holder's first claim.
#[derive(Debug, Clone, Copy, PartialEq, Eq)]
pub struct HolderInfo {
    /// The holder's wallet address; all zero while the record is unfilled.
    pub holder: Pubkey,
    /// Sum of all rewards this holder has claimed.
    pub total_rewards_earned: u64,
    /// Time of the last claim; zero if the holder never claimed.
    pub last_claim: i64,
    /// Reserved; no instruction fills it.
    pub pending_rewards: u64,
    /// Bump of the record's derived address.
    pub bump: u8,
}

impl HolderInfo {
    /// Stored size of the record: discriminator, fields and padding.
    pub const LEN: usize = 8 + 32 + 8 + 8 + 8 + 1 + 64;
}

} // verus!
