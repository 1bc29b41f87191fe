//! Tokenomics controller for a taxed fungible token.
//!
//! Every transfer pays a tax in basis points. The tax is split into a
//! mining-reward share, a buyback share and a liquidity share, and whatever
//! rounding leaves over is burned. Each of the three pools is flushed once it
//! reaches its threshold, and holders claim a share of the reward pool in
//! proportion to their balance, at most once per cooldown window.
//!
//! Every instruction is a verified transition over plain values: it either
//! returns the new state together with the event it emits, or returns an
//! error and leaves the state exactly as it was.
pub mod buyback;
pub mod constants;
pub mod errors;
pub mod events;
pub mod initialize;
pub mod invariants;
pub mod liquidity;
pub mod math;
pub mod pubkey;
pub mod rewards;
pub mod state;
pub mod transfer;

pub use buyback::{execute_buyback, ExecuteBuyback};
pub use constants::{
    BASIS_POINTS, DEFAULT_BUYBACK_THRESHOLD, DEFAULT_LIQUIDITY_THRESHOLD,
    DEFAULT_REWARD_THRESHOLD, MAX_TAX_RATE, MIN_CLAIM_INTERVAL,
};
pub use errors::MineballError;
pub use events::{
    BuybackExecuted, LiquidityAdded, MiningCycleCompleted, RewardsClaimed, RewardsDistributed,
    TransferWithTaxExecuted,
};
pub use initialize::{initialize, Initialize};
pub use liquidity::{add_liquidity, AddLiquidity};
pub use math::split_bps;
pub use pubkey::Pubkey;
pub use rewards::{
    claim_rewards, distribute_rewards, reward_share, ClaimRewards, DistributeRewards,
};
pub use state::{HolderInfo, MineballState};
pub use transfer::{
    compute_tax_split, transfer_with_tax, TaxSplit, TaxTransfer, TransferWithTax,
};
