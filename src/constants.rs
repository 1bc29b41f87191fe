use vstd::prelude::*;

verus! {

/// Largest accepted tax rate in basis points (10%).
pub const MAX_TAX_RATE: u16 = 1000;

/// Basis points in a whole (100%).
pub const BASIS_POINTS: u16 = 10000;

/// Default reward distribution threshold (1M tokens with 6 decimals).
pub const DEFAULT_REWARD_THRESHOLD: u64 = 1_000_000_000_000;

/// Default buyback threshold (500K tokens with 6 decimals).
pub const DEFAULT_BUYBACK_THRESHOLD: u64 = 500_000_000_000;

/// Default liquidity threshold (500K tokens with 6 decimals).
pub const DEFAULT_LIQUIDITY_THRESHOLD: u64 = 500_000_000_000;

/// Minimum number of seconds between two claims of one holder (1 hour).
pub const MIN_CLAIM_INTERVAL: i64 = 3600;

} // verus!
