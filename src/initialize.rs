use vstd::prelude::*;

use crate::constants::{
    BASIS_POINTS, DEFAULT_BUYBACK_THRESHOLD, DEFAULT_LIQUIDITY_THRESHOLD, DEFAULT_REWARD_THRESHOLD,
    MAX_TAX_RATE,
};
use crate::errors::MineballError;
use crate::pubkey::Pubkey;
use crate::state::MineballState;

verus! {

/// What setting the protocol up reads besides the policy.
#[derive(Debug, Clone, Copy, PartialEq, Eq)]
pub struct Initialize {
    /// The signer setting the protocol up.
    pub authority: Pubkey,
    /// The taxed token's mint.
    pub mint: Pubkey,
    /// The mint's supply at set-up time.
    pub mint_supply: u64,
    /// Current unix time.
    pub now: i64,
    /// Bump of the state record's derived address.
    pub bump: u8,
}

/// The state that an accepted initialization creates: the given policy, all
/// pools and counters at zero, the default thresholds, every timestamp now.
pub open spec fn fresh_state(
    ctx: Initialize,
    tax_rate: u16,
    mining_reward_share: u16,
    buyback_share: u16,
    liquidity_share: u16,
    burn_share: u16,
) -> MineballState {
    MineballState {
        authority: ctx.authority,
        mint: ctx.mint,
        total_supply: ctx.mint_supply,
        tax_rate,
        mining_reward_share,
        buyback_share,
        liquidity_share,
        burn_share,
        mining_reward_pool: 0,
        buyback_pool: 0,
        liquidity_pool: 0,
        total_burned: 0,
        total_mining_cycles: 0,
        total_volume: 0,
        total_rewards_distributed: 0,
        total_buyback_executed: 0,
        total_liquidity_added: 0,
        reward_distribution_threshold: DEFAULT_REWARD_THRESHOLD,
        buyback_threshold: DEFAULT_BUYBACK_THRESHOLD,
        liquidity_threshold: DEFAULT_LIQUIDITY_THRESHOLD,
        created_at: ctx.now,
        last_reward_distribution: ctx.now,
        last_buyback: ctx.now,
        last_liquidity_add: ctx.now,
        bump: ctx.bump,
    }
}

/// Sets the protocol up with a tax rate and the four shares of the tax.
///
/// Fails with `InvalidTaxRate` when the rate is above `MAX_TAX_RATE`; then
/// with `ArithmeticOverflow` when the shares' sum does not fit in 16 bits;
/// then with `InvalidTaxShares` when it is not `BASIS_POINTS`. It succeeds
/// exactly on a valid policy, and the state it creates is well formed.
pub fn initialize(
    ctx: &Initialize,
    tax_rate: u16,
    mining_reward_share: u16,
    buyback_share: u16,
    liquidity_share: u16,
    burn_share: u16,
) -> (r: Result<MineballState, MineballError>)
    ensures
        r is Ok <==> (tax_rate <= MAX_TAX_RATE && mining_reward_share + buyback_share
            + liquidity_share + burn_share == BASIS_POINTS),
        tax_rate > MAX_TAX_RATE ==> r == Err::<MineballState, MineballError>(
            MineballError::InvalidTaxRate,
        ),
        tax_rate <= MAX_TAX_RATE && mining_reward_share + buyback_share + liquidity_share
            + burn_share > u16::MAX ==> r == Err::<MineballState, MineballError>(
            MineballError::ArithmeticOverflow,
        ),
        tax_rate <= MAX_TAX_RATE && mining_reward_share + buyback_share + liquidity_share
            + burn_share <= u16::MAX && mining_reward_share + buyback_share + liquidity_share
            + burn_share != BASIS_POINTS ==> r == Err::<MineballState, MineballError>(
            MineballError::InvalidTaxShares,
        ),
        r is Ok ==> r == Ok::<MineballState, MineballError>(
            fresh_state(
                *ctx,
                tax_rate,
                mining_reward_share,
                buyback_share,
                liquidity_share,
                burn_share,
            ),
        ) && r->Ok_0.wf(),
{
    if tax_rate > MAX_TAX_RATE {
        return Err(MineballError::InvalidTaxRate);
    }
    let total_shares = match mining_reward_share.checked_add(buyback_share) {
        Some(s) => match s.checked_add(liquidity_share) {
            Some(s) => match s.checked_add(burn_share) {
                Some(s) => s,
                None => return Err(MineballError::ArithmeticOverflow),
            },
            None => return Err(MineballError::ArithmeticOverflow),
        },
        None => return Err(MineballError::ArithmeticOverflow),
    };
    if total_shares != BASIS_POINTS {
        return Err(MineballError::InvalidTaxShares);
    }
    Ok(
        MineballState {
            authority: ctx.authority,
            mint: ctx.mint,
            total_supply: ctx.mint_supply,
            tax_rate,
            mining_reward_share,
            buyback_share,
            liquidity_share,
            burn_share,
            mining_reward_pool: 0,
            buyback_pool: 0,
            liquidity_pool: 0,
            total_burned: 0,
            total_mining_cycles: 0,
            total_volume: 0,
            total_rewards_distributed: 0,
            total_buyback_executed: 0,
            total_liquidity_added: 0,
            reward_distribution_threshold: DEFAULT_REWARD_THRESHOLD,
            buyback_threshold: DEFAULT_BUYBACK_THRESHOLD,
            liquidity_threshold: DEFAULT_LIQUIDITY_THRESHOLD,
            created_at: ctx.now,
            last_reward_distribution: ctx.now,
            last_buyback: ctx.now,
            last_liquidity_add: ctx.now,
            bump: ctx.bump,
        },
    )
}

} // verus!
