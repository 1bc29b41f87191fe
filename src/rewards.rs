use vstd::prelude::*;

use crate::constants::MIN_CLAIM_INTERVAL;
use crate::errors::MineballError;
use crate::events::{RewardsClaimed, RewardsDistributed};
use crate::pubkey::Pubkey;
use crate::state::{HolderInfo, MineballState};

verus! {

/// What a reward distribution reads besides the protocol state.
#[derive(Debug, Clone, Copy, PartialEq, Eq)]
pub struct DistributeRewards {
    /// Current unix time.
    pub now: i64,
}

/// What the reward flush does to a state: the new state and its event, or
/// the error. It needs the pool at its threshold; the pool then goes to zero,
/// its balance moves into the distributed total and a mining cycle is counted.
pub open spec fn reward_flush(s: MineballState, now: i64) -> Result<
    (MineballState, RewardsDistributed),
    MineballError,
> {
    if s.mining_reward_pool < s.reward_distribution_threshold {
        Err(MineballError::RewardPoolBelowThreshold)
    } else if s.total_rewards_distributed + s.mining_reward_pool > u64::MAX
        || s.total_mining_cycles + 1 > u64::MAX {
        Err(MineballError::ArithmeticOverflow)
    } else {
        Ok(
            (
                MineballState {
                    total_rewards_distributed: (s.total_rewards_distributed
                        + s.mining_reward_pool) as u64,
                    mining_reward_pool: 0,
                    last_reward_distribution: now,
                    total_mining_cycles: (s.total_mining_cycles + 1) as u64,
                    ..s
                },
                RewardsDistributed {
                    cycle: (s.total_mining_cycles + 1) as u64,
                    amount: s.mining_reward_pool,
                    recipients: 0,
                    timestamp: now,
                },
            ),
        )
    }
}

/// Flushes the reward pool once it has reached its threshold. Fails with
/// `RewardPoolBelowThreshold` below it and with `ArithmeticOverflow` when a
/// counter would overflow; on failure the state is unchanged.
pub fn distribute_rewards(state: &mut MineballState, ctx: &DistributeRewards) -> (r: Result<
    RewardsDistributed,
    MineballError,
>)
    ensures
        match reward_flush(*old(state), ctx.now) {
            Ok((s2, ev)) => r == Ok::<RewardsDistributed, MineballError>(ev) && *final(state)
                == s2,
            Err(e) => r == Err::<RewardsDistributed, MineballError>(e) && *final(state) == *old(
                state,
            ),
        },
{
    if state.mining_reward_pool < state.reward_distribution_threshold {
        return Err(MineballError::RewardPoolBelowThreshold);
    }
    let amount = state.mining_reward_pool;
    let distributed = match state.total_rewards_distributed.checked_add(amount) {
        Some(v) => v,
        None => return Err(MineballError::ArithmeticOverflow),
    };
    let cycles = match state.total_mining_cycles.checked_add(1) {
        Some(v) => v,
        None => return Err(MineballError::ArithmeticOverflow),
    };
    state.total_rewards_distributed = distributed;
    state.mining_reward_pool = 0;
    state.last_reward_distribution = ctx.now;
    state.total_mining_cycles = cycles;
    Ok(RewardsDistributed { cycle: cycles, amount, recipients: 0, timestamp: ctx.now })
}

/// A reward flush succeeds only on a pool at its threshold; right after one
/// the pool reads zero and a second flush fails with
/// `RewardPoolBelowThreshold`, so a pool is never flushed twice.
pub proof fn lemma_reward_flush_once(s: MineballState, first: i64, second: i64)
    requires
        s.reward_distribution_threshold > 0,
    ensures
        reward_flush(s, first) is Ok ==> s.mining_reward_pool >= s.reward_distribution_threshold,
        match reward_flush(s, first) {
            Ok((s2, _)) => s2.mining_reward_pool == 0 && reward_flush(s2, second) == Err::<
                (MineballState, RewardsDistributed),
                MineballError,
            >(MineballError::RewardPoolBelowThreshold),
            Err(_) => true,
        },
{
}

/// What a reward claim reads: the claimant, the live balances and the time.
#[derive(Debug, Clone, Copy, PartialEq, Eq)]
pub struct ClaimRewards {
    /// The signer claiming.
    pub holder: Pubkey,
    /// The claimant's token balance.
    pub holder_balance: u64,
    /// The reward pool holding's live balance.
    pub reward_pool_balance: u64,
    /// The mint's current supply.
    pub mint_supply: u64,
    /// Current unix time.
    pub now: i64,
    /// Bump of the holder record's derived address, used if it is created.
    pub bump: u8,
}

/// `floor(pool * balance / supply)`, and zero for an empty supply.
pub open spec fn proportional_reward(pool: int, balance: int, supply: int) -> int {
    if supply > 0 {
        pool * balance / supply
    } else {
        0
    }
}

/// Whether at least `MIN_CLAIM_INTERVAL` seconds separate the last claim
/// from now.
pub open spec fn cooldown_elapsed(last_claim: i64, now: i64) -> bool {
    now - last_claim >= MIN_CLAIM_INTERVAL
}

/// The record a claim works on: a never-filled record is opened for the
/// claimant with nothing earned and no previous claim.
pub open spec fn opened_record(h: HolderInfo, ctx: ClaimRewards) -> HolderInfo {
    if h.holder.is_zero() {
        HolderInfo {
            holder: ctx.holder,
            total_rewards_earned: 0,
            last_claim: 0,
            pending_rewards: 0,
            bump: ctx.bump,
        }
    } else {
        h
    }
}

/// What a claim does to the holder's record: the new record and the event
/// whose amount the caller pays out of the reward pool, or the error.
pub open spec fn claim_outcome(h: HolderInfo, ctx: ClaimRewards) -> Result<
    (HolderInfo, RewardsClaimed),
    MineballError,
> {
    let h0 = opened_record(h, ctx);
    let reward = proportional_reward(
        ctx.reward_pool_balance as int,
        ctx.holder_balance as int,
        ctx.mint_supply as int,
    );
    if !cooldown_elapsed(h0.last_claim, ctx.now) {
        Err(MineballError::NoRewardsToClaim)
    } else if reward > u64::MAX {
        Err(MineballError::ArithmeticOverflow)
    } else if reward == 0 {
        Err(MineballError::NoRewardsToClaim)
    } else if h0.total_rewards_earned + reward > u64::MAX {
        Err(MineballError::ArithmeticOverflow)
    } else {
        Ok(
            (
                HolderInfo {
                    total_rewards_earned: (h0.total_rewards_earned + reward) as u64,
                    last_claim: ctx.now,
                    ..h0
                },
                RewardsClaimed { holder: ctx.holder, amount: reward as u64, timestamp: ctx.now },
            ),
        )
    }
}

/// Computes `floor(pool * balance / supply)` through a 128-bit intermediate,
/// and zero when the supply is zero. Fails with `ArithmeticOverflow` exactly
/// when the result does not fit in 64 bits.
pub fn reward_share(pool: u64, balance: u64, supply: u64) -> (r: Result<u64, MineballError>)
    ensures
        proportional_reward(pool as int, balance as int, supply as int) <= u64::MAX ==> r == Ok::<
            u64,
            MineballError,
        >(proportional_reward(pool as int, balance as int, supply as int) as u64),
        proportional_reward(pool as int, balance as int, supply as int) > u64::MAX ==> r == Err::<
            u64,
            MineballError,
        >(MineballError::ArithmeticOverflow),
{
    if supply == 0 {
        return Ok(0);
    }
    assert((pool as int) * (balance as int) <= u64::MAX as int * u64::MAX as int) by (nonlinear_arith);
    let product: u128 = (pool as u128) * (balance as u128);
    let share: u128 = product / (supply as u128);
    if share > u64::MAX as u128 {
        Err(MineballError::ArithmeticOverflow)
    } else {
        Ok(share as u64)
    }
}

/// Claims the holder's proportional share of the reward pool.
///
/// A never-filled record is first opened for the claimant. The claim fails
/// with `NoRewardsToClaim` while the cooldown runs or when the share is zero,
/// and with `ArithmeticOverflow` when the share or the earned total does not
/// fit; on failure the record is unchanged. On success the record counts the
/// reward and the claim time, and the event gives the amount to pay out.
///
/// The share is taken of the pool holding's live balance, which the payout
/// itself lowers; the state's `mining_reward_pool` counter is left alone and
/// only the reward flush resets it.
pub fn claim_rewards(holder_info: &mut HolderInfo, ctx: &ClaimRewards) -> (r: Result<
    RewardsClaimed,
    MineballError,
>)
    ensures
        match claim_outcome(*old(holder_info), *ctx) {
            Ok((h2, ev)) => r == Ok::<RewardsClaimed, MineballError>(ev) && *final(holder_info)
                == h2,
            Err(e) => r == Err::<RewardsClaimed, MineballError>(e) && *final(holder_info)
                == *old(holder_info),
        },
{
    let mut record = *holder_info;
    if record.holder.is_default() {
        record = HolderInfo {
            holder: ctx.holder,
            total_rewards_earned: 0,
            last_claim: 0,
            pending_rewards: 0,
            bump: ctx.bump,
        };
    }
    let elapsed: i128 = (ctx.now as i128) - (record.last_claim as i128);
    if elapsed < MIN_CLAIM_INTERVAL as i128 {
        return Err(MineballError::NoRewardsToClaim);
    }
    let reward = match reward_share(ctx.reward_pool_balance, ctx.holder_balance, ctx.mint_supply) {
        Ok(v) => v,
        Err(e) => return Err(e),
    };
    if reward == 0 {
        return Err(MineballError::NoRewardsToClaim);
    }
    let earned = match record.total_rewards_earned.checked_add(reward) {
        Some(v) => v,
        None => return Err(MineballError::ArithmeticOverflow),
    };
    record.total_rewards_earned = earned;
    record.last_claim = ctx.now;
    *holder_info = record;
    Ok(RewardsClaimed { holder: ctx.holder, amount: reward, timestamp: ctx.now })
}

/// A successful claim pays exactly `floor(pool * balance / supply)`, which is
/// positive, sets the last claim time to now and raises the earned total by
/// exactly the reward. A claim is rejected with `NoRewardsToClaim` when that
/// share is zero or fewer than `MIN_CLAIM_INTERVAL` seconds have passed since
/// the last claim.
pub proof fn lemma_claim_rules(h: HolderInfo, ctx: ClaimRewards)
    ensures
        ({
            let h0 = opened_record(h, ctx);
            let reward = proportional_reward(
                ctx.reward_pool_balance as int,
                ctx.holder_balance as int,
                ctx.mint_supply as int,
            );
            &&& match claim_outcome(h, ctx) {
                Ok((h2, ev)) => {
                    &&& ev.amount == reward
                    &&& ev.amount > 0
                    &&& h2.last_claim == ctx.now
                    &&& h2.total_rewards_earned == h0.total_rewards_earned + reward
                },
                Err(_) => true,
            }
            &&& reward == 0 ==> claim_outcome(h, ctx) == Err::<
                (HolderInfo, RewardsClaimed),
                MineballError,
            >(MineballError::NoRewardsToClaim)
            &&& ctx.now - h0.last_claim < MIN_CLAIM_INTERVAL ==> claim_outcome(h, ctx) == Err::<
                (HolderInfo, RewardsClaimed),
                MineballError,
            >(MineballError::NoRewardsToClaim)
        }),
{
}

} // verus!
