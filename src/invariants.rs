use vstd::prelude::*;

use crate::buyback::buyback_flush;
use crate::liquidity::liquidity_flush;
use crate::rewards::reward_flush;
use crate::state::MineballState;
use crate::transfer::{transfer_outcome, TransferWithTax};

verus! {

/// The policy fixed at initialization is the same in both states: tax rate,
/// shares, thresholds and identity.
pub open spec fn same_policy(before: MineballState, after: MineballState) -> bool {
    &&& after.authority == before.authority
    &&& after.mint == before.mint
    &&& after.total_supply == before.total_supply
    &&& after.tax_rate == before.tax_rate
    &&& after.mining_reward_share == before.mining_reward_share
    &&& after.buyback_share == before.buyback_share
    &&& after.liquidity_share == before.liquidity_share
    &&& after.burn_share == before.burn_share
    &&& after.reward_distribution_threshold == before.reward_distribution_threshold
    &&& after.buyback_threshold == before.buyback_threshold
    &&& after.liquidity_threshold == before.liquidity_threshold
    &&& after.created_at == before.created_at
    &&& after.bump == before.bump
}

/// No lifetime counter is smaller in `after` than in `before`.
pub open spec fn counters_no_smaller(before: MineballState, after: MineballState) -> bool {
    &&& after.total_burned >= before.total_burned
    &&& after.total_mining_cycles >= before.total_mining_cycles
    &&& after.total_volume >= before.total_volume
    &&& after.total_rewards_distributed >= before.total_rewards_distributed
    &&& after.total_buyback_executed >= before.total_buyback_executed
    &&& after.total_liquidity_added >= before.total_liquidity_added
}

/// Every instruction that changes the protocol state keeps its policy, so a
/// well-formed state stays well formed, and never lowers a lifetime counter.
pub proof fn lemma_instructions_keep_policy_and_counters(
    s: MineballState,
    request: TransferWithTax,
    amount: u64,
    now: i64,
)
    requires
        s.wf(),
    ensures
        match transfer_outcome(s, request, amount) {
            Ok((s2, _)) => same_policy(s, s2) && s2.wf() && counters_no_smaller(s, s2),
            Err(_) => true,
        },
        match reward_flush(s, now) {
            Ok((s2, _)) => same_policy(s, s2) && s2.wf() && counters_no_smaller(s, s2),
            Err(_) => true,
        },
        match buyback_flush(s, now) {
            Ok((s2, _)) => same_policy(s, s2) && s2.wf() && counters_no_smaller(s, s2),
            Err(_) => true,
        },
        match liquidity_flush(s, now) {
            Ok((s2, _)) => same_policy(s, s2) && s2.wf() && counters_no_smaller(s, s2),
            Err(_) => true,
        },
{
}

} // verus!
