use vstd::prelude::*;

use crate::errors::MineballError;
use crate::events::LiquidityAdded;
use crate::state::MineballState;

verus! {

/// What a liquidity addition reads besides the protocol state.
#[derive(Debug, Clone, Copy, PartialEq, Eq)]
pub struct AddLiquidity {
    /// Current unix time.
    pub now: i64,
}

/// What the liquidity flush does to a state: the new state and its event, or
/// the error. It needs the pool at its threshold; the pool then goes to zero
/// and its balance moves into the liquidity total. Providing the liquidity is
/// left to an exchange outside this library, which is handed `amount`.
pub open spec fn liquidity_flush(s: MineballState, now: i64) -> Result<
    (MineballState, LiquidityAdded),
    MineballError,
> {
    if s.liquidity_pool < s.liquidity_threshold {
        Err(MineballError::LiquidityPoolBelowThreshold)
    } else if s.total_liquidity_added + s.liquidity_pool > u64::MAX {
        Err(MineballError::ArithmeticOverflow)
    } else {
        Ok(
            (
                MineballState {
                    total_liquidity_added: (s.total_liquidity_added + s.liquidity_pool) as u64,
                    liquidity_pool: 0,
                    last_liquidity_add: now,
                    ..s
                },
                LiquidityAdded {
                    cycle: s.total_mining_cycles,
                    amount: s.liquidity_pool,
                    timestamp: now,
                },
            ),
        )
    }
}

/// Flushes the liquidity pool once it has reached its threshold. Fails with
/// `LiquidityPoolBelowThreshold` below it and with `ArithmeticOverflow` when
/// the total would overflow; on failure the state is unchanged.
pub fn add_liquidity(state: &mut MineballState, ctx: &AddLiquidity) -> (r: Result<
    LiquidityAdded,
    MineballError,
>)
    ensures
        match liquidity_flush(*old(state), ctx.now) {
            Ok((s2, ev)) => r == Ok::<LiquidityAdded, MineballError>(ev) && *final(state) == s2,
            Err(e) => r == Err::<LiquidityAdded, MineballError>(e) && *final(state) == *old(
                state,
            ),
        },
{
    if state.liquidity_pool < state.liquidity_threshold {
        return Err(MineballError::LiquidityPoolBelowThreshold);
    }
    let amount = state.liquidity_pool;
    let added = match state.total_liquidity_added.checked_add(amount) {
        Some(v) => v,
        None => return Err(MineballError::ArithmeticOverflow),
    };
    state.total_liquidity_added = added;
    state.liquidity_pool = 0;
    state.last_liquidity_add = ctx.now;
    Ok(LiquidityAdded { cycle: state.total_mining_cycles, amount, timestamp: ctx.now })
}

/// A liquidity flush succeeds only on a pool at its threshold; right after
/// one the pool reads zero and a second flush fails with
/// `LiquidityPoolBelowThreshold`, so a pool is never flushed twice.
pub proof fn lemma_liquidity_flush_once(s: MineballState, first: i64, second: i64)
    requires
        s.liquidity_threshold > 0,
    ensures
        liquidity_flush(s, first) is Ok ==> s.liquidity_pool >= s.liquidity_threshold,
        match liquidity_flush(s, first) {
            Ok((s2, _)) => s2.liquidity_pool == 0 && liquidity_flush(s2, second) == Err::<
                (MineballState, LiquidityAdded),
                MineballError,
            >(MineballError::LiquidityPoolBelowThreshold),
            Err(_) => true,
        },
{
}

} // verus!
