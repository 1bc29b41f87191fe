use vstd::prelude::*;

use crate::errors::MineballError;
use crate::events::BuybackExecuted;
use crate::state::MineballState;

verus! {

/// What a buyback reads besides the protocol state.
#[derive(Debug, Clone, Copy, PartialEq, Eq)]
pub struct ExecuteBuyback {
    /// Current unix time.
    pub now: i64,
}

/// What the buyback flush does to a state: the new state and its event, or
/// the error. It needs the pool at its threshold; the pool then goes to zero
/// and its balance moves into the buyback total.
///
/// The swap itself is left to an exchange outside this library, which is
/// handed `amount`; until one is wired in, `tokens_bought` reports the amount
/// spent one for one, a placeholder rather than a market quote.
pub open spec fn buyback_flush(s: MineballState, now: i64) -> Result<
    (MineballState, BuybackExecuted),
    MineballError,
> {
    if s.buyback_pool < s.buyback_threshold {
        Err(MineballError::BuybackPoolBelowThreshold)
    } else if s.total_buyback_executed + s.buyback_pool > u64::MAX {
        Err(MineballError::ArithmeticOverflow)
    } else {
        Ok(
            (
                MineballState {
                    total_buyback_executed: (s.total_buyback_executed + s.buyback_pool) as u64,
                    buyback_pool: 0,
                    last_buyback: now,
                    ..s
                },
                BuybackExecuted {
                    cycle: s.total_mining_cycles,
                    amount: s.buyback_pool,
                    tokens_bought: s.buyback_pool,
                    timestamp: now,
                },
            ),
        )
    }
}

/// Flushes the buyback pool once it has reached its threshold. Fails with
/// `BuybackPoolBelowThreshold` below it and with `ArithmeticOverflow` when
/// the total would overflow; on failure the state is unchanged.
pub fn execute_buyback(state: &mut MineballState, ctx: &ExecuteBuyback) -> (r: Result<
    BuybackExecuted,
    MineballError,
>)
    ensures
        match buyback_flush(*old(state), ctx.now) {
            Ok((s2, ev)) => r == Ok::<BuybackExecuted, MineballError>(ev) && *final(state) == s2,
            Err(e) => r == Err::<BuybackExecuted, MineballError>(e) && *final(state) == *old(
                state,
            ),
        },
{
    if state.buyback_pool < state.buyback_threshold {
        return Err(MineballError::BuybackPoolBelowThreshold);
    }
    let amount = state.buyback_pool;
    let tokens_bought = amount;
    let executed = match state.total_buyback_executed.checked_add(amount) {
        Some(v) => v,
        None => return Err(MineballError::ArithmeticOverflow),
    };
    state.total_buyback_executed = executed;
    state.buyback_pool = 0;
    state.last_buyback = ctx.now;
    Ok(
        BuybackExecuted {
            cycle: state.total_mining_cycles,
            amount,
            tokens_bought,
            timestamp: ctx.now,
        },
    )
}

/// A buyback flush succeeds only on a pool at its threshold; right after one
/// the pool reads zero and a second flush fails with
/// `BuybackPoolBelowThreshold`, so a pool is never flushed twice.
pub proof fn lemma_buyback_flush_once(s: MineballState, first: i64, second: i64)
    requires
        s.buyback_threshold > 0,
    ensures
        buyback_flush(s, first) is Ok ==> s.buyback_pool >= s.buyback_threshold,
        match buyback_flush(s, first) {
            Ok((s2, _)) => s2.buyback_pool == 0 && buyback_flush(s2, second) == Err::<
                (MineballState, BuybackExecuted),
                MineballError,
            >(MineballError::BuybackPoolBelowThreshold),
            Err(_) => true,
        },
{
}

} // verus!
