use vstd::prelude::*;

use crate::constants::{BASIS_POINTS, MAX_TAX_RATE};
use crate::errors::MineballError;
use crate::events::TransferWithTaxExecuted;
use crate::math::{bps_share, lemma_bps_share_bounds, lemma_shares_fit, split_bps};
use crate::pubkey::Pubkey;
use crate::state::MineballState;

verus! {

/// What a taxed transfer reads besides the protocol state.
#[derive(Debug, Clone, Copy, PartialEq, Eq)]
pub struct TransferWithTax {
    /// The signer sending the tokens.
    pub from: Pubkey,
    /// The owner of the receiving holding.
    pub to: Pubkey,
    /// Current unix time.
    pub now: i64,
}

/// How one transfer amount decomposes.
///
/// The caller moves `net` to the receiver and `mining`, `buyback` and
/// `liquidity` into their pools (skipping zero moves); `burn` stays with the
/// sender and is only counted.
#[derive(Debug, Clone, Copy, PartialEq, Eq)]
pub struct TaxSplit {
    pub amount: u64,
    pub tax: u64,
    pub net: u64,
    pub mining: u64,
    pub buyback: u64,
    pub liquidity: u64,
    pub burn: u64,
}

/// The result of an accepted taxed transfer: the split to carry out and the
/// event to emit.
#[derive(Debug, Clone, Copy, PartialEq, Eq)]
pub struct TaxTransfer {
    pub split: TaxSplit,
    pub event: TransferWithTaxExecuted,
}

/// Whether every checked step of the split fits: the tax and each share fit
/// in 64 bits, and neither `amount - tax` nor the burn remainder is negative.
pub open spec fn split_defined(amount: int, tax_rate: int, mining: int, buyback: int, liquidity: int) -> bool {
    let tax = bps_share(amount, tax_rate);
    &&& tax <= u64::MAX
    &&& tax <= amount
    &&& bps_share(tax, mining) <= u64::MAX
    &&& bps_share(tax, buyback) <= u64::MAX
    &&& bps_share(tax, liquidity) <= u64::MAX
    &&& tax - bps_share(tax, mining) - bps_share(tax, buyback) - bps_share(tax, liquidity) >= 0
}

/// The split of `amount`: the tax at `tax_rate`, the net rest, the three pool
/// shares of the tax, and the burn, which takes every rounding remainder.
pub open spec fn tax_split_of(amount: u64, tax_rate: u16, mining: u16, buyback: u16, liquidity: u16) -> TaxSplit {
    let tax = bps_share(amount as int, tax_rate as int);
    let m = bps_share(tax, mining as int);
    let b = bps_share(tax, buyback as int);
    let l = bps_share(tax, liquidity as int);
    TaxSplit {
        amount,
        tax: tax as u64,
        net: (amount - tax) as u64,
        mining: m as u64,
        buyback: b as u64,
        liquidity: l as u64,
        burn: (tax - m - b - l) as u64,
    }
}

/// Splits `amount` by a tax rate and three pool shares of the tax, all in
/// basis points. Fails with `ArithmeticOverflow` exactly when a checked step
/// does not fit.
pub fn compute_tax_split(amount: u64, tax_rate: u16, mining: u16, buyback: u16, liquidity: u16) -> (r: Result<TaxSplit, MineballError>)
    ensures
        split_defined(amount as int, tax_rate as int, mining as int, buyback as int, liquidity as int)
            ==> r == Ok::<TaxSplit, MineballError>(tax_split_of(amount, tax_rate, mining, buyback, liquidity)),
        !split_defined(amount as int, tax_rate as int, mining as int, buyback as int, liquidity as int)
            ==> r == Err::<TaxSplit, MineballError>(MineballError::ArithmeticOverflow),
{
    let tax = match split_bps(amount, tax_rate) {
        Ok(v) => v,
        Err(e) => return Err(e),
    };
    if tax > amount {
        return Err(MineballError::ArithmeticOverflow);
    }
    let net = amount - tax;
    let m = match split_bps(tax, mining) {
        Ok(v) => v,
        Err(e) => return Err(e),
    };
    let b = match split_bps(tax, buyback) {
        Ok(v) => v,
        Err(e) => return Err(e),
    };
    let l = match split_bps(tax, liquidity) {
        Ok(v) => v,
        Err(e) => return Err(e),
    };
    if m > tax || b > tax - m || l > tax - m - b {
        return Err(MineballError::ArithmeticOverflow);
    }
    let burn = tax - m - b - l;
    Ok(TaxSplit { amount, tax, net, mining: m, buyback: b, liquidity: l, burn })
}

/// With a tax rate of at most `MAX_TAX_RATE` and shares that make a whole,
/// the split of every amount is defined, and its net, three pool shares and
/// burn add up to the amount exactly: no dust is lost or created.
pub proof fn lemma_split_conserves_amount(
    amount: u64,
    tax_rate: u16,
    mining: u16,
    buyback: u16,
    liquidity: u16,
    burn: u16,
)
    requires
        tax_rate <= MAX_TAX_RATE,
        mining + buyback + liquidity + burn == BASIS_POINTS,
    ensures
        split_defined(amount as int, tax_rate as int, mining as int, buyback as int, liquidity as int),
        ({
            let sp = tax_split_of(amount, tax_rate, mining, buyback, liquidity);
            sp.net + sp.mining + sp.buyback + sp.liquidity + sp.burn == amount
        }),
{
    lemma_bps_share_bounds(amount as int, tax_rate as int);
    let tax = bps_share(amount as int, tax_rate as int);
    lemma_bps_share_bounds(tax, mining as int);
    lemma_bps_share_bounds(tax, buyback as int);
    lemma_bps_share_bounds(tax, liquidity as int);
    lemma_shares_fit(tax, mining as int, buyback as int, liquidity as int);
}

/// Whether the pools and counters can take the split without overflow.
pub open spec fn transfer_fits(s: MineballState, sp: TaxSplit) -> bool {
    &&& s.mining_reward_pool + sp.mining <= u64::MAX
    &&& s.buyback_pool + sp.buyback <= u64::MAX
    &&& s.liquidity_pool + sp.liquidity <= u64::MAX
    &&& s.total_burned + sp.burn <= u64::MAX
    &&& s.total_volume + sp.amount <= u64::MAX
}

/// The state after a taxed transfer: each pool grows by its share, the burn
/// counter by the burn and the volume by the whole pre-tax amount.
pub open spec fn state_after_transfer(s: MineballState, sp: TaxSplit) -> MineballState {
    MineballState {
        mining_reward_pool: (s.mining_reward_pool + sp.mining) as u64,
        buyback_pool: (s.buyback_pool + sp.buyback) as u64,
        liquidity_pool: (s.liquidity_pool + sp.liquidity) as u64,
        total_burned: (s.total_burned + sp.burn) as u64,
        total_volume: (s.total_volume + sp.amount) as u64,
        ..s
    }
}

/// What a taxed transfer of `amount` does to a state with a valid policy:
/// the new state and what it hands back, or the error.
pub open spec fn transfer_outcome(s: MineballState, ctx: TransferWithTax, amount: u64) -> Result<
    (MineballState, TaxTransfer),
    MineballError,
> {
    let sp = tax_split_of(
        amount,
        s.tax_rate,
        s.mining_reward_share,
        s.buyback_share,
        s.liquidity_share,
    );
    if amount == 0 {
        Err(MineballError::InvalidAmount)
    } else if !transfer_fits(s, sp) {
        Err(MineballError::ArithmeticOverflow)
    } else {
        Ok(
            (
                state_after_transfer(s, sp),
                TaxTransfer {
                    split: sp,
                    event: TransferWithTaxExecuted {
                        from: ctx.from,
                        to: ctx.to,
                        amount,
                        tax_amount: sp.tax,
                        timestamp: ctx.now,
                    },
                },
            ),
        )
    }
}

/// Taxes a transfer of `amount`: rejects a zero amount with `InvalidAmount`,
/// routes the three pool shares into their pools, counts the burn and the
/// volume, and fails with `ArithmeticOverflow`, changing nothing, when a
/// pool or counter would overflow.
pub fn transfer_with_tax(state: &mut MineballState, ctx: &TransferWithTax, amount: u64) -> (r: Result<TaxTransfer, MineballError>)
    requires
        old(state).wf(),
    ensures
        match transfer_outcome(*old(state), *ctx, amount) {
            Ok((s2, out)) => r == Ok::<TaxTransfer, MineballError>(out) && *final(state) == s2,
            Err(e) => r == Err::<TaxTransfer, MineballError>(e) && *final(state) == *old(state),
        },
{
    if amount == 0 {
        return Err(MineballError::InvalidAmount);
    }
    proof {
        lemma_split_conserves_amount(
            amount,
            state.tax_rate,
            state.mining_reward_share,
            state.buyback_share,
            state.liquidity_share,
            state.burn_share,
        );
    }
    let sp = match compute_tax_split(
        amount,
        state.tax_rate,
        state.mining_reward_share,
        state.buyback_share,
        state.liquidity_share,
    ) {
        Ok(sp) => sp,
        Err(e) => return Err(e),
    };
    let reward_pool = match state.mining_reward_pool.checked_add(sp.mining) {
        Some(v) => v,
        None => return Err(MineballError::ArithmeticOverflow),
    };
    let buyback_pool = match state.buyback_pool.checked_add(sp.buyback) {
        Some(v) => v,
        None => return Err(MineballError::ArithmeticOverflow),
    };
    let liquidity_pool = match state.liquidity_pool.checked_add(sp.liquidity) {
        Some(v) => v,
        None => return Err(MineballError::ArithmeticOverflow),
    };
    let burned = match state.total_burned.checked_add(sp.burn) {
        Some(v) => v,
        None => return Err(MineballError::ArithmeticOverflow),
    };
    let volume = match state.total_volume.checked_add(amount) {
        Some(v) => v,
        None => return Err(MineballError::ArithmeticOverflow),
    };
    state.mining_reward_pool = reward_pool;
    state.buyback_pool = buyback_pool;
    state.liquidity_pool = liquidity_pool;
    state.total_burned = burned;
    state.total_volume = volume;
    let event = TransferWithTaxExecuted {
        from: ctx.from,
        to: ctx.to,
        amount,
        tax_amount: sp.tax,
        timestamp: ctx.now,
    };
    Ok(TaxTransfer { split: sp, event })
}

} // verus!
