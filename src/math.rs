use vstd::prelude::*;

use crate::errors::MineballError;

verus! {

/// `floor(amount * rate_bps / 10000)`: the part of `amount` that a rate in
/// basis points stands for.
pub open spec fn bps_share(amount: int, rate_bps: int) -> int {
    amount * rate_bps / 10000
}

/// A share of an amount never exceeds the amount when the rate is at most
/// a whole, and is never negative.
pub proof fn lemma_bps_share_bounds(amount: int, rate_bps: int)
    requires
        0 <= amount,
        0 <= rate_bps <= 10000,
    ensures
        0 <= bps_share(amount, rate_bps) <= amount,
{
    assert(0 <= amount * rate_bps <= amount * 10000) by (nonlinear_arith)
        requires
            0 <= amount,
            0 <= rate_bps <= 10000,
    ;
}

/// Three shares of one amount whose rates sum to at most a whole take no
/// more than the amount together.
pub proof fn lemma_shares_fit(amount: int, a: int, b: int, c: int)
    requires
        0 <= amount,
        0 <= a,
        0 <= b,
        0 <= c,
        a + b + c <= 10000,
    ensures
        bps_share(amount, a) + bps_share(amount, b) + bps_share(amount, c) <= amount,
{
    let x = amount * a;
    let y = amount * b;
    let z = amount * c;
    assert(x + y + z <= amount * 10000) by (nonlinear_arith)
        requires
            0 <= amount,
            0 <= a,
            0 <= b,
            0 <= c,
            a + b + c <= 10000,
            x == amount * a,
            y == amount * b,
            z == amount * c,
    ;
    assert((x / 10000) * 10000 <= x) by (nonlinear_arith);
    assert((y / 10000) * 10000 <= y) by (nonlinear_arith);
    assert((z / 10000) * 10000 <= z) by (nonlinear_arith);
}

/// Computes `floor(amount * rate_bps / 10000)` through a 128-bit intermediate.
/// Fails with `ArithmeticOverflow` exactly when the result does not fit in
/// 64 bits, which needs a rate above a whole.
pub fn split_bps(amount: u64, rate_bps: u16) -> (r: Result<u64, MineballError>)
    ensures
        bps_share(amount as int, rate_bps as int) <= u64::MAX ==> r == Ok::<u64, MineballError>(
            bps_share(amount as int, rate_bps as int) as u64,
        ),
        bps_share(amount as int, rate_bps as int) > u64::MAX ==> r == Err::<u64, MineballError>(
            MineballError::ArithmeticOverflow,
        ),
{
    assert((amount as int) * (rate_bps as int) <= u64::MAX as int * u16::MAX as int) by (nonlinear_arith);
    let product: u128 = (amount as u128) * (rate_bps as u128);
    let share: u128 = product / 10000;
    if share > u64::MAX as u128 {
        Err(MineballError::ArithmeticOverflow)
    } else {
        Ok(share as u64)
    }
}

} // verus!
