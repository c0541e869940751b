//! The fee split of a settled amount.
use vstd::prelude::*;

verus! {

/// One hundred percent, in basis points.
pub const MAX_FEE_BPS: u32 = 10000;

/// The fee owed on `amount` at `fee_bps` basis points: the exact share,
/// truncated toward zero.
pub open spec fn fee_of(amount: int, fee_bps: int) -> int {
    amount * fee_bps / 10000
}

/// Splits `amount` into `(fee_amount, net_amount)` at `fee_bps` basis points.
/// The fee truncates toward zero and the net amount takes the remainder, so
/// nothing is created or lost; no intermediate product can overflow.
pub fn split_amount(amount: i128, fee_bps: u32) -> (r: (i128, i128))
    requires
        amount >= 0,
        fee_bps <= MAX_FEE_BPS,
    ensures
        r.0 == fee_of(amount as int, fee_bps as int),
        r.0 + r.1 == amount,
        0 <= r.0 <= amount,
        0 <= r.1 <= amount,
{
    let whole: i128 = amount / 10000;
    let rest: i128 = amount % 10000;
    let bps: i128 = fee_bps as i128;
    proof {
        lemma_split_fee(amount as int, fee_bps as int);
    }
    let fee: i128 = whole * bps + (rest * bps) / 10000;
    (fee, amount - fee)
}

pub proof fn lemma_split_fee(amount: int, bps: int)
    requires
        amount >= 0,
        0 <= bps <= 10000,
    ensures
        (amount / 10000) * bps + ((amount % 10000) * bps) / 10000 == fee_of(amount, bps),
        0 <= fee_of(amount, bps) <= amount,
        (amount / 10000) * bps <= amount,
        (amount % 10000) * bps <= 10000 * 10000,
{
    let q = amount / 10000;
    let r = amount % 10000;
    assert(amount == q * 10000 + r && 0 <= r < 10000 && q >= 0) by {
        vstd::arithmetic::div_mod::lemma_fundamental_div_mod(amount, 10000);
        vstd::arithmetic::div_mod::lemma_mod_bound(amount, 10000);
        vstd::arithmetic::div_mod::lemma_div_pos_is_pos(amount, 10000);
    }
    assert(amount * bps == (q * bps) * 10000 + r * bps) by (nonlinear_arith)
        requires amount == q * 10000 + r;
    assert(((q * bps) * 10000 + r * bps) / 10000 == q * bps + (r * bps) / 10000) by {
        vstd::arithmetic::div_mod::lemma_hoist_over_denominator(r * bps, q * bps, 10000);
        assert(r * bps + (q * bps) * 10000 == (q * bps) * 10000 + r * bps);
    }
    assert(0 <= amount * bps / 10000 <= amount) by (nonlinear_arith)
        requires amount >= 0, 0 <= bps <= 10000;
    assert(q * bps <= amount) by (nonlinear_arith)
        requires amount == q * 10000 + r, 0 <= r, q >= 0, 0 <= bps <= 10000;
    assert(r * bps <= 10000 * 10000) by (nonlinear_arith)
        requires 0 <= r < 10000, 0 <= bps <= 10000;
}

} // verus!
