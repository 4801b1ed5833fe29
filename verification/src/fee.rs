use vstd::arithmetic::div_mod::{
    lemma_div_by_multiple, lemma_div_is_ordered, lemma_fundamental_div_mod,
    lemma_hoist_over_denominator,
};
use vstd::prelude::*;

verus! {

/// The fee owed on `amount` at a rate of `fee_bps` basis points:
/// `floor(amount * fee_bps / 10000)`.
pub open spec fn fee_of(amount: int, fee_bps: int) -> int {
    amount * fee_bps / 10000
}

/// Basis-point fee split, computed without overflow for the whole supported
/// amount range: `amount * fee_bps` is rewritten as
/// `10000 * (q * fee_bps) + rem * fee_bps` with `q = amount / 10000` and
/// `rem = amount % 10000`, so every intermediate product stays within `i128`.
pub fn calc_fee(amount: i128, fee_bps: u32) -> (r: i128)
    requires
        0 <= amount,
        fee_bps <= 10000,
    ensures
        r == fee_of(amount as int, fee_bps as int),
        0 <= r <= amount,
{
    let q: i128 = amount / 10000;
    let rem: i128 = amount % 10000;
    let bps: i128 = fee_bps as i128;
    proof {
        lemma_fundamental_div_mod(amount as int, 10000);
        assert(0 <= q * bps <= q * 10000) by (nonlinear_arith)
            requires
                q >= 0,
                0 <= bps <= 10000,
        ;
        assert(0 <= rem * bps <= rem * 10000) by (nonlinear_arith)
            requires
                rem >= 0,
                0 <= bps <= 10000,
        ;
    }
    let hi: i128 = q * bps;
    let lo: i128 = (rem * bps) / 10000;
    proof {
        lemma_div_is_ordered(rem * bps, rem * 10000, 10000);
        lemma_div_by_multiple(rem as int, 10000);
        assert(amount * bps == 10000 * (q * bps) + rem * bps) by (nonlinear_arith)
            requires
                amount == 10000 * q + rem,
        ;
        lemma_hoist_over_denominator(rem * bps, q * bps, 10000);
    }
    hi + lo
}

/// Value conservation: for any positive amount and any admissible fee rate,
/// the fee lies between zero and the amount, and the streamer's share plus
/// the fee add back up to the amount exactly.
pub proof fn lemma_fee_bound(amount: int, fee_bps: int)
    requires
        0 <= fee_bps <= 10000,
        0 < amount,
    ensures
        0 <= fee_of(amount, fee_bps) <= amount,
        (amount - fee_of(amount, fee_bps)) + fee_of(amount, fee_bps) == amount,
{
    assert(0 <= amount * fee_bps <= amount * 10000) by (nonlinear_arith)
        requires
            0 < amount,
            0 <= fee_bps <= 10000,
    ;
    lemma_div_is_ordered(0, amount * fee_bps, 10000);
    lemma_div_is_ordered(amount * fee_bps, amount * 10000, 10000);
    lemma_div_by_multiple(amount, 10000);
}

/// Zero-fee rate: at `fee_bps == 0` the fee is exactly zero, so a tip owes
/// the platform nothing and the streamer receives the full amount.
pub proof fn lemma_zero_fee(amount: int)
    ensures
        fee_of(amount, 0) == 0,
{
}

} // verus!
