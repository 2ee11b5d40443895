//! Integer arithmetic helpers with the rounding of Rust's `i128` division.
use vstd::prelude::*;

verus! {

/// Division of `x` by a positive `d`, rounded toward zero as Rust's
/// integer division rounds.
pub open spec fn trunc_div(x: int, d: int) -> int
    recommends
        d > 0,
{
    if x >= 0 {
        x / d
    } else {
        -((-x) / d)
    }
}

/// `pct` percent of `value`, rounded toward zero.
pub open spec fn percent_of(value: int, pct: int) -> int {
    trunc_div(value * pct, 100)
}

/// Whether `x` fits in an `i128`.
pub open spec fn fits_i128(x: int) -> bool {
    i128::MIN <= x <= i128::MAX
}

/// Divides by a positive divisor, rounding toward zero.
pub fn div_toward_zero(x: i128, d: i128) -> (r: i128)
    requires
        d > 0,
    ensures
        r == trunc_div(x as int, d as int),
{
    match x.checked_div(d) {
        Some(q) => q,
        None => {
            proof {
                assert(false);
            }
            0
        },
    }
}

/// Checked arithmetic on `i128` amounts.
pub struct SafeMath;

impl SafeMath {
    /// `a + b`.
    pub fn add(a: i128, b: i128) -> (r: i128)
        requires
            fits_i128(a + b),
        ensures
            r == a + b,
    {
        a + b
    }

    /// `a - b`.
    pub fn sub(a: i128, b: i128) -> (r: i128)
        requires
            fits_i128(a - b),
        ensures
            r == a - b,
    {
        a - b
    }

    /// `a * b`.
    pub fn mul(a: i128, b: i128) -> (r: i128)
        requires
            fits_i128(a * b),
        ensures
            r == a * b,
    {
        a * b
    }

    /// `pct` percent of `value`, rounded toward zero.
    pub fn percent(value: i128, pct: u32) -> (r: i128)
        requires
            fits_i128(value * pct),
        ensures
            r == percent_of(value as int, pct as int),
    {
        let scaled = Self::mul(value, pct as i128);
        div_toward_zero(scaled, 100)
    }

    /// The penalty charged on `amount` at `penalty_percent` percent.
    pub fn penalty_amount(amount: i128, penalty_percent: u32) -> (r: i128)
        requires
            fits_i128(amount * penalty_percent),
        ensures
            r == percent_of(amount as int, penalty_percent as int),
    {
        Self::percent(amount, penalty_percent)
    }

    /// What is left of `amount` once the penalty at `penalty_percent` percent
    /// is taken.
    pub fn apply_penalty(amount: i128, penalty_percent: u32) -> (r: i128)
        requires
            fits_i128(amount * penalty_percent),
            fits_i128(amount - percent_of(amount as int, penalty_percent as int)),
        ensures
            r == amount - percent_of(amount as int, penalty_percent as int),
    {
        let penalty = Self::penalty_amount(amount, penalty_percent);
        Self::sub(amount, penalty)
    }
}

/// Early exit conserves value: the penalty and the amount returned add up
/// to the amount, and for a non-negative amount and a percentage from 0 to
/// 100 both parts lie between zero and the amount.
pub proof fn lemma_penalty_split(amount: int, penalty_percent: int)
    requires
        amount >= 0,
        0 <= penalty_percent <= 100,
    ensures
        percent_of(amount, penalty_percent) + (amount - percent_of(amount, penalty_percent)) == amount,
        0 <= percent_of(amount, penalty_percent) <= amount,
        0 <= amount - percent_of(amount, penalty_percent) <= amount,
{
    assert(0 <= amount * penalty_percent <= amount * 100) by (nonlinear_arith)
        requires
            amount >= 0,
            0 <= penalty_percent <= 100,
    ;
}

} // verus!
