//! The arithmetic of proportional fulfillment.
//!
//! A partial fulfillment that pays `e` of the counter-asset against a
//! record still owing `b` releases `round(e / b * a)` of the deposited
//! asset, where `a` is the deposit remaining: division rounded to the
//! nearest whole unit, halves away from zero.

use vstd::prelude::*;
use vstd::arithmetic::div_mod::lemma_fundamental_div_mod;
use vstd::arithmetic::div_mod::lemma_mod_bound;

verus! {

/// `n / d` rounded to the nearest integer, halves rounded up.
pub open spec fn round_div(n: int, d: int) -> int
    recommends
        n >= 0,
        d >= 1,
{
    if 2 * (n % d) >= d {
        n / d + 1
    } else {
        n / d
    }
}

/// The deposit released by a partial fulfillment: `e * a / b` rounded to
/// the nearest whole unit.
pub open spec fn proportional_share(e: int, a: int, b: int) -> int
    recommends
        e >= 0,
        a >= 0,
        b >= 1,
{
    round_div(e * a, b)
}

/// Computes the deposit released when a taker pays `exchange_amount` of
/// the counter-asset against a record owing `taker_amount` of it, with
/// `initializer_amount` of the deposit remaining.
///
/// A partial payment is strictly below the amount owed, which keeps the
/// released share at or below the deposit remaining.
pub fn taker_receive_amount(exchange_amount: u64, initializer_amount: u64, taker_amount: u64) -> (r: u64)
    requires
        taker_amount >= 1,
        exchange_amount < taker_amount,
    ensures
        r == proportional_share(exchange_amount as int, initializer_amount as int, taker_amount as int),
        r <= initializer_amount,
{
    let e = exchange_amount as u128;
    let a = initializer_amount as u128;
    let b = taker_amount as u128;
    proof {
        assert(e * a <= u64::MAX as u128 * u64::MAX as u128) by (nonlinear_arith)
            requires
                e <= u64::MAX as u128,
                a <= u64::MAX as u128,
        ;
        lemma_proportional_share_bounds(e as int, a as int, b as int);
    }
    let n = e * a;
    let q = n / b;
    let rem = n % b;
    let r = if 2 * rem >= b { q + 1 } else { q };
    r as u64
}

/// The rounded share of a partial fulfillment never exceeds the deposit
/// remaining: with `e` strictly below `b`, `round(e * a / b)` lies
/// between `0` and `a`.
pub proof fn lemma_proportional_share_bounds(e: int, a: int, b: int)
    requires
        a >= 0,
        b >= 1,
        0 <= e < b,
    ensures
        0 <= proportional_share(e, a, b) <= a,
{
    let n = e * a;
    assert(n >= 0) by (nonlinear_arith)
        requires
            n == e * a,
            e >= 0,
            a >= 0,
    ;
    lemma_fundamental_div_mod(n, b);
    lemma_mod_bound(n, b);
    let q = n / b;
    let rem = n % b;
    assert(q >= 0) by (nonlinear_arith)
        requires
            n == b * q + rem,
            0 <= rem < b,
            n >= 0,
            b >= 1,
    ;
    if a == 0 {
        assert(n == 0) by (nonlinear_arith)
            requires
                n == e * a,
                a == 0,
        ;
        assert(q == 0 && rem == 0) by (nonlinear_arith)
            requires
                n == b * q + rem,
                0 <= rem < b,
                n == 0,
                b >= 1,
                q >= 0,
        ;
    } else {
        assert(n <= (b - 1) * a) by (nonlinear_arith)
            requires
                n == e * a,
                e <= b - 1,
                a >= 0,
        ;
        assert(q < a) by (nonlinear_arith)
            requires
                n == b * q + rem,
                rem >= 0,
                n <= (b - 1) * a,
                b >= 1,
                a >= 1,
                q >= 0,
        ;
    }
}

/// How far the rounded share may sit from the exact ratio: the rounded
/// quotient, scaled back up by the divisor, differs from the dividend by
/// at most half the divisor.
pub proof fn lemma_round_div_error(n: int, d: int)
    requires
        n >= 0,
        d >= 1,
    ensures
        2 * (n - round_div(n, d) * d) <= d,
        2 * (round_div(n, d) * d - n) <= d,
{
    lemma_fundamental_div_mod(n, d);
    let q = n / d;
    let rem = n % d;
    assert(q * d == n - rem) by (nonlinear_arith)
        requires
            n == d * q + rem,
    ;
    assert((q + 1) * d == q * d + d) by (nonlinear_arith);
}

/// The proportionality bound of one partial fulfillment: paying `e`
/// against a record `(a, b)` leaves `(a - r, b - e)` with
/// `r = proportional_share(e, a, b)`, and the cross products of the new
/// pair differ by at most half of `b` — the remaining amounts stay in
/// the original ratio up to one unit of rounding.
pub proof fn lemma_partial_fill_ratio(a: int, b: int, e: int)
    requires
        a >= 0,
        b >= 1,
        0 <= e < b,
    ensures
        2 * ((a - proportional_share(e, a, b)) * b - (b - e) * a) <= b,
        2 * ((b - e) * a - (a - proportional_share(e, a, b)) * b) <= b,
{
    let r = proportional_share(e, a, b);
    assert(e * a >= 0) by (nonlinear_arith)
        requires
            e >= 0,
            a >= 0,
    ;
    lemma_round_div_error(e * a, b);
    assert((a - r) * b - (b - e) * a == e * a - r * b) by (nonlinear_arith);
    assert((b - e) * a - (a - r) * b == r * b - e * a) by (nonlinear_arith);
}

} // verus!
