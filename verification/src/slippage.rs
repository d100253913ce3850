//! Minimum-output bound under a slippage tolerance.
//!
//! A slippage tolerance is carried as a whole number of basis points
//! (1 basis point = 1/10000). Whatever tolerance a caller hands in, it is
//! clamped into `[0, 9900]` (that is, `[0, 0.99]` as a fraction) before use;
//! out-of-range tolerances are never rejected. The minimum acceptable output
//! for a quoted expected output `e` and clamped tolerance `s` is
//! `floor(e * (10000 - s) / 10000)`, computed exactly in integers so that no
//! precision is lost beyond the atomic-unit granularity.

use vstd::prelude::*;
use vstd::arithmetic::div_mod::{
    lemma_div_by_multiple, lemma_div_is_ordered, lemma_fundamental_div_mod,
    lemma_hoist_over_denominator,
};
use vstd::arithmetic::mul::{
    lemma_mul_is_commutative,
    lemma_mul_inequality, lemma_mul_is_associative, lemma_mul_is_distributive_add,
    lemma_mul_nonnegative, lemma_mul_upper_bound,
};

verus! {

/// Number of basis points in the whole: tolerances are fractions of this.
pub const SLIPPAGE_SCALE: u64 = 10_000;

/// Largest usable tolerance, 0.99 of the whole.
pub const MAX_SLIPPAGE_BPS: u64 = 9_900;

/// The tolerance actually used for a requested tolerance `bps`:
/// clamped into `[0, 9900]`.
pub open spec fn clamped_bps(bps: int) -> int {
    if bps < 0 {
        0
    } else if bps > MAX_SLIPPAGE_BPS {
        MAX_SLIPPAGE_BPS as int
    } else {
        bps
    }
}

/// The minimum-output bound for an expected output `expected` and a
/// requested tolerance `bps`: `floor(expected * (10000 - clamp(bps)) / 10000)`.
pub open spec fn min_output_spec(expected: int, bps: int) -> int {
    (expected * (SLIPPAGE_SCALE - clamped_bps(bps))) / (SLIPPAGE_SCALE as int)
}

/// Clamp a requested slippage tolerance into the usable range.
pub fn clamp_slippage_bps(bps: i64) -> (r: u64)
    ensures
        r == clamped_bps(bps as int),
{
    if bps < 0 {
        0
    } else if bps > MAX_SLIPPAGE_BPS as i64 {
        MAX_SLIPPAGE_BPS
    } else {
        bps as u64
    }
}

/// Minimum acceptable output amount, in atomic units, for a quoted expected
/// output and a requested slippage tolerance. The tolerance is clamped, never
/// rejected; the result never exceeds the expected output, and an expected
/// output of zero (the quote-unavailable fallback) always yields zero.
pub fn compute_min_output(expected: u128, slippage_bps: i64) -> (r: u128)
    ensures
        r == min_output_spec(expected as int, slippage_bps as int),
        0 <= r <= expected,
        expected == 0 ==> r == 0,
{
    let s = clamp_slippage_bps(slippage_bps);
    let keep: u128 = (SLIPPAGE_SCALE - s) as u128;
    let scale: u128 = SLIPPAGE_SCALE as u128;
    let q = expected / scale;
    let rem = expected % scale;
    proof {
        lemma_fundamental_div_mod(expected as int, scale as int);
        // q * keep never exceeds q * scale, hence never exceeds `expected`.
        lemma_mul_inequality(keep as int, scale as int, q as int);
        // rem * keep stays below 10^8, so the product fits easily.
        lemma_mul_upper_bound(rem as int, 9_999, keep as int, 10_000);
        lemma_mul_is_commutative(q as int, keep as int);
        assert(q as int * keep as int <= expected as int);
    }
    let high = q * keep;
    let low = (rem * keep) / scale;
    proof {
        // low <= rem, so high + low <= q * scale + rem == expected.
        lemma_mul_is_commutative(rem as int, keep as int);
        lemma_mul_is_commutative(rem as int, scale as int);
        lemma_mul_inequality(keep as int, scale as int, rem as int);
        lemma_div_is_ordered(rem as int * keep as int, rem as int * scale as int, scale as int);
        lemma_div_by_multiple(rem as int, scale as int);
        assert(low <= rem);
        // (expected * keep) / scale == q * keep + (rem * keep) / scale.
        lemma_mul_is_commutative(expected as int, keep as int);
        lemma_mul_is_distributive_add(keep as int, scale as int * q as int, rem as int);
        lemma_mul_is_commutative(scale as int, q as int);
        lemma_mul_is_associative(keep as int, q as int, scale as int);
        lemma_mul_is_commutative(keep as int, q as int);
        assert(expected as int * keep as int
            == rem as int * keep as int + (q as int * keep as int) * scale as int);
        lemma_hoist_over_denominator(
            rem as int * keep as int,
            q as int * keep as int,
            scale as nat,
        );
    }
    high + low
}

/// The minimum-output bound for an optional quote: zero where no quote is
/// known, the slippage-protected bound otherwise.
pub open spec fn quote_min_output_spec(quote: Option<u128>, bps: int) -> int {
    match quote {
        None => 0,
        Some(e) => min_output_spec(e as int, bps),
    }
}

/// The minimum-output bound for an optional quote: when the quote query
/// failed (no expected output is known), the bound degrades to zero --- the
/// trade accepts any output rather than being blocked --- otherwise it is
/// the slippage-protected bound for the quoted expected output.
pub fn min_output_from_quote(expected_output: Option<u128>, slippage_bps: i64) -> (r: u128)
    ensures
        r == quote_min_output_spec(expected_output, slippage_bps as int),
        expected_output is None ==> r == 0,
        expected_output matches Some(e) ==> r == min_output_spec(e as int, slippage_bps as int),
{
    match expected_output {
        None => 0,
        Some(e) => compute_min_output(e, slippage_bps),
    }
}

/// The expected output read from a quote answer: the amount at the end of
/// the two-hop path, where the router returned amounts for both hops; a
/// shorter answer carries no usable quote.
pub fn quoted_expected_output(amounts: &Vec<u128>) -> (r: Option<u128>)
    ensures
        amounts@.len() >= 2 ==> r == Some(amounts@[1]),
        amounts@.len() < 2 ==> r is None,
{
    if amounts.len() >= 2 {
        Some(amounts[1])
    } else {
        None
    }
}

/// For every requested tolerance, the tolerance actually used lies in
/// `[0, 9900]`, and the bound lies between zero and the expected output.
pub proof fn lemma_min_output_bounds(expected: int, bps: int)
    requires
        expected >= 0,
    ensures
        0 <= clamped_bps(bps) <= MAX_SLIPPAGE_BPS,
        0 <= min_output_spec(expected, bps) <= expected,
{
    let keep = SLIPPAGE_SCALE - clamped_bps(bps);
    lemma_mul_nonnegative(expected, keep);
    lemma_mul_inequality(keep, SLIPPAGE_SCALE as int, expected);
    lemma_div_is_ordered(0, expected * keep, SLIPPAGE_SCALE as int);
    lemma_div_is_ordered(expected * keep, expected * (SLIPPAGE_SCALE as int), SLIPPAGE_SCALE as int);
    lemma_div_by_multiple(expected, SLIPPAGE_SCALE as int);
}

/// An expected output of zero yields a zero bound, whatever the tolerance.
pub proof fn lemma_min_output_of_zero(bps: int)
    ensures
        min_output_spec(0, bps) == 0,
{
    lemma_min_output_bounds(0, bps);
}

} // verus!
