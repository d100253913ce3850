//! Decimal amount strings, quantized to a chain asset's atomic unit.
//!
//! An input amount arrives as a decimal string such as `"0.02"`: digits, at
//! most one dot, and at least one digit somewhere. Its value in atomic units
//! for an asset with `d` decimals is the written number times `10^d`, floored
//! to a whole number of atomic units (fractional digits beyond the `d`-th
//! carry less than one atomic unit and are dropped). The computation is exact
//! integer arithmetic throughout.

use vstd::prelude::*;
use crate::numeric::{
    all_digits, digit_val, digits_val, is_digit, lemma_digits_val_nonneg,
    lemma_digits_val_prefix, lemma_pow10_increases, lemma_pow10_positive, pow10,
};
use vstd::arithmetic::mul::lemma_mul_inequality;

verus! {

/// `k` marks the shape of a decimal string: the digits end (no dot) or the
/// dot's position. Digits stand before `k` and after `k` where a dot is
/// there, and at least one digit is there in all.
pub open spec fn decimal_shape(s: Seq<u8>, k: int) -> bool {
    &&& 0 <= k <= s.len()
    &&& all_digits(s.take(k))
    &&& (k < s.len() ==> s[k] == 46 && all_digits(s.skip(k + 1)))
    &&& (k > 0 || k + 1 < s.len())
}

/// A well-formed decimal string.
pub open spec fn is_decimal(s: Seq<u8>) -> bool {
    exists|k: int| decimal_shape(s, k)
}

/// The one `k` that marks a well-formed decimal string's shape.
pub open spec fn decimal_split(s: Seq<u8>) -> int {
    choose|k: int| decimal_shape(s, k)
}

/// The fractional digits of a decimal string.
pub open spec fn frac_digits(s: Seq<u8>) -> Seq<u8> {
    if decimal_split(s) < s.len() {
        s.skip(decimal_split(s) + 1)
    } else {
        Seq::empty()
    }
}

/// The value of a decimal string in atomic units of an asset with `d`
/// decimals: the integer digits followed by the first `min(|frac|, d)`
/// fractional digits, read as one number, then scaled up by the remaining
/// powers of ten. Fractional digits past the `d`-th are floored away.
pub open spec fn decimal_value(s: Seq<u8>, d: nat) -> int
    recommends
        is_decimal(s),
{
    let k = decimal_split(s);
    let frac = frac_digits(s);
    let kept = if frac.len() <= d {
        frac.len()
    } else {
        d
    };
    digits_val(s.take(k) + frac.take(kept as int)) * pow10((d - kept) as nat)
}

/// Wherever `k` is a position with digits everywhere before it and a dot at
/// it (or is the string's end, with digits everywhere), no other position
/// marks a shape.
proof fn lemma_shape_candidate(s: Seq<u8>, k: int)
    requires
        0 <= k <= s.len(),
        all_digits(s.take(k)),
        k < s.len() ==> s[k] == 46,
    ensures
        forall|k2: int| #[trigger] decimal_shape(s, k2) ==> k2 == k,
{
    assert forall|k2: int| #[trigger] decimal_shape(s, k2) implies k2 == k by {
        if k2 < k {
            assert(is_digit(s.take(k)[k2]));
            assert(s[k2] == 46);
        }
        if k2 > k {
            assert(is_digit(s.take(k2)[k]));
            assert(s[k] == 46);
        }
    }
}

/// Parse a decimal amount string into atomic units for an asset with
/// `decimals` decimals. Accepts exactly the well-formed decimal strings
/// whose quantized value fits in a `u128`, and returns that value.
#[verifier::loop_isolation(false)]
pub fn parse_decimal_amount(s: &[u8], decimals: u32) -> (r: Option<u128>)
    ensures
        r is Some <==> is_decimal(s@) && decimal_value(s@, decimals as nat) <= u128::MAX,
        r matches Some(v) ==> v == decimal_value(s@, decimals as nat),
{
    let n = s.len();
    // The digits end at the first non-digit; a well-formed string has its
    // dot there, or none at all.
    let mut i: usize = 0;
    while i < n && 48 <= s[i] && s[i] <= 57
        invariant
            0 <= i <= n,
            all_digits(s@.take(i as int)),
        decreases n - i,
    {
        i = i + 1;
    }
    let dot: usize = i;
    if dot < n && s[dot] != 46 {
        // The first non-digit is not a dot either: nothing can mark a shape.
        proof {
            assert forall|k2: int| !(#[trigger] decimal_shape(s@, k2)) by {
                if decimal_shape(s@, k2) {
                    if k2 < dot as int {
                        assert(is_digit(s@.take(dot as int)[k2]));
                        assert(s@[k2] == 46);
                    } else if k2 > dot as int {
                        assert(is_digit(s@.take(k2)[dot as int]));
                    }
                }
            }
        }
        return None;
    }
    if dot < n {
        let mut p: usize = dot + 1;
        while p < n
            invariant
                dot + 1 <= p <= n,
                forall|j: int| dot + 1 <= j < p ==> is_digit(#[trigger] s@[j]),
            decreases n - p,
        {
            let c = s[p];
            if c < 48 || c > 57 {
                proof {
                    lemma_shape_candidate(s@, dot as int);
                    assert(s@.skip(dot + 1 as int)[p - dot - 1] == s@[p as int]);
                    assert(!decimal_shape(s@, dot as int));
                }
                return None;
            }
            p = p + 1;
        }
    }
    if dot == 0 && (dot == n || dot + 1 == n) {
        proof {
            lemma_shape_candidate(s@, dot as int);
            assert(!decimal_shape(s@, dot as int));
        }
        return None;
    }
    proof {
        if dot < n {
            assert forall|q: int| 0 <= q < s@.skip(dot + 1 as int).len() implies is_digit(
                #[trigger] s@.skip(dot + 1 as int)[q],
            ) by {
                assert(s@.skip(dot + 1 as int)[q] == s@[dot + 1 + q]);
            }
        }
        assert(decimal_shape(s@, dot as int));
        lemma_shape_candidate(s@, dot as int);
        assert(decimal_shape(s@, decimal_split(s@)));
        assert(decimal_split(s@) == dot as int);
    }
    let frac_len: usize = if dot < n {
        n - dot - 1
    } else {
        0
    };
    let kept: usize = if frac_len <= decimals as usize {
        frac_len
    } else {
        decimals as usize
    };
    let ghost frac = frac_digits(s@);
    let ghost g = s@.take(dot as int) + frac.take(kept as int);
    let ghost e = (decimals - kept) as nat;
    proof {
        assert(frac.len() == frac_len);
        assert(decimal_value(s@, decimals as nat) == digits_val(g) * pow10(e));
        assert(all_digits(g)) by {
            assert forall|q: int| 0 <= q < g.len() implies is_digit(#[trigger] g[q]) by {
                if q < dot {
                    assert(g[q] == s@.take(dot as int)[q]);
                } else {
                    assert(g[q] == frac[q - dot]);
                    assert(frac[q - dot] == s@[dot + 1 + (q - dot)]);
                }
            }
        }
        lemma_digits_val_nonneg(g);
        lemma_pow10_positive(e);
    }
    // Read the kept digits as one number.
    let mut acc: u128 = 0;
    let mut j: usize = 0;
    while j < dot
        invariant
            0 <= j <= dot,
            acc == digits_val(g.take(j as int)),
        decreases dot - j,
    {
        proof {
            assert(g.take(j + 1).drop_last() =~= g.take(j as int));
            assert(g.take(j + 1).last() == s@.take(dot as int)[j as int]);
        }
        let c = s[j];
        let d = (c - 48) as u128;
        proof {
            assert(is_digit(s@.take(dot as int)[j as int]));
        }
        let grown = match acc.checked_mul(10) {
            Some(m) => m.checked_add(d),
            None => None,
        };
        match grown {
            Some(v) => {
                acc = v;
            },
            None => {
                proof {
                    assert(digits_val(g.take(j + 1)) > u128::MAX);
                    lemma_digits_val_prefix(g, j + 1);
                    lemma_mul_inequality(1, pow10(e), digits_val(g));
                }
                return None;
            },
        }
        j = j + 1;
    }
    let mut t: usize = 0;
    while t < kept
        invariant
            0 <= t <= kept,
            acc == digits_val(g.take(dot + t)),
        decreases kept - t,
    {
        proof {
            assert(g.take(dot + t + 1).drop_last() =~= g.take(dot + t));
            assert(g.take(dot + t + 1).last() == g[dot + t]);
            assert(g[dot + t] == frac.take(kept as int)[t as int]);
            assert(frac[t as int] == s@[dot + 1 + t]);
            assert(is_digit(s@[dot + 1 + t]));
        }
        let c = s[dot + 1 + t];
        let d = (c - 48) as u128;
        let grown = match acc.checked_mul(10) {
            Some(m) => m.checked_add(d),
            None => None,
        };
        match grown {
            Some(v) => {
                acc = v;
            },
            None => {
                proof {
                    assert(digits_val(g.take(dot + t + 1)) > u128::MAX);
                    lemma_digits_val_prefix(g, dot + t + 1);
                    lemma_mul_inequality(1, pow10(e), digits_val(g));
                }
                return None;
            },
        }
        t = t + 1;
    }
    proof {
        assert(g.take(dot + kept) =~= g);
        assert(acc == digits_val(g));
    }
    // Scale by the powers of ten the fractional digits did not use.
    let e_exec: u32 = decimals - kept as u32;
    let mut factor: u128 = 1;
    let mut x: u32 = 0;
    while x < e_exec
        invariant
            0 <= x <= e_exec,
            factor == pow10(x as nat),
        decreases e_exec - x,
    {
        match factor.checked_mul(10) {
            Some(f) => {
                factor = f;
            },
            None => {
                proof {
                    assert(pow10((x + 1) as nat) == 10 * pow10(x as nat));
                    lemma_pow10_increases((x + 1) as nat, e);
                }
                if acc == 0 {
                    return Some(0);
                }
                proof {
                    lemma_mul_inequality(1, digits_val(g), pow10(e));
                    vstd::arithmetic::mul::lemma_mul_is_commutative(digits_val(g), pow10(e));
                }
                return None;
            },
        }
        x = x + 1;
    }
    match acc.checked_mul(factor) {
        Some(v) => Some(v),
        None => None,
    }
}

} // verus!
