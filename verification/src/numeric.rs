//! Decimal digit strings: the numeric ground for request and configuration
//! parsing. A digit string denotes the usual base-10 value; a numeral is
//! such a string with one optional leading `+`, and `parse_u64` accepts
//! exactly the numerals whose value fits in a `u64`.

use vstd::prelude::*;

verus! {

/// ASCII decimal digit.
pub open spec fn is_digit(c: u8) -> bool {
    48 <= c <= 57
}

/// The value of one ASCII digit.
pub open spec fn digit_val(c: u8) -> int {
    c - 48
}

/// Every byte of `s` is an ASCII digit.
pub open spec fn all_digits(s: Seq<u8>) -> bool {
    forall|i: int| 0 <= i < s.len() ==> is_digit(#[trigger] s[i])
}

/// The base-10 value of a digit string; the empty string counts as zero.
pub open spec fn digits_val(s: Seq<u8>) -> int
    decreases s.len(),
{
    if s.len() == 0 {
        0
    } else {
        digits_val(s.drop_last()) * 10 + digit_val(s.last())
    }
}

/// 10 to the power `n`.
pub open spec fn pow10(n: nat) -> int
    decreases n,
{
    if n == 0 {
        1
    } else {
        10 * pow10((n - 1) as nat)
    }
}

pub proof fn lemma_pow10_positive(n: nat)
    ensures
        pow10(n) >= 1,
    decreases n,
{
    if n > 0 {
        lemma_pow10_positive((n - 1) as nat);
    }
}

/// `pow10` grows with its exponent.
pub proof fn lemma_pow10_increases(m: nat, n: nat)
    requires
        m <= n,
    ensures
        pow10(m) <= pow10(n),
    decreases n,
{
    lemma_pow10_positive(m);
    if m < n {
        lemma_pow10_increases(m, (n - 1) as nat);
    }
}

/// A digit string's value is never negative.
pub proof fn lemma_digits_val_nonneg(s: Seq<u8>)
    requires
        all_digits(s),
    ensures
        digits_val(s) >= 0,
    decreases s.len(),
{
    if s.len() > 0 {
        assert(all_digits(s.drop_last()));
        lemma_digits_val_nonneg(s.drop_last());
    }
}

/// Dropping trailing digits never increases the value.
pub proof fn lemma_digits_val_prefix(s: Seq<u8>, j: int)
    requires
        all_digits(s),
        0 <= j <= s.len(),
    ensures
        digits_val(s.take(j)) <= digits_val(s),
    decreases s.len(),
{
    if j == s.len() {
        assert(s.take(j) =~= s);
    } else {
        assert(all_digits(s.drop_last()));
        assert(s.drop_last().take(j) =~= s.take(j));
        lemma_digits_val_prefix(s.drop_last(), j);
        lemma_digits_val_nonneg(s.drop_last());
    }
}

/// The digits of a numeral: the text with one leading `+` stripped.
pub open spec fn numeral_body(s: Seq<u8>) -> Seq<u8> {
    if s.len() >= 1 && s[0] == 43 {
        s.skip(1)
    } else {
        s
    }
}

/// A well-formed unsigned numeral: an optional leading `+`, then at least
/// one digit.
pub open spec fn valid_numeral(s: Seq<u8>) -> bool {
    numeral_body(s).len() > 0 && all_digits(numeral_body(s))
}

/// The value a numeral denotes.
pub open spec fn numeral_val(s: Seq<u8>) -> int {
    digits_val(numeral_body(s))
}

/// Parse an unsigned numeral (an optional `+`, then digits) as a `u64`.
/// Returns `None` exactly on the strings that are no numeral, or denote a
/// value above `u64::MAX`.
#[verifier::loop_isolation(false)]
pub fn parse_u64(s: &[u8]) -> (r: Option<u64>)
    ensures
        r is Some <==> valid_numeral(s@) && numeral_val(s@) <= u64::MAX,
        r matches Some(v) ==> v == numeral_val(s@),
{
    let start: usize = if s.len() >= 1 && s[0] == 43 {
        1
    } else {
        0
    };
    let ghost body = numeral_body(s@);
    proof {
        assert(body =~= s@.skip(start as int));
    }
    if s.len() == start {
        return None;
    }
    let mut acc: u64 = 0;
    let mut i: usize = start;
    while i < s.len()
        invariant
            body =~= s@.skip(start as int),
            start <= 1,
            start <= i <= s@.len(),
            all_digits(body.take(i as int - start as int)),
            acc == digits_val(body.take(i as int - start as int)),
        decreases s@.len() - i,
    {
        let c = s[i];
        proof {
            assert(body[i as int - start as int] == s@[i as int]);
        }
        if c < 48 || c > 57 {
            assert(!is_digit(body[i as int - start as int]));
            return None;
        }
        let d = (c - 48) as u64;
        let grown = match acc.checked_mul(10) {
            Some(m) => m.checked_add(d),
            None => None,
        };
        proof {
            assert(body.take(i as int - start as int + 1).drop_last() =~= body.take(
                i as int - start as int,
            ));
            assert(body.take(i as int - start as int + 1).last() == body[i as int - start as int]);
        }
        match grown {
            Some(v) => {
                acc = v;
            },
            None => {
                // The prefix through this digit already exceeds u64::MAX, so
                // the whole numeral does wherever it is well-formed.
                proof {
                    assert(digits_val(body.take(i as int - start as int + 1)) > u64::MAX);
                    if all_digits(body) {
                        lemma_digits_val_prefix(body, i as int - start as int + 1);
                    }
                }
                return None;
            },
        }
        i = i + 1;
    }
    proof {
        assert(body.take(i as int - start as int) =~= body);
    }
    Some(acc)
}

} // verus!
