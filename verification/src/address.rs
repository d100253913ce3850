//! EVM-style account addresses: 20 bytes, written as 40 hex digits with an
//! optional `0x` prefix. A malformed router or target address is rejected
//! here, before any network work is attempted.

use vstd::prelude::*;

verus! {

/// ASCII hex digit, either case.
pub open spec fn is_hex_digit(c: u8) -> bool {
    (48 <= c <= 57) || (97 <= c <= 102) || (65 <= c <= 70)
}

/// The value of one ASCII hex digit.
pub open spec fn hex_val(c: u8) -> int {
    if 48 <= c <= 57 {
        c - 48
    } else if 97 <= c <= 102 {
        c - 87
    } else {
        c - 55
    }
}

/// Every byte of `s` is a hex digit.
pub open spec fn all_hex(s: Seq<u8>) -> bool {
    forall|i: int| 0 <= i < s.len() ==> is_hex_digit(#[trigger] s[i])
}

/// The digits of an address text: the text with a leading `0x` stripped.
pub open spec fn hex_body(s: Seq<u8>) -> Seq<u8> {
    if s.len() >= 2 && s[0] == 48 && s[1] == 120 {
        s.skip(2)
    } else {
        s
    }
}

/// A well-formed address text: exactly 40 hex digits after the optional
/// prefix.
pub open spec fn valid_evm_address(s: Seq<u8>) -> bool {
    hex_body(s).len() == 40 && all_hex(hex_body(s))
}

/// The i-th byte an address text denotes: two hex digits, high first.
pub open spec fn address_byte(body: Seq<u8>, i: int) -> int {
    hex_val(body[2 * i]) * 16 + hex_val(body[2 * i + 1])
}

/// A 20-byte account address.
#[derive(Debug)]
pub struct EvmAddress {
    pub bytes: Vec<u8>,
}

impl EvmAddress {
    /// Well-formed: exactly 20 bytes.
    pub open spec fn wf(&self) -> bool {
        self.bytes@.len() == 20
    }

    /// An address from its raw bytes; rejected unless exactly 20 are given.
    pub fn from_bytes(bytes: Vec<u8>) -> (r: Option<EvmAddress>)
        ensures
            r is Some <==> bytes@.len() == 20,
            r matches Some(a) ==> a.wf() && a.bytes@ == bytes@,
    {
        if bytes.len() == 20 {
            Some(EvmAddress { bytes })
        } else {
            None
        }
    }
}

/// The value of one hex digit, or `None` for any other byte.
pub fn hex_digit_value(c: u8) -> (r: Option<u8>)
    ensures
        r is Some <==> is_hex_digit(c),
        r matches Some(v) ==> v == hex_val(c),
{
    if 48 <= c && c <= 57 {
        Some(c - 48)
    } else if 97 <= c && c <= 102 {
        Some(c - 87)
    } else if 65 <= c && c <= 70 {
        Some(c - 55)
    } else {
        None
    }
}

/// Parse an address text. Accepts exactly the well-formed texts (40 hex
/// digits after an optional `0x`), and returns the 20 bytes they denote.
pub fn parse_evm_address(s: &[u8]) -> (r: Option<EvmAddress>)
    ensures
        r is Some <==> valid_evm_address(s@),
        r matches Some(a) ==> a.wf() && forall|i: int|
            0 <= i < 20 ==> a.bytes@[i] == address_byte(hex_body(s@), i),
{
    let start: usize = if s.len() >= 2 && s[0] == 48 && s[1] == 120 {
        2
    } else {
        0
    };
    let ghost body = hex_body(s@);
    proof {
        assert(body =~= s@.skip(start as int));
    }
    if s.len() < start + 40 || s.len() > start + 40 {
        return None;
    }
    let mut bytes: Vec<u8> = Vec::new();
    let mut i: usize = 0;
    while i < 20
        invariant
            body =~= s@.skip(start as int),
            start + 40 == s@.len(),
            start <= 2,
            0 <= i <= 20,
            bytes@.len() == i,
            all_hex(body.take(2 * i as int)),
            forall|j: int| 0 <= j < i ==> bytes@[j] == address_byte(body, j),
        decreases 20 - i,
    {
        let hi = s[start + 2 * i];
        let lo = s[start + 2 * i + 1];
        proof {
            assert(hi == body[2 * i as int]);
            assert(lo == body[2 * i as int + 1]);
        }
        let hv = match hex_digit_value(hi) {
            Some(v) => v,
            None => {
                proof {
                    assert(!is_hex_digit(body[2 * i as int]));
                }
                return None;
            },
        };
        let lv = match hex_digit_value(lo) {
            Some(v) => v,
            None => {
                proof {
                    assert(!is_hex_digit(body[2 * i as int + 1]));
                }
                return None;
            },
        };
        bytes.push(hv * 16 + lv);
        proof {
            assert(all_hex(body.take(2 * (i + 1) as int))) by {
                assert(forall|j: int| 0 <= j < 2 * i as int ==> is_hex_digit(
                    #[trigger] body.take(2 * i as int)[j],
                ));
            }
        }
        i = i + 1;
    }
    proof {
        assert(all_hex(body)) by {
            assert(body.take(40) =~= body);
        }
    }
    Some(EvmAddress { bytes })
}

} // verus!
