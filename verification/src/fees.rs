//! Priority-fee and relay-tip policy: pure, configuration-driven amounts.
//!
//! The priority fee is a pair (compute-unit price, compute-unit limit) read
//! from optional raw settings, with fixed defaults where a setting is absent
//! or malformed. The relay tip is whatever an external tip source suggested,
//! capped by a hard policy ceiling of 0.1 native units (100,000,000 atomic
//! units at 9 decimals) so that a misbehaving tip source can never drain the
//! signer.

use vstd::prelude::*;
use crate::numeric::{numeral_val, parse_u64, valid_numeral};

verus! {

/// Default compute-unit price when no setting is given.
pub const DEFAULT_UNIT_PRICE: u64 = 1;

/// Default compute-unit limit when no setting is given.
pub const DEFAULT_UNIT_LIMIT: u32 = 300_000;

/// Hard ceiling on the relay tip: 0.1 native units, in atomic units.
pub const MAX_TIP_LAMPORTS: u64 = 100_000_000;

/// The compute-unit price denoted by an optional raw setting: its value
/// where the setting is a numeral fitting in a `u64`, the default otherwise.
pub open spec fn unit_price_spec(raw: Option<Seq<u8>>) -> int {
    match raw {
        Some(s) => if valid_numeral(s) && numeral_val(s) <= u64::MAX {
            numeral_val(s)
        } else {
            DEFAULT_UNIT_PRICE as int
        },
        None => DEFAULT_UNIT_PRICE as int,
    }
}

/// The compute-unit limit denoted by an optional raw setting, defaulting as
/// `unit_price_spec` does, and also where the value exceeds `u32::MAX`.
pub open spec fn unit_limit_spec(raw: Option<Seq<u8>>) -> int {
    match raw {
        Some(s) => if valid_numeral(s) && numeral_val(s) <= u32::MAX {
            numeral_val(s)
        } else {
            DEFAULT_UNIT_LIMIT as int
        },
        None => DEFAULT_UNIT_LIMIT as int,
    }
}

/// Compute-unit price from a raw optional setting.
pub fn unit_price_setting(raw: Option<&[u8]>) -> (r: u64)
    ensures
        r == unit_price_spec(match raw {
            Some(s) => Some(s@),
            None => None,
        }),
{
    match raw {
        Some(s) => match parse_u64(s) {
            Some(v) => v,
            None => DEFAULT_UNIT_PRICE,
        },
        None => DEFAULT_UNIT_PRICE,
    }
}

/// Compute-unit limit from a raw optional setting.
pub fn unit_limit_setting(raw: Option<&[u8]>) -> (r: u32)
    ensures
        r == unit_limit_spec(match raw {
            Some(s) => Some(s@),
            None => None,
        }),
{
    match raw {
        Some(s) => match parse_u64(s) {
            Some(v) => {
                if v <= u32::MAX as u64 {
                    v as u32
                } else {
                    DEFAULT_UNIT_LIMIT
                }
            },
            None => DEFAULT_UNIT_LIMIT,
        },
        None => DEFAULT_UNIT_LIMIT,
    }
}

/// The tip actually paid for a requested tip: capped at the policy ceiling.
/// For every requested amount `t`, the result is `min(t, MAX_TIP_LAMPORTS)`.
pub fn relay_tip(requested_lamports: u64) -> (r: u64)
    ensures
        r == if requested_lamports <= MAX_TIP_LAMPORTS {
            requested_lamports as int
        } else {
            MAX_TIP_LAMPORTS as int
        },
        r <= MAX_TIP_LAMPORTS,
        r <= requested_lamports,
{
    if requested_lamports <= MAX_TIP_LAMPORTS {
        requested_lamports
    } else {
        MAX_TIP_LAMPORTS
    }
}

} // verus!
