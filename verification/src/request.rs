//! Trade requests, validated at the boundary.
//!
//! A request names a target asset, an input amount as a decimal string, a
//! slippage tolerance and a deadline offset. Both parsed fields are checked
//! here, before any network work: a malformed field is a caller fault and is
//! never retried.

use vstd::prelude::*;
use crate::address::{address_byte, hex_body, valid_evm_address, parse_evm_address, EvmAddress};
use crate::amount::{decimal_value, is_decimal, parse_decimal_amount};
use crate::errors::SubmitError;

verus! {

/// Decimals of the native asset the input amount is written in.
pub const NATIVE_DECIMALS: u32 = 18;

/// A trade request as it arrives: text fields unparsed.
#[derive(Debug)]
pub struct TradeRequest {
    /// Address text of the asset to buy.
    pub target_token: Vec<u8>,
    /// Input amount as a decimal string, in native units.
    pub buy_amount: Vec<u8>,
    /// Slippage tolerance in basis points; clamped at use, never rejected.
    pub slippage_bps: i64,
    /// Seconds from now until the swap call expires.
    pub deadline_secs: u64,
}

/// A validated trade, immutable once constructed.
#[derive(Debug)]
pub struct TradeIntent {
    pub target: EvmAddress,
    /// Input amount in atomic units.
    pub amount_in_wei: u128,
    pub slippage_bps: i64,
    pub deadline_secs: u64,
}

/// Validate a request into a trade intent. Succeeds exactly when the target
/// address is well-formed and the amount is a decimal string whose atomic
/// value fits; the error names the offending field, the target checked first.
pub fn validate_trade_request(req: TradeRequest) -> (r: Result<TradeIntent, SubmitError>)
    ensures
        r is Ok <==> valid_evm_address(req.target_token@) && is_decimal(req.buy_amount@)
            && decimal_value(req.buy_amount@, NATIVE_DECIMALS as nat) <= u128::MAX,
        r matches Ok(t) ==> {
            &&& t.target.wf()
            &&& forall|i: int|
                0 <= i < 20 ==> t.target.bytes@[i] == address_byte(hex_body(req.target_token@), i)
            &&& t.amount_in_wei == decimal_value(req.buy_amount@, NATIVE_DECIMALS as nat)
            &&& t.slippage_bps == req.slippage_bps
            &&& t.deadline_secs == req.deadline_secs
        },
        r matches Err(e) ==> {
            if !valid_evm_address(req.target_token@) {
                e matches SubmitError::InvalidRequest { field } && field@ == "target_token"@
            } else {
                e matches SubmitError::InvalidRequest { field } && field@ == "buy_amount"@
            }
        },
{
    let target = match parse_evm_address(req.target_token.as_slice()) {
        Some(a) => a,
        None => {
            return Err(SubmitError::InvalidRequest { field: "target_token".to_owned() });
        },
    };
    let amount_in_wei = match parse_decimal_amount(req.buy_amount.as_slice(), NATIVE_DECIMALS) {
        Some(v) => v,
        None => {
            return Err(SubmitError::InvalidRequest { field: "buy_amount".to_owned() });
        },
    };
    Ok(TradeIntent {
        target,
        amount_in_wei,
        slippage_bps: req.slippage_bps,
        deadline_secs: req.deadline_secs,
    })
}

} // verus!
