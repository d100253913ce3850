//! Process-wide configuration, validated once at startup.
//!
//! Raw settings arrive as optional strings (read from wherever the embedding
//! program keeps them); validation resolves defaults, parses what must be
//! parsed, and rejects what a trade could not run without: a signer key and a
//! well-formed router address. An invalid router address is refused here,
//! before any network call is made.

use vstd::prelude::*;
use crate::address::{parse_evm_address, valid_evm_address, address_byte, hex_body, EvmAddress};
use crate::errors::SubmitError;
use crate::fees::{unit_limit_setting, unit_limit_spec, unit_price_setting, unit_price_spec, MAX_TIP_LAMPORTS};
use crate::numeric::{numeral_val, parse_u64, valid_numeral};

verus! {

/// Chain identifier used when none is configured.
pub const DEFAULT_CHAIN_ID: u64 = 97;

/// Milliseconds between bundle-status fetches when none is configured.
pub const DEFAULT_POLL_INTERVAL_MS: u64 = 1_000;

/// Milliseconds until a bundle wait times out when none is configured.
pub const DEFAULT_POLL_DEADLINE_MS: u64 = 10_000;

/// Node endpoint used when none is configured.
pub fn default_rpc_url() -> (r: String)
    ensures
        r@ == "https://bsc-testnet.example"@,
{
    "https://bsc-testnet.example".to_owned()
}

/// Raw, unvalidated settings, exactly as the embedding program found them.
#[derive(Debug)]
pub struct RawConfig {
    /// Node endpoint; optional, with a default.
    pub rpc_url: Option<String>,
    /// Signer key material; required, carried opaquely.
    pub signer_key: Option<String>,
    /// Router contract address text; required, must be well-formed.
    pub router_address: Option<Vec<u8>>,
    /// Chain identifier numeral; optional, malformed falls back to the default.
    pub chain_id: Option<Vec<u8>>,
    /// Compute-unit price numeral; optional.
    pub unit_price: Option<Vec<u8>>,
    /// Compute-unit limit numeral; optional.
    pub unit_limit: Option<Vec<u8>>,
    /// Relay endpoint; optional, carried opaquely (no relay mode without it).
    pub relay_url: Option<String>,
    /// Milliseconds between status fetches; optional.
    pub poll_interval_ms: Option<Vec<u8>>,
    /// Milliseconds until a confirmation wait times out; optional.
    pub poll_deadline_ms: Option<Vec<u8>>,
    /// Ceiling on the relay tip, in atomic units; optional.
    pub tip_cap_lamports: Option<Vec<u8>>,
}

/// Validated configuration: everything a submission needs, trusted from here
/// on and never mutated.
#[derive(Debug)]
pub struct ExecutorConfig {
    pub rpc_url: String,
    pub signer_key: String,
    pub router: EvmAddress,
    pub chain_id: u64,
    pub unit_price: u64,
    pub unit_limit: u32,
    pub relay_url: Option<String>,
    pub poll_interval_ms: u64,
    pub poll_deadline_ms: u64,
    pub tip_cap_lamports: u64,
}

/// The `u64` value denoted by an optional raw setting: its value where the
/// setting is a numeral fitting in a `u64`, the given default otherwise.
pub open spec fn u64_setting_spec(raw: Option<Seq<u8>>, default: u64) -> int {
    match raw {
        Some(s) => if valid_numeral(s) && numeral_val(s) <= u64::MAX {
            numeral_val(s)
        } else {
            default as int
        },
        None => default as int,
    }
}

/// The chain identifier denoted by an optional raw setting.
pub open spec fn chain_id_spec(raw: Option<Seq<u8>>) -> int {
    u64_setting_spec(raw, DEFAULT_CHAIN_ID)
}

/// The poll interval denoted by an optional raw setting: a configured zero
/// would make the wait spin without advancing, so it falls back to the
/// default like any other malformed value.
pub open spec fn poll_interval_spec(raw: Option<Seq<u8>>) -> int {
    if u64_setting_spec(raw, DEFAULT_POLL_INTERVAL_MS) == 0 {
        DEFAULT_POLL_INTERVAL_MS as int
    } else {
        u64_setting_spec(raw, DEFAULT_POLL_INTERVAL_MS)
    }
}

/// A `u64` setting from a raw optional value, with a default.
fn u64_setting(raw: Option<&[u8]>, default: u64) -> (r: u64)
    ensures
        r == u64_setting_spec(
            match raw {
                Some(s) => Some(s@),
                None => None,
            },
            default,
        ),
{
    match raw {
        Some(s) => match parse_u64(s) {
            Some(v) => v,
            None => default,
        },
        None => default,
    }
}

/// A setting's value: what was found, or the default, or --- where neither is
/// there --- a `MissingSetting` error naming the setting.
pub fn resolve_setting(value: Option<String>, default: Option<String>, name: String) -> (r: Result<
    String,
    SubmitError,
>)
    ensures
        value matches Some(v) ==> (r matches Ok(o) && o == v),
        value is None && default is Some ==> (r matches Ok(o) && default matches Some(d) && o
            == d),
        value is None && default is None ==> (r matches Err(e) && e matches
            SubmitError::MissingSetting { name: n } && n == name),
{
    match value {
        Some(v) => Ok(v),
        None => match default {
            Some(d) => Ok(d),
            None => Err(SubmitError::MissingSetting { name }),
        },
    }
}

/// Validate raw settings into a usable configuration.
///
/// Succeeds exactly when a signer key is present and the router address is
/// present and well-formed; the rest falls back to defaults. The error names
/// what is wrong: a missing signer key or router address, or a malformed
/// router address.
pub fn validate_config(raw: RawConfig) -> (r: Result<ExecutorConfig, SubmitError>)
    ensures
        r is Ok <==> raw.signer_key is Some && (raw.router_address matches Some(a)
            && valid_evm_address(a@)),
        r matches Ok(c) ==> {
            &&& c.rpc_url@ == (match raw.rpc_url {
                Some(u) => u@,
                None => "https://bsc-testnet.example"@,
            })
            &&& raw.signer_key matches Some(k) && c.signer_key == k
            &&& raw.router_address matches Some(a) && c.router.wf() && forall|i: int|
                0 <= i < 20 ==> c.router.bytes@[i] == address_byte(hex_body(a@), i)
            &&& c.chain_id == chain_id_spec(match raw.chain_id {
                Some(s) => Some(s@),
                None => None,
            })
            &&& c.unit_price == unit_price_spec(match raw.unit_price {
                Some(s) => Some(s@),
                None => None,
            })
            &&& c.unit_limit == unit_limit_spec(match raw.unit_limit {
                Some(s) => Some(s@),
                None => None,
            })
            &&& c.relay_url == raw.relay_url
            &&& c.poll_interval_ms == poll_interval_spec(match raw.poll_interval_ms {
                Some(s) => Some(s@),
                None => None,
            })
            &&& c.poll_interval_ms >= 1
            &&& c.poll_deadline_ms == u64_setting_spec(
                match raw.poll_deadline_ms {
                    Some(s) => Some(s@),
                    None => None,
                },
                DEFAULT_POLL_DEADLINE_MS,
            )
            &&& c.tip_cap_lamports == u64_setting_spec(
                match raw.tip_cap_lamports {
                    Some(s) => Some(s@),
                    None => None,
                },
                MAX_TIP_LAMPORTS,
            )
        },
        r matches Err(e) ==> {
            if raw.signer_key is None {
                e matches SubmitError::MissingSetting { name } && name@ == "signer_key"@
            } else if raw.router_address is None {
                e matches SubmitError::MissingSetting { name } && name@ == "router_address"@
            } else {
                e matches SubmitError::InvalidSetting { name } && name@ == "router_address"@
            }
        },
{
    let signer_key = match raw.signer_key {
        Some(k) => k,
        None => {
            return Err(SubmitError::MissingSetting { name: "signer_key".to_owned() });
        },
    };
    let router_text = match raw.router_address {
        Some(a) => a,
        None => {
            return Err(SubmitError::MissingSetting { name: "router_address".to_owned() });
        },
    };
    let router = match parse_evm_address(router_text.as_slice()) {
        Some(a) => a,
        None => {
            return Err(SubmitError::InvalidSetting { name: "router_address".to_owned() });
        },
    };
    let rpc_url = match raw.rpc_url {
        Some(u) => u,
        None => default_rpc_url(),
    };
    let chain_id = match raw.chain_id {
        Some(s) => match parse_u64(s.as_slice()) {
            Some(v) => v,
            None => DEFAULT_CHAIN_ID,
        },
        None => DEFAULT_CHAIN_ID,
    };
    let unit_price = unit_price_setting(match &raw.unit_price {
        Some(s) => Some(s.as_slice()),
        None => None,
    });
    let unit_limit = unit_limit_setting(match &raw.unit_limit {
        Some(s) => Some(s.as_slice()),
        None => None,
    });
    let configured_interval = u64_setting(
        match &raw.poll_interval_ms {
            Some(s) => Some(s.as_slice()),
            None => None,
        },
        DEFAULT_POLL_INTERVAL_MS,
    );
    let poll_interval_ms = if configured_interval == 0 {
        DEFAULT_POLL_INTERVAL_MS
    } else {
        configured_interval
    };
    let poll_deadline_ms = u64_setting(
        match &raw.poll_deadline_ms {
            Some(s) => Some(s.as_slice()),
            None => None,
        },
        DEFAULT_POLL_DEADLINE_MS,
    );
    let tip_cap_lamports = u64_setting(
        match &raw.tip_cap_lamports {
            Some(s) => Some(s.as_slice()),
            None => None,
        },
        MAX_TIP_LAMPORTS,
    );
    Ok(ExecutorConfig {
        rpc_url,
        signer_key,
        router,
        chain_id,
        unit_price,
        unit_limit,
        relay_url: raw.relay_url,
        poll_interval_ms,
        poll_deadline_ms,
        tip_cap_lamports,
    })
}

} // verus!
