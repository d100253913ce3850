use trade_executor::clock::deadline_from;
use trade_executor::config::{resolve_setting, validate_config, RawConfig};
use trade_executor::errors::SubmitError;
use trade_executor::fees::{relay_tip, unit_limit_setting, unit_price_setting, MAX_TIP_LAMPORTS};
use trade_executor::request::{validate_trade_request, TradeRequest};
use trade_executor::slippage::{
    clamp_slippage_bps, compute_min_output, min_output_from_quote, quoted_expected_output,
};

#[test]
fn slippage_is_clamped_never_rejected() {
    // In range: used as given.
    assert_eq!(clamp_slippage_bps(0), 0);
    assert_eq!(clamp_slippage_bps(5000), 5000);
    assert_eq!(clamp_slippage_bps(9900), 9900);
    // Out of range on either side: clamped into [0, 9900].
    assert_eq!(clamp_slippage_bps(-1), 0);
    assert_eq!(clamp_slippage_bps(10_000), 9900);
    assert_eq!(clamp_slippage_bps(i64::MAX), 9900);
    assert_eq!(clamp_slippage_bps(i64::MIN), 0);
}

#[test]
fn min_output_stays_within_expected() {
    // Full tolerance sweep, result always in [0, expected].
    for bps in [-100, 0, 1, 5000, 9900, 10_000, 20_000] {
        let r = compute_min_output(1000, bps);
        assert!(r <= 1000);
    }
    // Clamped above 0.99: one percent of the expected output survives.
    assert_eq!(compute_min_output(1000, 20_000), 10);
    // Negative tolerance clamps to zero: the whole expected output.
    assert_eq!(compute_min_output(1000, -100), 1000);
}

#[test]
fn min_output_of_zero_expected_is_zero() {
    for bps in [i64::MIN, -1, 0, 5000, 9900, i64::MAX] {
        assert_eq!(compute_min_output(0, bps), 0);
    }
}

#[test]
fn min_output_exact_values() {
    // Half tolerance on 1000 expected: 500.
    assert_eq!(compute_min_output(1000, 5000), 500);
    // Flooring: 0.01% of 999 is 998.9001 -> 998.
    assert_eq!(compute_min_output(999, 1), 998);
    // Large expected output, no overflow.
    assert_eq!(compute_min_output(u128::MAX, 0), u128::MAX);
    assert_eq!(compute_min_output(u128::MAX, 10_000), u128::MAX / 10_000 * 100 + (u128::MAX % 10_000) * 100 / 10_000);
}

#[test]
fn quote_failure_degrades_to_zero_bound() {
    assert_eq!(min_output_from_quote(None, 5000), 0);
    assert_eq!(min_output_from_quote(Some(1000), 5000), 500);
}

#[test]
fn relay_tip_is_capped() {
    assert_eq!(relay_tip(0), 0);
    assert_eq!(relay_tip(1), 1);
    assert_eq!(relay_tip(MAX_TIP_LAMPORTS), MAX_TIP_LAMPORTS);
    // 0.2 native units requested, 0.1 paid.
    assert_eq!(relay_tip(200_000_000), 100_000_000);
    assert_eq!(relay_tip(u64::MAX), MAX_TIP_LAMPORTS);
}

#[test]
fn fee_settings_fall_back_to_defaults() {
    assert_eq!(unit_price_setting(None), 1);
    assert_eq!(unit_price_setting(Some(b"42")), 42);
    assert_eq!(unit_price_setting(Some(b"nonsense")), 1);
    // A leading plus is part of the numeral grammar.
    assert_eq!(unit_price_setting(Some(b"+42")), 42);
    assert_eq!(unit_limit_setting(None), 300_000);
    assert_eq!(unit_limit_setting(Some(b"250000")), 250_000);
    assert_eq!(unit_limit_setting(Some(b"5000000000")), 300_000);
    assert_eq!(unit_limit_setting(Some(b"")), 300_000);
    assert_eq!(unit_limit_setting(Some(b"+250000")), 250_000);
}

#[test]
fn quote_answers_need_both_hops() {
    assert_eq!(quoted_expected_output(&vec![20_000_000_000_000_000, 1000]), Some(1000));
    assert_eq!(quoted_expected_output(&vec![1, 2, 3]), Some(2));
    assert_eq!(quoted_expected_output(&vec![5]), None);
    assert_eq!(quoted_expected_output(&vec![]), None);
}

#[test]
fn deadline_arithmetic() {
    assert_eq!(deadline_from(1_700_000_000, 30), 1_700_000_030);
    // A pre-epoch clock counts as zero.
    assert_eq!(deadline_from(-5, 30), 30);
    // The sum saturates instead of wrapping.
    assert_eq!(deadline_from(i64::MAX, u64::MAX), u64::MAX);
}

#[test]
fn settings_resolve_value_then_default_then_error() {
    let r = resolve_setting(Some("given".to_string()), Some("fallback".to_string()), "x".to_string());
    assert_eq!(r.unwrap(), "given");
    let r = resolve_setting(None, Some("fallback".to_string()), "x".to_string());
    assert_eq!(r.unwrap(), "fallback");
    let r = resolve_setting(None, None, "rpc_url".to_string());
    assert!(matches!(r.unwrap_err(), SubmitError::MissingSetting { name } if name == "rpc_url"));
}

fn valid_raw_config() -> RawConfig {
    RawConfig {
        rpc_url: None,
        signer_key: Some("test-signer-key".to_string()),
        router_address: Some(b"0x10ED43C718714eb63d5aA57B78B54704E256024E".to_vec()),
        chain_id: None,
        unit_price: None,
        unit_limit: None,
        relay_url: None,
        poll_interval_ms: None,
        poll_deadline_ms: None,
        tip_cap_lamports: None,
    }
}

#[test]
fn config_defaults_resolve() {
    let c = validate_config(valid_raw_config()).unwrap();
    assert_eq!(c.rpc_url, "https://bsc-testnet.example");
    assert_eq!(c.chain_id, 97);
    assert_eq!(c.unit_price, 1);
    assert_eq!(c.unit_limit, 300_000);
    assert_eq!(c.router.bytes.len(), 20);
    assert_eq!(c.router.bytes[0], 0x10);
    assert_eq!(c.router.bytes[19], 0x4e);
    assert_eq!(c.relay_url, None);
    assert_eq!(c.poll_interval_ms, 1000);
    assert_eq!(c.poll_deadline_ms, 10_000);
    assert_eq!(c.tip_cap_lamports, MAX_TIP_LAMPORTS);
}

#[test]
fn config_explicit_values_win() {
    let mut raw = valid_raw_config();
    raw.rpc_url = Some("https://node.example".to_string());
    raw.chain_id = Some(b"56".to_vec());
    raw.unit_price = Some(b"7".to_vec());
    raw.unit_limit = Some(b"400000".to_vec());
    raw.relay_url = Some("https://relay.example".to_string());
    raw.poll_interval_ms = Some(b"500".to_vec());
    raw.poll_deadline_ms = Some(b"30000".to_vec());
    raw.tip_cap_lamports = Some(b"50000000".to_vec());
    let c = validate_config(raw).unwrap();
    assert_eq!(c.rpc_url, "https://node.example");
    assert_eq!(c.chain_id, 56);
    assert_eq!(c.unit_price, 7);
    assert_eq!(c.unit_limit, 400_000);
    assert_eq!(c.relay_url, Some("https://relay.example".to_string()));
    assert_eq!(c.poll_interval_ms, 500);
    assert_eq!(c.poll_deadline_ms, 30_000);
    assert_eq!(c.tip_cap_lamports, 50_000_000);
}

#[test]
fn config_zero_poll_interval_falls_back() {
    // A zero interval would make the wait spin; the default is used instead.
    let mut raw = valid_raw_config();
    raw.poll_interval_ms = Some(b"0".to_vec());
    let c = validate_config(raw).unwrap();
    assert_eq!(c.poll_interval_ms, 1000);
}

#[test]
fn config_malformed_chain_id_falls_back() {
    let mut raw = valid_raw_config();
    raw.chain_id = Some(b"mainnet".to_vec());
    let c = validate_config(raw).unwrap();
    assert_eq!(c.chain_id, 97);
    let mut raw = valid_raw_config();
    raw.chain_id = Some(b"+56".to_vec());
    let c = validate_config(raw).unwrap();
    assert_eq!(c.chain_id, 56);
}

#[test]
fn invalid_router_address_is_a_config_error() {
    // Rejected at validation, before any network call could happen.
    let mut raw = valid_raw_config();
    raw.router_address = Some(b"not-an-address".to_vec());
    let e = validate_config(raw).unwrap_err();
    assert!(matches!(&e, SubmitError::InvalidSetting { name } if name == "router_address"));
    assert!(e.is_caller_fault());
    assert_eq!(e.http_status(), 400);
}

#[test]
fn missing_required_settings_are_named() {
    let mut raw = valid_raw_config();
    raw.signer_key = None;
    let e = validate_config(raw).unwrap_err();
    assert!(matches!(&e, SubmitError::MissingSetting { name } if name == "signer_key"));
    let mut raw = valid_raw_config();
    raw.router_address = None;
    let e = validate_config(raw).unwrap_err();
    assert!(matches!(&e, SubmitError::MissingSetting { name } if name == "router_address"));
}

#[test]
fn error_classes_map_to_http_status() {
    let broadcast = SubmitError::Broadcast { message: "node refused".to_string() };
    assert!(!broadcast.is_caller_fault());
    assert_eq!(broadcast.http_status(), 500);
    assert_eq!(SubmitError::PollTimeout.http_status(), 500);
    let bad_field = SubmitError::InvalidRequest { field: "buy_amount".to_string() };
    assert_eq!(bad_field.http_status(), 400);
}

#[test]
fn trade_request_validation() {
    let req = TradeRequest {
        target_token: b"0x000000000000000000000000000000000000dEaD".to_vec(),
        buy_amount: b"0.02".to_vec(),
        slippage_bps: 5000,
        deadline_secs: 30,
    };
    let t = validate_trade_request(req).unwrap();
    assert_eq!(t.amount_in_wei, 20_000_000_000_000_000);
    assert_eq!(t.slippage_bps, 5000);
    assert_eq!(t.deadline_secs, 30);
    assert_eq!(t.target.bytes[19], 0xad);
}

#[test]
fn trade_request_bad_fields_are_named() {
    let req = TradeRequest {
        target_token: b"0xdead".to_vec(),
        buy_amount: b"0.02".to_vec(),
        slippage_bps: 0,
        deadline_secs: 30,
    };
    let e = validate_trade_request(req).unwrap_err();
    assert!(matches!(&e, SubmitError::InvalidRequest { field } if field == "target_token"));
    let req = TradeRequest {
        target_token: b"0x000000000000000000000000000000000000dEaD".to_vec(),
        buy_amount: b"1e3".to_vec(),
        slippage_bps: 0,
        deadline_secs: 30,
    };
    let e = validate_trade_request(req).unwrap_err();
    assert!(matches!(&e, SubmitError::InvalidRequest { field } if field == "buy_amount"));
}
