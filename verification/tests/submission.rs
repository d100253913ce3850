use trade_executor::address::EvmAddress;
use trade_executor::errors::SubmitError;
use trade_executor::plan::{
    build_bundle_plan, build_submission_plan, build_swap_call, bundle_result, choose_route,
    conclude_receipt_wait, direct_result, plan_instructions, PlannedTxKind, ReceiptWait,
    SubmissionRoute, TxStatus, WaitReport,
};
use trade_executor::poller::{poll_step, run_poll, PollEvent, PollOutcome, PollStep};
use trade_executor::request::{validate_trade_request, TradeRequest};

fn addr(last: u8) -> EvmAddress {
    let mut bytes = vec![0u8; 20];
    bytes[19] = last;
    EvmAddress::from_bytes(bytes).unwrap()
}

fn ids(names: &[&str]) -> Vec<String> {
    names.iter().map(|s| s.to_string()).collect()
}

#[test]
fn poll_confirms_on_late_terminal_within_deadline() {
    // Nine empty answers at one-second intervals, terminal on the tenth,
    // ten-second deadline: confirmed, nine to ten seconds in.
    let mut events = vec![PollEvent::NotReady; 9];
    events.push(PollEvent::Terminal { tx_ids: ids(&["trade-tx", "tip-tx"]) });
    let run = run_poll(events, 1000, 10_000);
    match run.outcome {
        PollOutcome::Confirmed { tx_ids } => assert_eq!(tx_ids, ids(&["trade-tx", "tip-tx"])),
        PollOutcome::TimedOut => panic!("should confirm"),
    }
    assert_eq!(run.elapsed_ms, 9000);
}

#[test]
fn poll_times_out_exactly_at_deadline_on_constant_failure() {
    // Every fetch fails (and fetches past the list fail too): timed out
    // exactly at the deadline, never earlier, never hanging.
    let run = run_poll(vec![PollEvent::FetchFailed; 3], 1000, 10_000);
    assert!(matches!(run.outcome, PollOutcome::TimedOut));
    assert_eq!(run.elapsed_ms, 10_000);
    // Interval not dividing the deadline: still exactly at the deadline.
    let run = run_poll(vec![], 3000, 10_000);
    assert!(matches!(run.outcome, PollOutcome::TimedOut));
    assert_eq!(run.elapsed_ms, 10_000);
}

#[test]
fn poll_succeeds_when_terminal_comes_early_enough() {
    // Terminal on the third fetch, 3 * 1000 < 10000: confirmed at 2000 ms.
    let events = vec![
        PollEvent::FetchFailed,
        PollEvent::NotReady,
        PollEvent::Terminal { tx_ids: ids(&["only-tx"]) },
    ];
    let run = run_poll(events, 1000, 10_000);
    assert!(matches!(run.outcome, PollOutcome::Confirmed { .. }));
    assert_eq!(run.elapsed_ms, 2000);
}

#[test]
fn poll_times_out_when_terminal_would_come_too_late() {
    // Against a 20000 ms deadline at 2000 ms steps the wait makes eleven
    // fetches, the last exactly at the deadline; a terminal answer that
    // would only come on the fourteenth fetch is never seen.
    let mut events = vec![PollEvent::NotReady; 13];
    events.push(PollEvent::Terminal { tx_ids: ids(&["late"]) });
    let run = run_poll(events, 2000, 20_000);
    assert!(matches!(run.outcome, PollOutcome::TimedOut));
    assert_eq!(run.elapsed_ms, 20_000);
}

#[test]
fn poll_zero_deadline_still_fetches_once() {
    let events = vec![PollEvent::Terminal { tx_ids: ids(&["fast"]) }];
    let run = run_poll(events, 1000, 0);
    assert!(matches!(run.outcome, PollOutcome::Confirmed { .. }));
    assert_eq!(run.elapsed_ms, 0);
    let run = run_poll(vec![], 1000, 0);
    assert!(matches!(run.outcome, PollOutcome::TimedOut));
    assert_eq!(run.elapsed_ms, 0);
}

#[test]
fn poll_step_decides_one_fetch() {
    let step = poll_step(PollEvent::Terminal { tx_ids: ids(&["t"]) }, 500, 1000, 10_000);
    match step {
        PollStep::Done { run } => {
            assert!(matches!(run.outcome, PollOutcome::Confirmed { .. }));
            assert_eq!(run.elapsed_ms, 500);
        },
        PollStep::Wait { .. } => panic!("terminal must finish"),
    }
    // Not terminal, deadline not reached: sleep a full interval ...
    assert!(matches!(poll_step(PollEvent::NotReady, 500, 1000, 10_000), PollStep::Wait { sleep_ms: 1000 }));
    // ... or only up to the deadline.
    assert!(matches!(poll_step(PollEvent::FetchFailed, 9500, 1000, 10_000), PollStep::Wait { sleep_ms: 500 }));
    // Not terminal at the deadline: timed out, exactly there.
    match poll_step(PollEvent::FetchFailed, 10_000, 1000, 10_000) {
        PollStep::Done { run } => {
            assert!(matches!(run.outcome, PollOutcome::TimedOut));
            assert_eq!(run.elapsed_ms, 10_000);
        },
        PollStep::Wait { .. } => panic!("deadline reached must finish"),
    }
}

#[test]
fn swap_call_carries_bound_deadline_and_value() {
    // Quoted expected output 1000 at half tolerance: bound 500; the call
    // expires deadline_secs after the given clock reading.
    let call = build_swap_call(addr(1), addr(2), addr(3), 20_000_000_000_000_000, Some(1000), 5000, 1_700_000_000, 30);
    assert_eq!(call.min_output, 500);
    assert_eq!(call.path.len(), 2);
    assert_eq!(call.path[0].bytes[19], 1);
    assert_eq!(call.path[1].bytes[19], 2);
    assert_eq!(call.recipient.bytes[19], 3);
    assert_eq!(call.deadline_unix, 1_700_000_030);
    assert_eq!(call.value_wei, 20_000_000_000_000_000);
}

#[test]
fn swap_call_quote_failure_is_not_fatal() {
    // No quote: the bound degrades to zero and the call is still built.
    let call = build_swap_call(addr(1), addr(2), addr(3), 5, None, 5000, 1_700_000_000, 60);
    assert_eq!(call.min_output, 0);
    assert_eq!(call.deadline_unix, 1_700_000_060);
}

#[test]
fn bundle_shares_one_checkpoint_and_caps_the_tip() {
    // Tip source suggested 0.2 native units; the bundle pays 0.1.
    let blockhash = vec![7u8; 32];
    let plan = build_bundle_plan(blockhash.clone(), b"tip-account".to_vec(), 200_000_000);
    assert_eq!(plan.txs.len(), 2);
    assert!(matches!(plan.txs[0].kind, PlannedTxKind::Trade));
    match &plan.txs[1].kind {
        PlannedTxKind::TipPayment { transfer } => {
            assert_eq!(transfer.to_account, b"tip-account".to_vec());
            assert_eq!(transfer.lamports, 100_000_000);
        },
        PlannedTxKind::Trade => panic!("second transaction is the tip"),
    }
    assert_eq!(plan.txs[0].blockhash, blockhash);
    assert_eq!(plan.txs[1].blockhash, blockhash);
}

#[test]
fn direct_broadcast_gets_priority_fee_instructions() {
    let planned = plan_instructions(vec!["swap"], "set-price", "set-limit", false);
    assert_eq!(planned, vec!["set-price", "set-limit", "swap"]);
    let planned = plan_instructions(vec!["swap"], "set-price", "set-limit", true);
    assert_eq!(planned, vec!["swap"]);
}

#[test]
fn route_dispatch_is_pure() {
    assert!(matches!(choose_route(true), SubmissionRoute::RelayBundle));
    assert!(matches!(choose_route(false), SubmissionRoute::DirectBroadcast));
    let plan = build_submission_plan(vec![1, 2], 90, 91, false);
    assert!(matches!(plan.route, SubmissionRoute::DirectBroadcast));
    assert_eq!(plan.instructions, vec![90, 91, 1, 2]);
    let plan = build_submission_plan(vec![1, 2], 90, 91, true);
    assert!(matches!(plan.route, SubmissionRoute::RelayBundle));
    assert_eq!(plan.instructions, vec![1, 2]);
}

#[test]
fn scenario_request_to_swap_call() {
    // A whole buy, decided: "0.02" native units at half tolerance, quoted
    // expected output 1000, thirty-second deadline.
    let intent = validate_trade_request(TradeRequest {
        target_token: b"0x000000000000000000000000000000000000dEaD".to_vec(),
        buy_amount: b"0.02".to_vec(),
        slippage_bps: 5000,
        deadline_secs: 30,
    })
    .unwrap();
    let call = build_swap_call(
        addr(9),
        intent.target,
        addr(3),
        intent.amount_in_wei,
        Some(1000),
        intent.slippage_bps,
        1_700_000_000,
        intent.deadline_secs,
    );
    assert_eq!(call.min_output, 500);
    assert_eq!(call.value_wei, 20_000_000_000_000_000);
    assert_eq!(call.deadline_unix, 1_700_000_030);
    assert_eq!(call.path[0].bytes[19], 9);
    assert_eq!(call.path[1].bytes[19], 0xad);
}

#[test]
fn receipt_wait_concludes_three_ways() {
    // A receipt: the id and its status code, zero where the node gave none.
    let report = conclude_receipt_wait(ReceiptWait::Included {
        tx_id: "0xfeed".to_string(),
        status_code: Some(1),
    });
    assert!(matches!(&report, WaitReport::Landed { tx_id, status_code: 1 } if tx_id == "0xfeed"));
    let report = conclude_receipt_wait(ReceiptWait::Included {
        tx_id: "0xdead".to_string(),
        status_code: None,
    });
    assert!(matches!(&report, WaitReport::Landed { status_code: 0, .. }));
    // No receipt yet: a distinct pending outcome, not an error.
    assert!(matches!(conclude_receipt_wait(ReceiptWait::NotIndexed), WaitReport::Pending));
    // A failed wait: fatal, with the node's words.
    let report = conclude_receipt_wait(ReceiptWait::Failed { message: "node down".to_string() });
    match report {
        WaitReport::Fatal { error } => {
            assert!(matches!(&error, SubmitError::Broadcast { message } if message == "node down"));
            assert_eq!(error.http_status(), 500);
        },
        _ => panic!("a failed wait is fatal"),
    }
}

#[test]
fn results_keep_order_and_status() {
    let rs = direct_result("0xabc".to_string(), TxStatus::Pending);
    assert_eq!(rs.len(), 1);
    assert_eq!(rs[0].tx_id, "0xabc");
    assert!(matches!(rs[0].status, TxStatus::Pending));
    let rs = bundle_result(ids(&["trade-tx", "tip-tx"]));
    assert_eq!(rs.len(), 2);
    assert_eq!(rs[0].tx_id, "trade-tx");
    assert_eq!(rs[1].tx_id, "tip-tx");
    assert!(matches!(rs[0].status, TxStatus::Succeeded));
    assert!(matches!(rs[1].status, TxStatus::Succeeded));
}
