//! Submission plans: the swap call, the instruction list, the relay bundle,
//! the route, and the terminal result shape.
//!
//! Everything here is a pure decision: given the validated trade, the quote,
//! the clock reading and the configuration, these functions lay out exactly
//! what is to be signed and sent. Signing, serialization and the sends
//! themselves belong to the embedding program.

use vstd::prelude::*;
use crate::address::EvmAddress;
use crate::clock::{deadline_from, deadline_spec};
use crate::errors::SubmitError;
use crate::fees::{relay_tip, MAX_TIP_LAMPORTS};
use crate::slippage::{min_output_from_quote, quote_min_output_spec};

verus! {

/// A swap call against the router, ready to be encoded and signed: buy the
/// target asset with the attached native value, along the two-hop path from
/// the wrapped native asset, refusing any output under the bound, and only
/// until the deadline.
#[derive(Debug)]
pub struct SwapCall {
    /// Least acceptable output, in the target asset's atomic units.
    pub min_output: u128,
    /// Swap path: wrapped native asset, then the target asset.
    pub path: Vec<EvmAddress>,
    /// Who receives the output: the signer's own address.
    pub recipient: EvmAddress,
    /// Absolute expiry, seconds since the Unix epoch.
    pub deadline_unix: u64,
    /// Native value attached to the call: the input amount.
    pub value_wei: u128,
}

/// Build the swap call for a validated trade. The bound is the
/// slippage-protected minimum for the quote (zero where the quote query
/// failed: a missing quote degrades, it never blocks); the deadline is the
/// clock reading plus the request's offset.
pub fn build_swap_call(
    base_asset: EvmAddress,
    target_asset: EvmAddress,
    recipient: EvmAddress,
    amount_in_wei: u128,
    quoted_output: Option<u128>,
    slippage_bps: i64,
    now_unix: i64,
    deadline_offset_secs: u64,
) -> (r: SwapCall)
    ensures
        r.min_output == quote_min_output_spec(quoted_output, slippage_bps as int),
        r.path@.len() == 2 && r.path@[0] == base_asset && r.path@[1] == target_asset,
        r.recipient == recipient,
        r.deadline_unix == deadline_spec(now_unix, deadline_offset_secs),
        r.value_wei == amount_in_wei,
{
    let min_output = min_output_from_quote(quoted_output, slippage_bps);
    let mut path: Vec<EvmAddress> = Vec::new();
    path.push(base_asset);
    path.push(target_asset);
    let deadline_unix = deadline_from(now_unix, deadline_offset_secs);
    SwapCall { min_output, path, recipient, deadline_unix, value_wei: amount_in_wei }
}

/// Where a submission goes: through the private relay as a bundle, or
/// straight to the node.
#[derive(Debug)]
pub enum SubmissionRoute {
    RelayBundle,
    DirectBroadcast,
}

/// Pure dispatch between the two submission paths.
pub fn choose_route(use_relay: bool) -> (r: SubmissionRoute)
    ensures
        r is RelayBundle <==> use_relay,
{
    if use_relay {
        SubmissionRoute::RelayBundle
    } else {
        SubmissionRoute::DirectBroadcast
    }
}

/// The instruction list actually signed: for a direct broadcast the two
/// compute-budget instructions (unit price, then unit limit) go in front of
/// the trade's own instructions; a relay bundle pays through its tip instead
/// and the list stays as it came.
pub fn plan_instructions<T>(trade: Vec<T>, price_ix: T, limit_ix: T, use_relay: bool) -> (r: Vec<
    T,
>)
    ensures
        use_relay ==> r@ == trade@,
        !use_relay ==> r@ == seq![price_ix, limit_ix] + trade@,
{
    if use_relay {
        trade
    } else {
        let mut out: Vec<T> = Vec::new();
        out.push(price_ix);
        out.push(limit_ix);
        let mut rest = trade;
        out.append(&mut rest);
        proof {
            assert(out@ =~= seq![price_ix, limit_ix] + trade@);
        }
        out
    }
}

/// A whole submission, built once per trade and consumed exactly once.
#[derive(Debug)]
pub struct SubmissionPlan<T> {
    pub instructions: Vec<T>,
    pub route: SubmissionRoute,
}

/// Lay out one submission: pick the route from configuration, and shape the
/// instruction list for it.
pub fn build_submission_plan<T>(trade: Vec<T>, price_ix: T, limit_ix: T, use_relay: bool) -> (r:
    SubmissionPlan<T>)
    ensures
        r.route is RelayBundle <==> use_relay,
        use_relay ==> r.instructions@ == trade@,
        !use_relay ==> r.instructions@ == seq![price_ix, limit_ix] + trade@,
{
    let route = choose_route(use_relay);
    let instructions = plan_instructions(trade, price_ix, limit_ix, use_relay);
    SubmissionPlan { instructions, route }
}

/// The tip payment of a relay bundle.
#[derive(Debug)]
pub struct TipTransfer {
    /// The relay-designated account the tip goes to, as address text.
    pub to_account: Vec<u8>,
    /// The tip amount, already capped by policy.
    pub lamports: u64,
}

/// What one planned bundle transaction is.
#[derive(Debug)]
pub enum PlannedTxKind {
    /// The trade transaction itself, signed elsewhere from the plan's
    /// instruction list.
    Trade,
    /// The tip payment to the relay's account.
    TipPayment { transfer: TipTransfer },
}

/// One transaction of a bundle: its role, and the chain checkpoint
/// ("blockhash") it is priced against.
#[derive(Debug)]
pub struct PlannedTx {
    pub kind: PlannedTxKind,
    pub blockhash: Vec<u8>,
}

/// An ordered two-transaction relay bundle: the trade, then the tip.
#[derive(Debug)]
pub struct BundlePlan {
    pub txs: Vec<PlannedTx>,
}

/// An exact copy of a byte string.
fn copy_bytes(src: &Vec<u8>) -> (r: Vec<u8>)
    ensures
        r@ == src@,
{
    let mut out: Vec<u8> = Vec::new();
    let mut i: usize = 0;
    while i < src.len()
        invariant
            0 <= i <= src@.len(),
            out@ =~= src@.take(i as int),
        decreases src@.len() - i,
    {
        out.push(src[i]);
        i = i + 1;
    }
    proof {
        assert(src@.take(src@.len() as int) =~= src@);
    }
    out
}

/// Build a relay bundle: the trade transaction first, then a tip payment to
/// the relay's account, the tip capped at the policy ceiling, and both
/// transactions priced against the one shared checkpoint.
pub fn build_bundle_plan(blockhash: Vec<u8>, tip_account: Vec<u8>, requested_tip_lamports: u64) -> (r:
    BundlePlan)
    ensures
        r.txs@.len() == 2,
        r.txs@[0].kind is Trade,
        r.txs@[1].kind matches PlannedTxKind::TipPayment { transfer } && (
        transfer.to_account@ == tip_account@ && transfer.lamports == if requested_tip_lamports
            <= MAX_TIP_LAMPORTS {
            requested_tip_lamports as int
        } else {
            MAX_TIP_LAMPORTS as int
        }),
        r.txs@[0].blockhash@ == blockhash@,
        r.txs@[1].blockhash@ == blockhash@,
{
    let tip_lamports = relay_tip(requested_tip_lamports);
    let shared = copy_bytes(&blockhash);
    let trade_tx = PlannedTx { kind: PlannedTxKind::Trade, blockhash };
    let tip_tx = PlannedTx {
        kind: PlannedTxKind::TipPayment {
            transfer: TipTransfer { to_account: tip_account, lamports: tip_lamports },
        },
        blockhash: shared,
    };
    let mut txs: Vec<PlannedTx> = Vec::new();
    txs.push(trade_tx);
    txs.push(tip_tx);
    BundlePlan { txs }
}

/// How an included transaction ended.
#[derive(Debug)]
pub enum TxStatus {
    /// Included and executed successfully.
    Succeeded,
    /// Included but reverted.
    Reverted,
    /// Broadcast, but no receipt yet: terminal for this wait, not an error.
    Pending,
}

/// One line of a submission's result.
#[derive(Debug)]
pub struct TxRecord {
    pub tx_id: String,
    pub status: TxStatus,
}

/// What awaiting inclusion of a broadcast transaction came back with, as
/// plain values.
#[derive(Debug)]
pub enum ReceiptWait {
    /// The node returned a receipt: the transaction id, and its status code
    /// where the node gave one (1 means executed successfully).
    Included { tx_id: String, status_code: Option<u64> },
    /// No receipt yet: the node has not indexed the transaction.
    NotIndexed,
    /// The wait itself failed at the node.
    Failed { message: String },
}

/// How a finished receipt wait is reported.
#[derive(Debug)]
pub enum WaitReport {
    /// Included: the transaction id and its status code, zero where the node
    /// gave none.
    Landed { tx_id: String, status_code: u64 },
    /// Broadcast but not yet indexed: a distinct terminal outcome, no error.
    Pending,
    /// The wait failed: fatal, reported with the node's own words.
    Fatal { error: SubmitError },
}

/// Conclude a receipt wait: an inclusion is reported with its id and status
/// code, a missing receipt as the distinct pending outcome, and a failed wait
/// as a broadcast-class error carrying the node's message.
pub fn conclude_receipt_wait(wait: ReceiptWait) -> (r: WaitReport)
    ensures
        wait matches ReceiptWait::Included { tx_id, status_code } ==> (r matches
            WaitReport::Landed { tx_id: t, status_code: c } && t == tx_id && c == (
        match status_code {
            Some(s) => s,
            None => 0u64,
        })),
        wait is NotIndexed ==> r is Pending,
        wait matches ReceiptWait::Failed { message } ==> (r matches WaitReport::Fatal { error }
            && error matches SubmitError::Broadcast { message: m } && m == message),
{
    match wait {
        ReceiptWait::Included { tx_id, status_code } => {
            let code: u64 = match status_code {
                Some(s) => s,
                None => 0,
            };
            WaitReport::Landed { tx_id, status_code: code }
        },
        ReceiptWait::NotIndexed => WaitReport::Pending,
        ReceiptWait::Failed { message } => WaitReport::Fatal {
            error: SubmitError::Broadcast { message },
        },
    }
}

/// The result of a direct broadcast: one record.
pub fn direct_result(tx_id: String, status: TxStatus) -> (r: Vec<TxRecord>)
    ensures
        r@.len() == 1,
        r@[0].tx_id == tx_id,
        r@[0].status == status,
{
    let mut out: Vec<TxRecord> = Vec::new();
    out.push(TxRecord { tx_id, status });
    out
}

/// The result of a confirmed bundle: one record per landed transaction, in
/// the order the confirmation reported them, each marked succeeded.
pub fn bundle_result(tx_ids: Vec<String>) -> (r: Vec<TxRecord>)
    ensures
        r@.len() == tx_ids@.len(),
        forall|i: int| 0 <= i < r@.len() ==> (#[trigger] r@[i]).tx_id == tx_ids@[i],
        forall|i: int| 0 <= i < r@.len() ==> (#[trigger] r@[i]).status is Succeeded,
{
    let ghost orig = tx_ids@;
    let mut ids = tx_ids;
    let mut out: Vec<TxRecord> = Vec::new();
    while ids.len() > 0
        invariant
            out@.len() + ids@.len() == orig.len(),
            ids@ =~= orig.skip(out@.len() as int),
            forall|i: int| 0 <= i < out@.len() ==> (#[trigger] out@[i]).tx_id == orig[i],
            forall|i: int| 0 <= i < out@.len() ==> (#[trigger] out@[i]).status is Succeeded,
        decreases ids@.len(),
    {
        let id = ids.remove(0);
        proof {
            assert(id == orig[out@.len() as int]);
            assert(ids@ =~= orig.skip(out@.len() as int + 1));
        }
        let rec = TxRecord { tx_id: id, status: TxStatus::Succeeded };
        let ghost grec = rec;
        let ghost pre = out@;
        out.push(rec);
        proof {
            assert(out@ == pre.push(grec));
            assert forall|i: int| 0 <= i < out@.len() implies (#[trigger] out@[i]).tx_id == orig[i]
                && out@[i].status is Succeeded by {
                if i < pre.len() {
                    assert(out@[i] == pre[i]);
                } else {
                    assert(out@[i] == grec);
                }
            }
        }
    }
    out
}

} // verus!
