//! Bounded-retry confirmation polling.
//!
//! A submitted bundle is resolved by fetching its status repeatedly, at a
//! fixed interval, until a fetch reports a terminal status or a hard deadline
//! expires. A fetch that fails or reports nothing terminal never aborts the
//! wait --- transient relay unavailability is not a failed trade --- it only
//! lets the clock run. The wait never overshoots: the sleep before the last
//! fetch is shortened so that, without a terminal status, the wait ends in a
//! timeout exactly at the deadline.
//!
//! The k-th fetch (counting from zero) happens `min(k * interval, deadline)`
//! milliseconds in; fetches stop after the first one at the deadline itself,
//! so at most `ceil(deadline / interval) + 1` fetches happen. `poll_step`
//! decides one fetch; the driver that performs fetches and sleeps sits
//! outside the library, or in `run_poll` over a pre-recorded event list.

use vstd::prelude::*;
use vstd::arithmetic::div_mod::{
    lemma_div_is_ordered, lemma_div_multiples_vanish, lemma_div_multiples_vanish_fancy,
};
use vstd::arithmetic::mul::{
    lemma_mul_basics, lemma_mul_is_commutative, lemma_mul_is_distributive_add,
    lemma_mul_is_distributive_add_other_way, lemma_mul_is_distributive_sub_other_way,
};

verus! {

/// What one status fetch reported.
#[derive(Clone, Debug)]
pub enum PollEvent {
    /// A non-empty, terminal status list: these transactions landed.
    Terminal { tx_ids: Vec<String> },
    /// A well-formed answer with nothing terminal in it yet.
    NotReady,
    /// The fetch itself failed; absorbed, polling goes on.
    FetchFailed,
}

/// How a whole wait ended.
#[derive(Debug)]
pub enum PollOutcome {
    /// A fetch reported terminal transactions before the deadline passed.
    Confirmed { tx_ids: Vec<String> },
    /// The deadline passed with nothing terminal reported.
    TimedOut,
}

/// A finished wait: its outcome and how many milliseconds in it ended.
#[derive(Debug)]
pub struct PollRun {
    pub outcome: PollOutcome,
    pub elapsed_ms: u64,
}

/// What one fetch decides: finish the wait, or sleep and fetch again.
#[derive(Debug)]
pub enum PollStep {
    Done { run: PollRun },
    Wait { sleep_ms: u64 },
}

/// The k-th fetch's answer, for a (conceptually unbounded) run of fetches
/// described by a finite prefix: fetches past the prefix count as failed.
pub open spec fn event_at(events: Seq<PollEvent>, k: int) -> PollEvent {
    if 0 <= k < events.len() {
        events[k]
    } else {
        PollEvent::FetchFailed
    }
}

/// Number of fetches a wait makes when none is terminal:
/// `ceil(deadline / interval) + 1`, the last one exactly at the deadline.
pub open spec fn max_polls(interval_ms: u64, deadline_ms: u64) -> int
    recommends
        interval_ms >= 1,
{
    (deadline_ms + interval_ms - 1) / (interval_ms as int) + 1
}

/// Index of the first terminal fetch at or after `from`, or `limit` if none
/// comes before `limit`.
pub open spec fn first_terminal_from(events: Seq<PollEvent>, from: int, limit: int) -> int
    decreases limit - from,
{
    if from >= limit {
        limit
    } else if event_at(events, from) is Terminal {
        from
    } else {
        first_terminal_from(events, from + 1, limit)
    }
}

/// Index of the fetch that resolves the wait, or `max_polls` if none does.
pub open spec fn first_terminal(events: Seq<PollEvent>, interval_ms: u64, deadline_ms: u64) -> int {
    first_terminal_from(events, 0, max_polls(interval_ms, deadline_ms))
}

/// Whether the wait confirms (some fetch it makes is terminal).
pub open spec fn poll_confirms(events: Seq<PollEvent>, interval_ms: u64, deadline_ms: u64) -> bool {
    first_terminal(events, interval_ms, deadline_ms) < max_polls(interval_ms, deadline_ms)
}

/// When the wait ends, in milliseconds: at the resolving fetch, or exactly at
/// the deadline.
pub open spec fn poll_elapsed_spec(
    events: Seq<PollEvent>,
    interval_ms: u64,
    deadline_ms: u64,
) -> int {
    if poll_confirms(events, interval_ms, deadline_ms) {
        vstd::math::min(
            first_terminal(events, interval_ms, deadline_ms) * interval_ms,
            deadline_ms as int,
        )
    } else {
        deadline_ms as int
    }
}

/// Decide one fetch: a terminal answer confirms at once; any other answer
/// times the wait out if the deadline has been reached, and otherwise asks
/// for a sleep that never overshoots the deadline.
pub fn poll_step(event: PollEvent, elapsed_ms: u64, interval_ms: u64, deadline_ms: u64) -> (r:
    PollStep)
    requires
        interval_ms >= 1,
    ensures
        event matches PollEvent::Terminal { tx_ids } ==> (r matches PollStep::Done { run }
            && run.outcome matches PollOutcome::Confirmed { tx_ids: got } && got == tx_ids
            && run.elapsed_ms == elapsed_ms),
        !(event is Terminal) && elapsed_ms >= deadline_ms ==> (r matches PollStep::Done { run }
            && run.outcome is TimedOut && run.elapsed_ms == elapsed_ms),
        !(event is Terminal) && elapsed_ms < deadline_ms ==> (r matches PollStep::Wait { sleep_ms }
            && sleep_ms == vstd::math::min(interval_ms as int, deadline_ms - elapsed_ms)
            && 1 <= sleep_ms),
{
    match event {
        PollEvent::Terminal { tx_ids } => PollStep::Done {
            run: PollRun { outcome: PollOutcome::Confirmed { tx_ids }, elapsed_ms },
        },
        _ => {
            if elapsed_ms >= deadline_ms {
                PollStep::Done { run: PollRun { outcome: PollOutcome::TimedOut, elapsed_ms } }
            } else {
                let remaining = deadline_ms - elapsed_ms;
                let sleep_ms = if interval_ms < remaining {
                    interval_ms
                } else {
                    remaining
                };
                PollStep::Wait { sleep_ms }
            }
        },
    }
}

/// `first_terminal_from` pinned down: if nothing before `k` is terminal and
/// `k` (where it is fetched at all) is, the first terminal index is `k`.
proof fn lemma_first_terminal_value(events: Seq<PollEvent>, from: int, limit: int, k: int)
    requires
        from <= k <= limit,
        forall|j: int| from <= j < k ==> !(#[trigger] event_at(events, j) is Terminal),
        k < limit ==> event_at(events, k) is Terminal,
    ensures
        first_terminal_from(events, from, limit) == k,
    decreases k - from,
{
    if from < k {
        assert(!(event_at(events, from) is Terminal));
        lemma_first_terminal_value(events, from + 1, limit, k);
    }
}

/// `ceil(d / i) <= k` exactly when `k * i >= d` (for positive `i`): the two
/// ways the loop and the spec count fetches agree.
proof fn lemma_ceil_le(d: int, i: int, k: int)
    requires
        i >= 1,
        0 <= d,
        0 <= k,
    ensures
        (d + i - 1) / i <= k <==> d <= k * i,
{
    if d <= k * i {
        lemma_div_is_ordered(d + i - 1, k * i + i - 1, i);
        lemma_mul_is_commutative(k, i);
        lemma_div_multiples_vanish_fancy(k, i - 1, i);
        assert(i * k + (i - 1) == k * i + i - 1);
    }
    if (d + i - 1) / i <= k && d > k * i {
        lemma_mul_is_distributive_add(i, k, 1);
        lemma_mul_is_commutative(i, k);
        lemma_mul_basics(i);
        assert(i * (k + 1) == k * i + i);
        lemma_mul_is_commutative(k + 1, i);
        lemma_div_multiples_vanish(k + 1, i);
        lemma_div_is_ordered(i * (k + 1), d + i - 1, i);
        assert(false);
    }
}

/// Drive a whole wait over a pre-recorded list of fetch answers: the k-th
/// fetch gets `events[k]`, and fetches past the end of the list count as
/// failed. Ends exactly as the specification functions say: confirmed with
/// the first terminal answer's transactions, at `min(k * interval, deadline)`
/// milliseconds, or timed out exactly at the deadline.
#[verifier::loop_isolation(false)]
pub fn run_poll(events: Vec<PollEvent>, interval_ms: u64, deadline_ms: u64) -> (r: PollRun)
    requires
        interval_ms >= 1,
    ensures
        r.outcome is Confirmed <==> poll_confirms(events@, interval_ms, deadline_ms),
        r.outcome matches PollOutcome::Confirmed { tx_ids: got } ==> (event_at(
            events@,
            first_terminal(events@, interval_ms, deadline_ms),
        ) matches PollEvent::Terminal { tx_ids: want } && got == want),
        r.elapsed_ms == poll_elapsed_spec(events@, interval_ms, deadline_ms),
{
    let ghost orig = events@;
    let ghost limit = max_polls(interval_ms, deadline_ms);
    proof {
        vstd::arithmetic::div_mod::lemma_div_pos_is_pos(deadline_ms + interval_ms - 1, interval_ms as int);
        assert(limit >= 1);
    }
    let mut evs = events;
    let mut elapsed: u64 = 0;
    let mut k: u64 = 0;
    loop
        invariant
            interval_ms >= 1,
            0 <= k,
            k as int <= orig.len() ==> evs@ =~= orig.skip(k as int),
            k as int > orig.len() ==> evs@.len() == 0,
            elapsed == vstd::math::min(k as int * interval_ms, deadline_ms as int),
            k < max_polls(interval_ms, deadline_ms),
            forall|j: int| 0 <= j < k ==> !(#[trigger] event_at(orig, j) is Terminal),
        decreases deadline_ms - elapsed,
    {
        let ev: PollEvent = if evs.len() > 0 {
            evs.remove(0)
        } else {
            PollEvent::FetchFailed
        };
        proof {
            if k as int <= orig.len() {
                if orig.len() > k as int {
                    assert(ev == orig[k as int]);
                    assert(evs@ =~= orig.skip(k as int).remove(0));
                    assert(evs@ =~= orig.skip(k as int + 1));
                } else {
                    assert(evs@.len() == 0);
                }
            }
            assert(ev == event_at(orig, k as int));
        }
        let step = poll_step(ev, elapsed, interval_ms, deadline_ms);
        match step {
            PollStep::Done { run } => {
                proof {
                    if ev is Terminal {
                        lemma_first_terminal_value(orig, 0, limit, k as int);
                        lemma_mul_is_commutative(k as int, interval_ms as int);
                    } else {
                        // timed out: `elapsed >= deadline`, so this was the
                        // last fetch the wait makes.
                        assert(elapsed >= deadline_ms);
                        assert(k as int * interval_ms >= deadline_ms);
                        lemma_ceil_le(deadline_ms as int, interval_ms as int, k as int);
                        assert(limit <= k as int + 1);
                        assert(forall|j: int|
                            0 <= j < limit ==> !(#[trigger] event_at(orig, j) is Terminal));
                        lemma_first_terminal_value(orig, 0, limit, limit);
                        assert(elapsed == deadline_ms);
                    }
                }
                return run;
            },
            PollStep::Wait { sleep_ms } => {
                proof {
                    // elapsed < deadline here, so k * interval < deadline and
                    // one more fetch still fits under the cap.
                    assert(elapsed < deadline_ms);
                    assert(k as int * interval_ms < deadline_ms);
                    lemma_ceil_le(deadline_ms as int, interval_ms as int, k as int);
                    assert((deadline_ms + interval_ms - 1) / (interval_ms as int) > k);
                    assert(k as int + 1 < max_polls(interval_ms, deadline_ms));
                    lemma_mul_is_distributive_add_other_way(interval_ms as int, k as int, 1);
                    lemma_mul_is_commutative(k as int + 1, interval_ms as int);
                    lemma_mul_is_commutative(k as int, interval_ms as int);
                    lemma_mul_basics(interval_ms as int);
                    // k itself stays under the deadline, so k + 1 fits.
                    vstd::arithmetic::mul::lemma_mul_inequality(1, interval_ms as int, k as int);
                    lemma_mul_is_commutative(interval_ms as int, k as int);
                    lemma_mul_basics(k as int);
                    assert(k as int <= k as int * interval_ms);
                }
                elapsed = elapsed + sleep_ms;
                k = k + 1;
            },
        }
    }
}

/// When every fetch answer is transient (never terminal), the wait fails
/// with a timeout exactly at the deadline --- never earlier; and because
/// the loop above terminates, never later either.
pub proof fn lemma_all_failures_time_out(events: Seq<PollEvent>, interval_ms: u64, deadline_ms: u64)
    requires
        interval_ms >= 1,
        forall|j: int| 0 <= j < events.len() ==> !(#[trigger] events[j] is Terminal),
    ensures
        !poll_confirms(events, interval_ms, deadline_ms),
        poll_elapsed_spec(events, interval_ms, deadline_ms) == deadline_ms,
{
    let limit = max_polls(interval_ms, deadline_ms);
    vstd::arithmetic::div_mod::lemma_div_pos_is_pos(deadline_ms + interval_ms - 1, interval_ms as int);
    assert(forall|j: int| 0 <= j < limit ==> !(#[trigger] event_at(events, j) is Terminal));
    lemma_first_terminal_value(events, 0, limit, limit);
}

/// A terminal answer on the n-th fetch (counting from one) confirms the wait
/// whenever `n * interval < deadline`.
pub proof fn lemma_terminal_within_deadline_confirms(
    events: Seq<PollEvent>,
    interval_ms: u64,
    deadline_ms: u64,
    n: int,
)
    requires
        interval_ms >= 1,
        1 <= n,
        n * interval_ms < deadline_ms,
        event_at(events, n - 1) is Terminal,
        forall|j: int| 0 <= j < n - 1 ==> !(#[trigger] event_at(events, j) is Terminal),
    ensures
        poll_confirms(events, interval_ms, deadline_ms),
        first_terminal(events, interval_ms, deadline_ms) == n - 1,
        poll_elapsed_spec(events, interval_ms, deadline_ms) == (n - 1) * interval_ms,
{
    let limit = max_polls(interval_ms, deadline_ms);
    lemma_ceil_le(deadline_ms as int, interval_ms as int, n);
    assert(n < limit);
    lemma_first_terminal_value(events, 0, limit, n - 1);
    lemma_mul_is_distributive_sub_other_way(interval_ms as int, n, 1);
    lemma_mul_is_commutative(n, interval_ms as int);
    lemma_mul_is_commutative(n - 1, interval_ms as int);
    lemma_mul_basics(interval_ms as int);
    assert((n - 1) * interval_ms <= deadline_ms);
}

/// A terminal answer that would only come on the n-th fetch with
/// `(n - 2) * interval >= deadline` comes too late: the wait has already
/// timed out, exactly at the deadline.
pub proof fn lemma_terminal_past_deadline_times_out(
    events: Seq<PollEvent>,
    interval_ms: u64,
    deadline_ms: u64,
    n: int,
)
    requires
        interval_ms >= 1,
        2 <= n,
        (n - 2) * interval_ms >= deadline_ms,
        forall|j: int| 0 <= j < n - 1 ==> !(#[trigger] event_at(events, j) is Terminal),
    ensures
        !poll_confirms(events, interval_ms, deadline_ms),
        poll_elapsed_spec(events, interval_ms, deadline_ms) == deadline_ms,
{
    let limit = max_polls(interval_ms, deadline_ms);
    lemma_ceil_le(deadline_ms as int, interval_ms as int, n - 2);
    assert(limit <= n - 1);
    vstd::arithmetic::div_mod::lemma_div_pos_is_pos(deadline_ms + interval_ms - 1, interval_ms as int);
    assert(forall|j: int| 0 <= j < limit ==> !(#[trigger] event_at(events, j) is Terminal));
    lemma_first_terminal_value(events, 0, limit, limit);
}

} // verus!
