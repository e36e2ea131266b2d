//! Completion dispatcher: once per tick, each outstanding handle's readiness
//! report from the foreign runtime is resolved against the registry.  A
//! ready report takes the pending entry — so no entry is ever dispatched
//! twice — and decides what must happen: hand the callback an I/O-failure
//! outcome, hand it the decoded payload, or stop on a fatal
//! internal-consistency fault when the reported payload cannot belong to
//! the registered kind.  The decision is returned as an action for the
//! unverified shell to perform; the shell owns the actual closures.

use vstd::prelude::*;

use crate::codec::{decode_payload, decode_spec, expected_len, expected_payload_len, kind_known,
    u64_from_le_spec, CallOutcome, DecodedValue};
use crate::registry::{CallbackToken, PendingCall, PendingRegistry};

verus! {

/// What the foreign runtime answered when asked whether a handle's result
/// is ready: not yet, or ready with an I/O-failure flag and the raw result
/// payload.
#[derive(Clone, PartialEq, Eq, Debug)]
pub enum CompletionReport {
    NotReady,
    Ready { io_error: bool, payload: Vec<u8> },
}

/// An unrecoverable internal-consistency fault: the kind registered for a
/// handle and the result the foreign runtime delivered disagree.  Decoding
/// must not silently proceed, and the dispatch is aborted loudly instead.
#[derive(Clone, Copy, PartialEq, Eq, Structural, Debug)]
pub enum BridgeFault {
    /// The registered kind has no decoder-table entry.
    UnknownKind { kind: u32 },
    /// The reported payload length is not what the kind's decoder expects.
    PayloadSizeMismatch { kind: u32, expected: usize, actual: usize },
}

/// What one handle's dispatch decided must happen next.
#[derive(Clone, Copy, PartialEq, Eq, Structural, Debug)]
pub enum DispatchAction {
    /// Not ready: the entry, if any, stays for a later tick.
    Retain,
    /// Ready, but no entry is registered for the handle — it was already
    /// dispatched or never registered.  The result is dropped silently;
    /// the race was already resolved by the take's exclusivity.
    Dropped,
    /// The named callback must be invoked, exactly once, with this outcome.
    Invoke { callback: CallbackToken, outcome: CallOutcome },
    /// Fatal fault; no callback is invoked and the bridge must stop loudly.
    Fatal { fault: BridgeFault },
}

/// Registry contents after `handle`'s report is dispatched: a ready report
/// evicts the handle's entry whatever the outcome; anything else leaves the
/// registry untouched.
pub open spec fn dispatch_post(
    m: Map<u64, PendingCall>,
    handle: u64,
    report: CompletionReport,
) -> Map<u64, PendingCall> {
    if report is Ready && m.contains_key(handle) {
        m.remove(handle)
    } else {
        m
    }
}

/// Action a dispatch of `handle`'s report decides on, given the registry
/// contents `m` at the moment the entry is taken.
pub open spec fn dispatch_decision(
    m: Map<u64, PendingCall>,
    handle: u64,
    report: CompletionReport,
) -> DispatchAction {
    match report {
        CompletionReport::NotReady => DispatchAction::Retain,
        CompletionReport::Ready { io_error, payload } => {
            if !m.contains_key(handle) {
                DispatchAction::Dropped
            } else {
                let entry = m[handle];
                if io_error {
                    DispatchAction::Invoke {
                        callback: entry.callback,
                        outcome: CallOutcome::IoFailure,
                    }
                } else if !kind_known(entry.kind) {
                    DispatchAction::Fatal { fault: BridgeFault::UnknownKind { kind: entry.kind } }
                } else if payload.len() != expected_len(entry.kind) {
                    DispatchAction::Fatal {
                        fault: BridgeFault::PayloadSizeMismatch {
                            kind: entry.kind,
                            expected: expected_len(entry.kind) as usize,
                            actual: payload.len() as usize,
                        },
                    }
                } else {
                    DispatchAction::Invoke {
                        callback: entry.callback,
                        outcome: CallOutcome::Success { value: decode_spec(entry.kind, payload@) },
                    }
                }
            }
        },
    }
}

/// Resolves one handle's readiness report against the registry: takes the
/// entry exactly when the report is ready, and returns the decided action.
pub fn dispatch_handle(
    registry: &mut PendingRegistry,
    handle: u64,
    report: &CompletionReport,
) -> (action: DispatchAction)
    ensures
        final(registry)@ == dispatch_post(old(registry)@, handle, *report),
        action == dispatch_decision(old(registry)@, handle, *report),
{
    match report {
        CompletionReport::NotReady => DispatchAction::Retain,
        CompletionReport::Ready { io_error, payload } => {
            match registry.take(handle) {
                None => DispatchAction::Dropped,
                Some(entry) => {
                    if *io_error {
                        DispatchAction::Invoke {
                            callback: entry.callback,
                            outcome: CallOutcome::IoFailure,
                        }
                    } else {
                        match expected_payload_len(entry.kind) {
                            None => DispatchAction::Fatal {
                                fault: BridgeFault::UnknownKind { kind: entry.kind },
                            },
                            Some(expected) => {
                                if payload.len() != expected {
                                    DispatchAction::Fatal {
                                        fault: BridgeFault::PayloadSizeMismatch {
                                            kind: entry.kind,
                                            expected,
                                            actual: payload.len(),
                                        },
                                    }
                                } else {
                                    DispatchAction::Invoke {
                                        callback: entry.callback,
                                        outcome: CallOutcome::Success {
                                            value: decode_payload(entry.kind, payload),
                                        },
                                    }
                                }
                            },
                        }
                    }
                },
            }
        },
    }
}

/// Registry contents after a tick's reports are dispatched first to last.
pub open spec fn tick_post(
    m: Map<u64, PendingCall>,
    reports: Seq<(u64, CompletionReport)>,
) -> Map<u64, PendingCall>
    decreases reports.len(),
{
    if reports.len() == 0 {
        m
    } else {
        tick_post(dispatch_post(m, reports[0].0, reports[0].1), reports.skip(1))
    }
}

/// Actions a tick's reports decide on, first to last, each against the
/// registry as the reports before it left it.
pub open spec fn tick_decisions(
    m: Map<u64, PendingCall>,
    reports: Seq<(u64, CompletionReport)>,
) -> Seq<DispatchAction>
    decreases reports.len(),
{
    if reports.len() == 0 {
        Seq::<DispatchAction>::empty()
    } else {
        seq![dispatch_decision(m, reports[0].0, reports[0].1)] + tick_decisions(
            dispatch_post(m, reports[0].0, reports[0].1),
            reports.skip(1),
        )
    }
}

/// One dispatch tick: resolves every gathered readiness report in order and
/// returns the decided action for each, aligned with the reports.
pub fn dispatch_tick(registry: &mut PendingRegistry, reports: &Vec<(u64, CompletionReport)>) -> (
    actions: Vec<DispatchAction>)
    ensures
        final(registry)@ == tick_post(old(registry)@, reports@),
        actions@ == tick_decisions(old(registry)@, reports@),
{
    let mut actions: Vec<DispatchAction> = Vec::new();
    let n = reports.len();
    let mut i: usize = 0;
    proof {
        assert(reports@.skip(0) =~= reports@);
        assert(actions@ + tick_decisions(registry@, reports@) =~= tick_decisions(
            registry@,
            reports@,
        ));
    }
    while i < n
        invariant
            n == reports@.len(),
            i <= n,
            actions@.len() == i,
            tick_post(old(registry)@, reports@) == tick_post(registry@, reports@.skip(i as int)),
            tick_decisions(old(registry)@, reports@) == actions@ + tick_decisions(
                registry@,
                reports@.skip(i as int),
            ),
        decreases n - i,
    {
        proof {
            assert(reports@.skip(i as int)[0] == reports@[i as int]);
            assert(reports@.skip(i as int).skip(1) =~= reports@.skip(i as int + 1));
        }
        let action = dispatch_handle(registry, reports[i].0, &reports[i].1);
        actions.push(action);
        i = i + 1;
    }
    proof {
        assert(reports@.skip(n as int) =~= Seq::<(u64, CompletionReport)>::empty());
        assert(actions@ + Seq::<DispatchAction>::empty() =~= actions@);
    }
    actions
}

/// A tick decides exactly one action per gathered report.
pub proof fn lemma_tick_decisions_len(m: Map<u64, PendingCall>, reports: Seq<(u64, CompletionReport)>)
    ensures
        tick_decisions(m, reports).len() == reports.len(),
    decreases reports.len(),
{
    if reports.len() > 0 {
        lemma_tick_decisions_len(
            dispatch_post(m, reports[0].0, reports[0].1),
            reports.skip(1),
        );
    }
}

/// A handle with no registry entry can never have a callback invoked on
/// its behalf anywhere in a tick: every report naming it is dropped or
/// retained, never delivered.
pub proof fn lemma_absent_handle_never_invoked(
    m: Map<u64, PendingCall>,
    reports: Seq<(u64, CompletionReport)>,
    handle: u64,
)
    requires
        !m.contains_key(handle),
    ensures
        forall|i: int|
            0 <= i < reports.len() && reports[i].0 == handle ==> !(#[trigger] tick_decisions(
                m,
                reports,
            )[i] is Invoke),
    decreases reports.len(),
{
    lemma_tick_decisions_len(m, reports);
    if reports.len() > 0 {
        let post = dispatch_post(m, reports[0].0, reports[0].1);
        assert(!post.contains_key(handle));
        lemma_absent_handle_never_invoked(post, reports.skip(1), handle);
        assert forall|i: int|
            0 <= i < reports.len() && reports[i].0 == handle implies !(#[trigger] tick_decisions(
            m,
            reports,
        )[i] is Invoke) by {
            if i > 0 {
                assert(reports.skip(1)[i - 1] == reports[i]);
                assert(tick_decisions(m, reports)[i] == tick_decisions(post, reports.skip(1))[i
                    - 1]);
            }
        }
    }
}

/// Within one tick, however many reports name the same handle, at most one
/// of them has that handle's callback invoked: the first ready report
/// takes the entry, and every later report finds nothing.
pub proof fn lemma_tick_invokes_at_most_once(
    m: Map<u64, PendingCall>,
    reports: Seq<(u64, CompletionReport)>,
    handle: u64,
    i: int,
    j: int,
)
    requires
        0 <= i < j < reports.len(),
        reports[i].0 == handle,
        reports[j].0 == handle,
        tick_decisions(m, reports)[i] is Invoke,
    ensures
        !(tick_decisions(m, reports)[j] is Invoke),
    decreases reports.len(),
{
    lemma_tick_decisions_len(m, reports);
    let post = dispatch_post(m, reports[0].0, reports[0].1);
    if i == 0 {
        // The first report invoked, so it was ready and the entry was
        // taken: the rest of the tick sees no entry for the handle.
        assert(!post.contains_key(handle));
        lemma_absent_handle_never_invoked(post, reports.skip(1), handle);
        assert(reports.skip(1)[j - 1] == reports[j]);
        assert(tick_decisions(m, reports)[j] == tick_decisions(post, reports.skip(1))[j - 1]);
    } else {
        assert(reports.skip(1)[i - 1] == reports[i]);
        assert(reports.skip(1)[j - 1] == reports[j]);
        assert(tick_decisions(m, reports)[i] == tick_decisions(post, reports.skip(1))[i - 1]);
        assert(tick_decisions(m, reports)[j] == tick_decisions(post, reports.skip(1))[j - 1]);
        lemma_tick_invokes_at_most_once(post, reports.skip(1), handle, i - 1, j - 1);
    }
}

/// Any callback a tick decides to invoke for a handle is exactly the one
/// registered for that handle when the tick began: completions never cross
/// over from one handle's registration to another's.
pub proof fn lemma_tick_invokes_own_callback(
    m: Map<u64, PendingCall>,
    reports: Seq<(u64, CompletionReport)>,
    handle: u64,
    i: int,
)
    requires
        0 <= i < reports.len(),
        reports[i].0 == handle,
        tick_decisions(m, reports)[i] is Invoke,
    ensures
        m.contains_key(handle),
        tick_decisions(m, reports)[i] matches DispatchAction::Invoke { callback, .. } && callback
            == m[handle].callback,
    decreases reports.len(),
{
    lemma_tick_decisions_len(m, reports);
    if i > 0 {
        let post = dispatch_post(m, reports[0].0, reports[0].1);
        assert(reports.skip(1)[i - 1] == reports[i]);
        assert(tick_decisions(m, reports)[i] == tick_decisions(post, reports.skip(1))[i - 1]);
        if !post.contains_key(handle) {
            lemma_absent_handle_never_invoked(post, reports.skip(1), handle);
        }
        lemma_tick_invokes_own_callback(post, reports.skip(1), handle, i - 1);
        // The handle's entry survived the first report unchanged: a ready
        // report for it would have evicted it, and a report for any other
        // handle cannot touch it.
        assert(m.contains_key(handle) && post[handle] == m[handle]);
    }
}

/// The first report in a tick that finds a registered handle ready — with
/// the I/O-failure flag set, or with a payload of the length its kind
/// expects — has the handle's own callback invoked.  Together with
/// `lemma_tick_invokes_at_most_once` this makes delivery exactly once: the
/// first ready report fires the callback, every later one finds nothing.
pub proof fn lemma_first_ready_report_fires(
    m: Map<u64, PendingCall>,
    reports: Seq<(u64, CompletionReport)>,
    handle: u64,
    i: int,
)
    requires
        0 <= i < reports.len(),
        m.contains_key(handle),
        reports[i].0 == handle,
        reports[i].1 matches CompletionReport::Ready { io_error, payload } && (io_error || (
        kind_known(m[handle].kind) && payload@.len() == expected_len(m[handle].kind))),
        forall|k: int| 0 <= k < i && (#[trigger] reports[k]).0 == handle ==> !(reports[k].1 is Ready),
    ensures
        tick_decisions(m, reports)[i] matches DispatchAction::Invoke { callback, .. } && callback
            == m[handle].callback,
    decreases reports.len(),
{
    lemma_tick_decisions_len(m, reports);
    if i == 0 {
        assert(tick_decisions(m, reports)[0] == dispatch_decision(m, reports[0].0, reports[0].1));
    } else {
        let post = dispatch_post(m, reports[0].0, reports[0].1);
        // The first report either names another handle — which cannot
        // disturb this handle's entry — or names this handle while it is
        // not yet ready, which leaves the registry untouched.
        assert(post.contains_key(handle) && post[handle] == m[handle]);
        assert(reports.skip(1)[i - 1] == reports[i]);
        assert forall|k: int|
            0 <= k < i - 1 && (#[trigger] reports.skip(1)[k]).0 == handle implies !(reports.skip(
            1,
        )[k].1 is Ready) by {
            assert(reports.skip(1)[k] == reports[k + 1]);
        }
        lemma_first_ready_report_fires(post, reports.skip(1), handle, i - 1);
        assert(tick_decisions(m, reports)[i] == tick_decisions(post, reports.skip(1))[i - 1]);
    }
}

/// A handle that is registered when the foreign runtime reports it ready
/// fires its registered callback exactly once at that dispatch — with the
/// I/O-failure outcome, or with the decoded payload when the payload's
/// length is what the registered kind expects — and the entry is evicted.
pub proof fn lemma_ready_dispatch_fires(
    m: Map<u64, PendingCall>,
    handle: u64,
    io_error: bool,
    payload: Vec<u8>,
)
    requires
        m.contains_key(handle),
        io_error || (kind_known(m[handle].kind) && payload@.len() == expected_len(m[handle].kind)),
    ensures
        ({
            let report = CompletionReport::Ready { io_error, payload };
            &&& dispatch_decision(m, handle, report) matches DispatchAction::Invoke {
                callback,
                outcome,
            } && callback == m[handle].callback
            &&& dispatch_post(m, handle, report) == m.remove(handle)
        }),
{
}

/// After a ready report for a handle has been dispatched, a later dispatch
/// of the same handle neither invokes any callback nor faults, and leaves
/// the registry exactly as it stood: the entry was evicted, so re-polling
/// the handle is a no-op.
pub proof fn lemma_second_dispatch_no_effect(
    m: Map<u64, PendingCall>,
    handle: u64,
    first: CompletionReport,
    second: CompletionReport,
)
    requires
        first is Ready,
    ensures
        ({
            let after_first = dispatch_post(m, handle, first);
            &&& !(dispatch_decision(after_first, handle, second) is Invoke)
            &&& !(dispatch_decision(after_first, handle, second) is Fatal)
            &&& dispatch_post(after_first, handle, second) == after_first
        }),
{
}

/// Dispatching one handle never touches another: a report for `h1` leaves
/// `h2`'s entry exactly as registered, and any callback it decides to
/// invoke is the one registered for `h1` itself.
pub proof fn lemma_dispatch_isolation(
    m: Map<u64, PendingCall>,
    h1: u64,
    h2: u64,
    report: CompletionReport,
)
    requires
        h1 != h2,
    ensures
        dispatch_post(m, h1, report).contains_key(h2) == m.contains_key(h2),
        m.contains_key(h2) ==> dispatch_post(m, h1, report)[h2] == m[h2],
        dispatch_decision(m, h1, report) matches DispatchAction::Invoke { callback, .. } ==> (
        m.contains_key(h1) && callback == m[h1].callback),
{
}

/// With two distinct handles registered under distinct callback tokens,
/// the completion of one can never invoke the other's callback.
pub proof fn lemma_never_crosses_callbacks(
    m: Map<u64, PendingCall>,
    h1: u64,
    h2: u64,
    report: CompletionReport,
)
    requires
        h1 != h2,
        m.contains_key(h1),
        m.contains_key(h2),
        m[h1].callback != m[h2].callback,
    ensures
        dispatch_decision(m, h1, report) matches DispatchAction::Invoke { callback, .. }
            ==> callback != m[h2].callback,
{
}

/// An I/O failure reported for a registered handle always hands its
/// callback the failure outcome, and the decision does not depend on the
/// payload bytes in any way: the decoder is never consulted.
pub proof fn lemma_io_failure_skips_decoder(
    m: Map<u64, PendingCall>,
    handle: u64,
    payload: Vec<u8>,
    other_payload: Vec<u8>,
)
    requires
        m.contains_key(handle),
    ensures
        ({
            let report = CompletionReport::Ready { io_error: true, payload };
            dispatch_decision(m, handle, report) == (DispatchAction::Invoke {
                callback: m[handle].callback,
                outcome: CallOutcome::IoFailure,
            })
        }),
        ({
            let report = CompletionReport::Ready { io_error: true, payload };
            let report_other = CompletionReport::Ready { io_error: true, payload: other_payload };
            dispatch_decision(m, handle, report) == dispatch_decision(m, handle, report_other)
        }),
{
}

/// A success report whose payload length matches the registered kind's
/// expectation hands the callback exactly the value those bytes decode to:
/// for the percentage-ready kind, the game identifier read from the eight
/// payload bytes in little-endian order.
pub proof fn lemma_success_decodes_exactly(m: Map<u64, PendingCall>, handle: u64, payload: Vec<u8>)
    requires
        m.contains_key(handle),
        kind_known(m[handle].kind),
        payload@.len() == expected_len(m[handle].kind),
    ensures
        ({
            let report = CompletionReport::Ready { io_error: false, payload };
            dispatch_decision(m, handle, report) == (DispatchAction::Invoke {
                callback: m[handle].callback,
                outcome: CallOutcome::Success { value: decode_spec(m[handle].kind, payload@) },
            })
        }),
        decode_spec(m[handle].kind, payload@) == DecodedValue::GameId(u64_from_le_spec(payload@)),
{
}

} // verus!
