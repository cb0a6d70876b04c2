//! What holds of the logs over one and over many records.

use vstd::prelude::*;
use crate::events::{
    ledger_bounded, ledger_has_room, ledger_push, ledger_record, ledger_replay,
    lemma_ledger_record_bounded, new_target, to_managed_spec, Event, EventKind, LogView,
    ManagedCanisterEventKind, TargetView,
};
use crate::identity::Identity;
use crate::ordered_map::{key_index, lemma_key_index_from};
use crate::retention::{floor_of, next_id_spec, DEFAULT_WINDOW, EVENT_CAPACITY, TARGET_CAPACITY};

verus! {

/// The global log after events of these kinds, at these times, were
/// appended one after the other.
pub open spec fn push_all(log: LogView, inputs: Seq<(EventKind, u64)>) -> LogView
    decreases inputs.len(),
{
    if inputs.len() == 0 {
        log
    } else {
        push_all(log, inputs.drop_last()).push(inputs.last().0, inputs.last().1)
    }
}

/// The log of a target after events of these kinds, at these times, were
/// appended one after the other.
pub open spec fn target_push_all(
    target: TargetView,
    inputs: Seq<(ManagedCanisterEventKind, u64)>,
) -> TargetView
    decreases inputs.len(),
{
    if inputs.len() == 0 {
        target
    } else {
        target_push_all(target, inputs.drop_last()).push(inputs.last().0, inputs.last().1)
    }
}

/// The smaller of two numbers.
pub open spec fn min(a: int, b: int) -> int {
    if a < b {
        a
    } else {
        b
    }
}

/// A push to a well-formed log leaves it well formed: the new record gets
/// the identifier after the last one, and every kept record keeps its own.
pub proof fn lemma_push_keeps_wf(log: LogView, kind: EventKind, timestamp: u64)
    requires
        log.wf(),
        log.has_room(),
    ensures
        log.push(kind, timestamp).wf(),
        log.push(kind, timestamp).events.last().id == next_id_spec(
            log.culled,
            log.events.len() as int,
        ),
        next_id_spec(log.push(kind, timestamp).culled, log.push(kind, timestamp).events.len() as int)
            == next_id_spec(log.culled, log.events.len() as int) + 1,
        log.push(kind, timestamp).events.len() == min(
            log.events.len() as int + 1,
            EVENT_CAPACITY as int,
        ),
{
    let after = log.push(kind, timestamp);
    assert forall|i: int| 0 <= i < after.events.len() implies (#[trigger] after.events[i]).id
        == floor_of(after.culled) + i by {}
}

/// A push to a well-formed log of a target leaves it well formed.
pub proof fn lemma_target_push_keeps_wf(
    target: TargetView,
    kind: ManagedCanisterEventKind,
    timestamp: u64,
)
    requires
        target.wf(),
        target.has_room(),
    ensures
        target.push(kind, timestamp).wf(),
        target.push(kind, timestamp).info == target.info,
        target.push(kind, timestamp).events.last().id == next_id_spec(
            target.culled,
            target.events.len() as int,
        ),
        next_id_spec(
            target.push(kind, timestamp).culled,
            target.push(kind, timestamp).events.len() as int,
        ) == next_id_spec(target.culled, target.events.len() as int) + 1,
        target.push(kind, timestamp).events.len() == min(
            target.events.len() as int + 1,
            TARGET_CAPACITY as int,
        ),
{
    let after = target.push(kind, timestamp);
    assert forall|i: int| 0 <= i < after.events.len() implies (#[trigger] after.events[i]).id
        == floor_of(after.culled) + i by {}
}

/// After `N` events were appended to an empty global log, the log keeps the
/// last `min(N, EVENT_CAPACITY)` of them, in their order, with the identifiers
/// `N - kept, ..., N - 1`; once more than `EVENT_CAPACITY` were appended, the
/// floor is `N - EVENT_CAPACITY`.
pub proof fn lemma_pushes_from_empty(inputs: Seq<(EventKind, u64)>)
    requires
        inputs.len() <= u32::MAX + 1,
    ensures
        ({
            let log = push_all(LogView { events: Seq::empty(), culled: None }, inputs);
            let n = inputs.len() as int;
            let kept = log.events.len() as int;
            &&& log.wf()
            &&& kept == min(n, EVENT_CAPACITY as int)
            &&& floor_of(log.culled) == n - kept
            &&& n > EVENT_CAPACITY ==> log.culled == Some((n - EVENT_CAPACITY) as usize)
            &&& forall|i: int|
                0 <= i < kept ==> {
                    &&& (#[trigger] log.events[i]).id == n - kept + i
                    &&& log.events[i].kind == inputs[n - kept + i].0
                    &&& log.events[i].timestamp == inputs[n - kept + i].1
                }
        }),
    decreases inputs.len(),
{
    if inputs.len() > 0 {
        let head = inputs.drop_last();
        lemma_pushes_from_empty(head);
        lemma_push_keeps_wf(
            push_all(LogView { events: Seq::empty(), culled: None }, head),
            inputs.last().0,
            inputs.last().1,
        );
    }
}

/// After `N` events were recorded for a new target, its log keeps the last
/// `min(N, TARGET_CAPACITY)` of them, in their order, with the identifiers
/// `N - kept, ..., N - 1`, and its floor is `N - kept`.
pub proof fn lemma_target_pushes_from_new(
    id: Identity,
    created_at: u64,
    inputs: Seq<(ManagedCanisterEventKind, u64)>,
)
    requires
        inputs.len() <= u32::MAX + 1,
    ensures
        ({
            let target = target_push_all(new_target(id, created_at), inputs);
            let n = inputs.len() as int;
            let kept = target.events.len() as int;
            &&& target.wf()
            &&& target.info == new_target(id, created_at).info
            &&& kept == min(n, TARGET_CAPACITY as int)
            &&& target.culled == Some((n - kept) as usize)
            &&& forall|i: int|
                0 <= i < kept ==> {
                    &&& (#[trigger] target.events[i]).id == n - kept + i
                    &&& target.events[i].kind == inputs[n - kept + i].0
                    &&& target.events[i].timestamp == inputs[n - kept + i].1
                }
        }),
    decreases inputs.len(),
{
    if inputs.len() > 0 {
        let head = inputs.drop_last();
        lemma_target_pushes_from_new(id, created_at, head);
        lemma_target_push_keeps_wf(
            target_push_all(new_target(id, created_at), head),
            inputs.last().0,
            inputs.last().1,
        );
    }
}

/// A read of a well-formed log returns exactly the kept records whose
/// identifiers lie in the range that was asked for.
pub proof fn lemma_read_by_identifier(log: LogView, from: u32, to: u32)
    requires
        log.wf(),
    ensures
        forall|i: int|
            0 <= i < log.read(Some(from), Some(to)).len() ==> from <= (#[trigger] log.read(
                Some(from),
                Some(to),
            )[i]).id < to,
        forall|k: int|
            0 <= k < log.events.len() && from <= (#[trigger] log.events[k]).id < to
                ==> log.read(Some(from), Some(to)).contains(log.events[k]),
{
    let r = log.read(Some(from), Some(to));
    let base = floor_of(log.culled);
    assert forall|k: int|
        0 <= k < log.events.len() && from <= (#[trigger] log.events[k]).id < to implies r.contains(
        log.events[k],
    ) by {
        let lo = if from - base < 0 {
            0
        } else {
            from - base
        };
        assert(r[k - lo] == log.events[k]);
    }
}

/// A read without ends of a well-formed log returns the last 20 records, or
/// all of them if fewer are kept: with `L` identifiers given out so far, the
/// records with the identifiers `L - 20, ..., L - 1`, or `0, ..., L - 1`.
pub proof fn lemma_default_read(log: LogView)
    requires
        log.wf(),
    ensures
        ({
            let r = log.read(None, None);
            let total = next_id_spec(log.culled, log.events.len() as int);
            &&& r.len() == min(log.events.len() as int, DEFAULT_WINDOW as int)
            &&& r == log.events.subrange(log.events.len() - r.len(), log.events.len() as int)
            &&& forall|i: int| 0 <= i < r.len() ==> (#[trigger] r[i]).id == total - r.len() + i
        }),
{
}

/// A read without ends of a well-formed log of a target returns the last 20
/// records, or all of them if fewer are kept.
pub proof fn lemma_target_default_read(target: TargetView)
    requires
        target.wf(),
    ensures
        ({
            let r = target.read(None, None);
            let total = next_id_spec(target.culled, target.events.len() as int);
            &&& r.len() == min(target.events.len() as int, DEFAULT_WINDOW as int)
            &&& r == target.events.subrange(
                target.events.len() - r.len(),
                target.events.len() as int,
            )
            &&& forall|i: int| 0 <= i < r.len() ==> (#[trigger] r[i]).id == total - r.len() + i
        }),
{
}

/// A ledger is well formed when no identity has two records, every record is
/// kept under the identity that it is about, and every log is well formed.
pub open spec fn ledger_wf(ledger: Seq<(Identity, TargetView)>) -> bool {
    &&& forall|i: int, j: int|
        0 <= i < j < ledger.len() ==> (#[trigger] ledger[i]).0 != (#[trigger] ledger[j]).0
    &&& forall|k: int|
        0 <= k < ledger.len() ==> (#[trigger] ledger[k]).1.info.id == ledger[k].0
            && ledger[k].1.wf()
}

/// One more record for a target leaves a well-formed ledger well formed: the
/// target has one record, before and after, kept under its own identity.
pub proof fn lemma_ledger_push_keeps_wf(
    ledger: Seq<(Identity, TargetView)>,
    target: Identity,
    kind: ManagedCanisterEventKind,
    timestamp: u64,
)
    requires
        ledger_wf(ledger),
        ledger_has_room(ledger, target),
    ensures
        ledger_wf(ledger_push(ledger, target, kind, timestamp)),
{
    let after = ledger_push(ledger, target, kind, timestamp);
    lemma_key_index_from(ledger, target, 0);
    match key_index(ledger, target) {
        Some(i) => lemma_target_push_keeps_wf(ledger[i].1, kind, timestamp),
        None => lemma_target_push_keeps_wf(new_target(target, timestamp), kind, timestamp),
    }
    assert forall|k: int| 0 <= k < after.len() implies (#[trigger] after[k]).1.info.id
        == after[k].0 && after[k].1.wf() by {}
}

/// Recording an event leaves a well-formed ledger well formed.
pub proof fn lemma_ledger_record_keeps_wf(
    ledger: Seq<(Identity, TargetView)>,
    kind: EventKind,
    timestamp: u64,
)
    requires
        ledger_wf(ledger),
        to_managed_spec(kind) matches Some((target, _)) ==> ledger_has_room(ledger, target),
    ensures
        ledger_wf(ledger_record(ledger, kind, timestamp)),
{
    if let Some((target, entry)) = to_managed_spec(kind) {
        lemma_ledger_push_keeps_wf(ledger, target, entry, timestamp);
    }
}

/// The ledger that events give when they are recorded once more is well
/// formed, and none of its logs has given out more identifiers than there
/// were events.
pub proof fn lemma_replay_wf(events: Seq<Event>, n: int)
    requires
        0 <= n <= events.len(),
        n <= u32::MAX,
    ensures
        ledger_wf(ledger_replay(events, n)),
        ledger_bounded(ledger_replay(events, n), n),
    decreases n,
{
    if n > 0 {
        lemma_replay_wf(events, n - 1);
        let before = ledger_replay(events, n - 1);
        let kind = events[n - 1].kind;
        if let Some((target, _)) = to_managed_spec(kind) {
            lemma_key_index_from(before, target, 0);
        }
        lemma_ledger_record_bounded(before, kind, events[n - 1].timestamp, n - 1);
        lemma_ledger_record_keeps_wf(before, kind, events[n - 1].timestamp);
    }
}

/// The global log and the ledger after events of these kinds, at these times,
/// were recorded one after the other.
pub open spec fn record_all(
    log: LogView,
    ledger: Seq<(Identity, TargetView)>,
    inputs: Seq<(EventKind, u64)>,
) -> (LogView, Seq<(Identity, TargetView)>)
    decreases inputs.len(),
{
    if inputs.len() == 0 {
        (log, ledger)
    } else {
        let (l, m) = record_all(log, ledger, inputs.drop_last());
        (
            l.push(inputs.last().0, inputs.last().1),
            ledger_record(m, inputs.last().0, inputs.last().1),
        )
    }
}

/// As long as the global log has dropped nothing, the ledger that was built
/// record by record is the ledger that the events of the log give when they
/// are recorded once more: recording one more event keeps the two the same.
pub proof fn lemma_record_keeps_derivation(
    log: LogView,
    ledger: Seq<(Identity, TargetView)>,
    kind: EventKind,
    timestamp: u64,
)
    requires
        ledger == ledger_replay(log.events, log.events.len() as int),
        log.events.len() < EVENT_CAPACITY,
    ensures
        ledger_record(ledger, kind, timestamp) == ledger_replay(
            log.push(kind, timestamp).events,
            log.push(kind, timestamp).events.len() as int,
        ),
{
    let after = log.push(kind, timestamp).events;
    lemma_replay_prefix(log.events, after, log.events.len() as int);
}

/// What a beginning of the events gives does not depend on what follows it.
pub proof fn lemma_replay_prefix(a: Seq<Event>, b: Seq<Event>, n: int)
    requires
        0 <= n <= a.len(),
        n <= b.len(),
        forall|i: int| 0 <= i < n ==> a[i] == b[i],
    ensures
        ledger_replay(a, n) == ledger_replay(b, n),
    decreases n,
{
    if n > 0 {
        lemma_replay_prefix(a, b, n - 1);
    }
}

/// The ledger built record by record from nothing is the ledger that the
/// events of the global log give when they are recorded once more, as long as
/// no more events were recorded than the global log keeps.
pub proof fn lemma_derivation_complete(inputs: Seq<(EventKind, u64)>)
    requires
        inputs.len() <= EVENT_CAPACITY,
    ensures
        ({
            let (log, ledger) = record_all(
                LogView { events: Seq::empty(), culled: None },
                Seq::empty(),
                inputs,
            );
            &&& log.events.len() == inputs.len()
            &&& ledger == ledger_replay(log.events, log.events.len() as int)
        }),
    decreases inputs.len(),
{
    if inputs.len() > 0 {
        let head = inputs.drop_last();
        lemma_derivation_complete(head);
        let (log, ledger) = record_all(
            LogView { events: Seq::empty(), culled: None },
            Seq::empty(),
            head,
        );
        lemma_record_keeps_derivation(log, ledger, inputs.last().0, inputs.last().1);
    }
}

} // verus!
