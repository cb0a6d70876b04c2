//! The event logs: the global log of what the wallet did, and for each target
//! that it sent cycles to, called or created, a log of what concerned that target.
//!
//! Both kinds of log are bounded. A record's identifier is the number of
//! records that were appended before it, so identifiers stay what they are
//! when old records are dropped.

use vstd::prelude::*;
use vstd::std_specs::cmp::PartialEqSpecImpl;
use std::collections::VecDeque;
use std::ops::Range;
use indexmap::IndexMap;
use crate::address::{clone_name, Role};
use crate::events_lemmas::{
    ledger_wf, lemma_ledger_push_keeps_wf, lemma_push_keeps_wf, lemma_replay_wf,
    lemma_target_push_keeps_wf,
};
use crate::identity::Identity;
use crate::ordered_map::{
    key_index, key_index_from, lemma_key_index_from, managed_entries, managed_map_entry, managed_map_index_of,
    managed_map_insert, managed_map_len, managed_map_new, managed_map_value_at,
    managed_map_value_at_mut,
};
use crate::retention::{
    copy_range, cull, floor_of, has_room, log_push, next_id, next_id_spec, offsets, offsets_spec,
    raised_floor, window, window_spec, EVENT_CAPACITY, TARGET_CAPACITY,
};

verus! {

/// What happened to one target.
#[derive(Debug, PartialEq, Eq)]
pub enum ManagedCanisterEventKind {
    CyclesSent { amount: u128, refund: u128 },
    Called { method_name: String, cycles: u128 },
    Created { cycles: u128 },
}

/// One record in the log of a target.
#[derive(Debug, PartialEq, Eq)]
pub struct ManagedCanisterEvent {
    pub id: u32,
    pub timestamp: u64,
    pub kind: ManagedCanisterEventKind,
}

/// What is known of a target besides its log.
#[derive(Debug, Eq)]
pub struct ManagedCanisterInfo {
    pub id: Identity,
    pub name: Option<String>,
    pub created_at: u64,
}

/// A target with its log.
#[derive(Debug, Eq)]
pub struct ManagedCanister {
    pub info: ManagedCanisterInfo,
    pub events: VecDeque<ManagedCanisterEvent>,
    pub culled: Option<usize>,
}

/// The type of an event in the event logs.
#[derive(Debug)]
pub enum EventKind {
    CyclesSent { to: Identity, amount: u128, refund: u128 },
    CyclesReceived { from: Identity, amount: u128, memo: Option<String> },
    AddressAdded { id: Identity, name: Option<String>, role: Role },
    AddressRemoved { id: Identity },
    CanisterCreated { canister: Identity, cycles: u128 },
    CanisterCalled { canister: Identity, method_name: String, cycles: u128 },
    WalletDeployed { canister: Identity },
}

/// One record in the global log.
#[derive(Debug)]
pub struct Event {
    pub id: u32,
    pub timestamp: u64,
    pub kind: EventKind,
}

/// The global log.
#[derive(Debug)]
pub struct EventBuffer {
    pub events: VecDeque<Event>,
    pub culled: Option<usize>,
}

/// The targets and their logs, in the order in which they were first referred to.
#[derive(Debug)]
pub struct ManagedList(pub IndexMap<Identity, ManagedCanister>);

/// A target with its log as a sequence.
pub struct TargetView {
    pub info: ManagedCanisterInfo,
    pub events: Seq<ManagedCanisterEvent>,
    pub culled: Option<usize>,
}

/// The global log as a sequence.
pub struct LogView {
    pub events: Seq<Event>,
    pub culled: Option<usize>,
}

impl Clone for ManagedCanisterEventKind {
    fn clone(&self) -> (r: Self)
        ensures
            r == *self,
    {
        match self {
            ManagedCanisterEventKind::CyclesSent { amount, refund } => {
                ManagedCanisterEventKind::CyclesSent { amount: *amount, refund: *refund }
            },
            ManagedCanisterEventKind::Called { method_name, cycles } => {
                ManagedCanisterEventKind::Called { method_name: method_name.clone(), cycles: *cycles }
            },
            ManagedCanisterEventKind::Created { cycles } => {
                ManagedCanisterEventKind::Created { cycles: *cycles }
            },
        }
    }
}

impl Clone for ManagedCanisterEvent {
    fn clone(&self) -> (r: Self)
        ensures
            r == *self,
    {
        ManagedCanisterEvent { id: self.id, timestamp: self.timestamp, kind: self.kind.clone() }
    }
}

impl Clone for ManagedCanisterInfo {
    fn clone(&self) -> (r: Self)
        ensures
            r == *self,
    {
        ManagedCanisterInfo {
            id: self.id,
            name: clone_name(&self.name),
            created_at: self.created_at,
        }
    }
}

impl PartialEq for ManagedCanisterInfo {
    /// Two infos are the same when they are about the same target.
    fn eq(&self, other: &Self) -> (r: bool) {
        self.id == other.id
    }
}

impl PartialEqSpecImpl for ManagedCanisterInfo {
    open spec fn obeys_eq_spec() -> bool {
        true
    }

    open spec fn eq_spec(&self, other: &Self) -> bool {
        self.id == other.id
    }
}

impl PartialEq for ManagedCanister {
    /// Two records are the same when they are about the same target.
    fn eq(&self, other: &Self) -> (r: bool) {
        self.info.id == other.info.id
    }
}

impl PartialEqSpecImpl for ManagedCanister {
    open spec fn obeys_eq_spec() -> bool {
        true
    }

    open spec fn eq_spec(&self, other: &Self) -> bool {
        self.info.id == other.info.id
    }
}

impl Clone for EventKind {
    fn clone(&self) -> (r: Self)
        ensures
            r == *self,
    {
        match self {
            EventKind::CyclesSent { to, amount, refund } => {
                EventKind::CyclesSent { to: *to, amount: *amount, refund: *refund }
            },
            EventKind::CyclesReceived { from, amount, memo } => {
                EventKind::CyclesReceived { from: *from, amount: *amount, memo: clone_name(memo) }
            },
            EventKind::AddressAdded { id, name, role } => {
                EventKind::AddressAdded { id: *id, name: clone_name(name), role: *role }
            },
            EventKind::AddressRemoved { id } => EventKind::AddressRemoved { id: *id },
            EventKind::CanisterCreated { canister, cycles } => {
                EventKind::CanisterCreated { canister: *canister, cycles: *cycles }
            },
            EventKind::CanisterCalled { canister, method_name, cycles } => {
                EventKind::CanisterCalled {
                    canister: *canister,
                    method_name: method_name.clone(),
                    cycles: *cycles,
                }
            },
            EventKind::WalletDeployed { canister } => {
                EventKind::WalletDeployed { canister: *canister }
            },
        }
    }
}

impl Clone for Event {
    fn clone(&self) -> (r: Self)
        ensures
            r == *self,
    {
        Event { id: self.id, timestamp: self.timestamp, kind: self.kind.clone() }
    }
}

/// A copy of a queue of records of a target.
pub fn clone_target_events(events: &VecDeque<ManagedCanisterEvent>) -> (copy: VecDeque<
    ManagedCanisterEvent,
>)
    ensures
        copy@ == events@,
{
    let mut copy: VecDeque<ManagedCanisterEvent> = VecDeque::new();
    let mut i: usize = 0;
    while i < events.len()
        invariant
            i <= events@.len(),
            copy@ == events@.subrange(0, i as int),
        decreases events@.len() - i,
    {
        copy.push_back(events[i].clone());
        i += 1;
    }
    copy
}

/// A copy of a queue of records of the global log.
pub fn clone_events(events: &VecDeque<Event>) -> (copy: VecDeque<Event>)
    ensures
        copy@ == events@,
{
    let mut copy: VecDeque<Event> = VecDeque::new();
    let mut i: usize = 0;
    while i < events.len()
        invariant
            i <= events@.len(),
            copy@ == events@.subrange(0, i as int),
        decreases events@.len() - i,
    {
        copy.push_back(events[i].clone());
        i += 1;
    }
    copy
}

impl View for ManagedCanister {
    type V = TargetView;

    open spec fn view(&self) -> TargetView {
        TargetView { info: self.info, events: self.events@, culled: self.culled }
    }
}

impl Clone for ManagedCanister {
    fn clone(&self) -> (r: Self)
        ensures
            r@ == self@,
    {
        ManagedCanister {
            info: self.info.clone(),
            events: clone_target_events(&self.events),
            culled: self.culled,
        }
    }
}

impl View for EventBuffer {
    type V = LogView;

    open spec fn view(&self) -> LogView {
        LogView { events: self.events@, culled: self.culled }
    }
}

impl Clone for EventBuffer {
    fn clone(&self) -> (r: Self)
        ensures
            r@ == self@,
    {
        EventBuffer { events: clone_events(&self.events), culled: self.culled }
    }
}

impl Default for EventBuffer {
    fn default() -> (r: Self)
        ensures
            r@ == (LogView { events: Seq::empty(), culled: None }),
            r@.wf(),
    {
        EventBuffer { events: VecDeque::new(), culled: None }
    }
}

/// The record of a target that has just been referred to for the first time.
pub open spec fn new_target(id: Identity, created_at: u64) -> TargetView {
    TargetView {
        info: ManagedCanisterInfo { id, name: None, created_at },
        events: Seq::empty(),
        culled: Some(0),
    }
}

impl TargetView {
    /// Every record has the identifier that its place gives it: the floor for
    /// the oldest, one more for each that follows.
    pub open spec fn wf(self) -> bool {
        forall|i: int|
            0 <= i < self.events.len() ==> (#[trigger] self.events[i]).id == floor_of(self.culled) + i
    }

    /// Whether the log has an identifier left for one more record.
    pub open spec fn has_room(self) -> bool {
        next_id_spec(self.culled, self.events.len() as int) <= u32::MAX
    }

    /// The target after one more record: it gets the next identifier, and the
    /// log is cut back to `TARGET_CAPACITY` records.
    pub open spec fn push(self, kind: ManagedCanisterEventKind, timestamp: u64) -> TargetView {
        let record = ManagedCanisterEvent {
            id: next_id_spec(self.culled, self.events.len() as int) as u32,
            timestamp,
            kind,
        };
        let (events, culled) = log_push(self.events, self.culled, record, TARGET_CAPACITY as int);
        TargetView { info: self.info, events, culled }
    }

    /// The records that a read with these optional ends returns.
    pub open spec fn read(self, from: Option<u32>, to: Option<u32>) -> Seq<ManagedCanisterEvent> {
        let (lo, hi) = window_spec(self.culled, self.events.len() as int, from, to);
        self.events.subrange(lo, hi)
    }
}

impl LogView {
    /// Every record has the identifier that its place gives it: the floor for
    /// the oldest, one more for each that follows.
    pub open spec fn wf(self) -> bool {
        forall|i: int|
            0 <= i < self.events.len() ==> (#[trigger] self.events[i]).id == floor_of(self.culled) + i
    }

    /// Whether the log has an identifier left for one more record.
    pub open spec fn has_room(self) -> bool {
        next_id_spec(self.culled, self.events.len() as int) <= u32::MAX
    }

    /// The log after one more record: it gets the next identifier, and the log
    /// is cut back to `EVENT_CAPACITY` records.
    pub open spec fn push(self, kind: EventKind, timestamp: u64) -> LogView {
        let record = Event {
            id: next_id_spec(self.culled, self.events.len() as int) as u32,
            timestamp,
            kind,
        };
        let (events, culled) = log_push(self.events, self.culled, record, EVENT_CAPACITY as int);
        LogView { events, culled }
    }

    /// The records whose identifiers lie in `[from, to)`, as far as they are kept.
    pub open spec fn between(self, from: int, to: int) -> Seq<Event> {
        let (lo, hi) = offsets_spec(self.culled, self.events.len() as int, from, to);
        self.events.subrange(lo, hi)
    }

    /// The records that a read with these optional ends returns.
    pub open spec fn read(self, from: Option<u32>, to: Option<u32>) -> Seq<Event> {
        let (lo, hi) = window_spec(self.culled, self.events.len() as int, from, to);
        self.events.subrange(lo, hi)
    }
}

impl ManagedCanister {
    /// The record of a target that is referred to for the first time at `created_at`.
    pub fn new(id: Identity, created_at: u64) -> (r: Self)
        ensures
            r@ == new_target(id, created_at),
    {
        ManagedCanister {
            info: ManagedCanisterInfo { id, name: None, created_at },
            events: VecDeque::new(),
            culled: Some(0),
        }
    }

    /// Appends a record of `kind` to the target's log.
    pub fn push(&mut self, kind: ManagedCanisterEventKind, timestamp: u64)
        requires
            old(self)@.has_room(),
        ensures
            final(self)@ == old(self)@.push(kind, timestamp),
            old(self)@.wf() ==> final(self)@.wf(),
    {
        proof {
            if self@.wf() {
                lemma_target_push_keeps_wf(self@, kind, timestamp);
            }
        }
        let id = next_id(self.culled, self.events.len());
        self.events.push_back(ManagedCanisterEvent { kind, id, timestamp });
        let dropped = cull(&mut self.events, TARGET_CAPACITY);
        self.culled = raised_floor(self.culled, dropped);
    }

    /// The records that a read with these optional ends returns: those whose
    /// identifiers lie in `[from, to)`, by default the last 20.
    pub fn read(&self, from: Option<u32>, to: Option<u32>) -> (r: Vec<ManagedCanisterEvent>)
        ensures
            r@ == self@.read(from, to),
    {
        let (lo, hi) = window(self.culled, self.events.len(), from, to);
        let out = copy_range(&self.events, lo, hi);
        out
    }
}

impl EventBuffer {
    /// Appends a record as it is: neither is an identifier given nor anything dropped.
    pub fn push(&mut self, event: Event)
        ensures
            final(self)@ == (LogView {
                events: old(self)@.events.push(event),
                culled: old(self)@.culled,
            }),
    {
        self.events.push_back(event);
    }

    /// The number of records that are kept, as a 32-bit number.
    pub fn len(&self) -> (n: u32)
        ensures
            n == self@.events.len() as u32,
    {
        #[verifier::truncate]
        (self.events.len() as u32)
    }

    /// The records whose identifiers lie in the range, as far as they are kept.
    pub fn between(&self, range: Range<usize>) -> (r: Vec<Event>)
        ensures
            r@ == self@.between(range.start as int, range.end as int),
    {
        let (lo, hi) = offsets(self.culled, self.events.len(), range.start, range.end);
        let out = copy_range(&self.events, lo, hi);
        out
    }

    /// Appends a record of `kind`: it gets the next identifier, and the oldest
    /// records are dropped when more than `EVENT_CAPACITY` are kept.
    pub fn append(&mut self, kind: EventKind, timestamp: u64)
        requires
            old(self)@.has_room(),
        ensures
            final(self)@ == old(self)@.push(kind, timestamp),
            old(self)@.wf() ==> final(self)@.wf(),
    {
        proof {
            if self@.wf() {
                lemma_push_keeps_wf(self@, kind, timestamp);
            }
        }
        let id = next_id(self.culled, self.events.len());
        self.events.push_back(Event { id, timestamp, kind });
        let dropped = cull(&mut self.events, EVENT_CAPACITY);
        self.culled = raised_floor(self.culled, dropped);
    }

    /// The records that a read with these optional ends returns: those whose
    /// identifiers lie in `[from, to)`, by default the last 20.
    pub fn read(&self, from: Option<u32>, to: Option<u32>) -> (r: Vec<Event>)
        ensures
            r@ == self@.read(from, to),
    {
        let (lo, hi) = window(self.culled, self.events.len(), from, to);
        let out = copy_range(&self.events, lo, hi);
        out
    }
}

/// The target that an event of this kind concerns and what it records of it:
/// cycles sent, a call and a creation concern their target, every other kind
/// concerns none.
pub open spec fn to_managed_spec(kind: EventKind) -> Option<(Identity, ManagedCanisterEventKind)> {
    match kind {
        EventKind::CanisterCreated { canister, cycles } => Some(
            (canister, ManagedCanisterEventKind::Created { cycles }),
        ),
        EventKind::CanisterCalled { canister, method_name, cycles } => Some(
            (canister, ManagedCanisterEventKind::Called { method_name, cycles }),
        ),
        EventKind::CyclesSent { to, amount, refund } => Some(
            (to, ManagedCanisterEventKind::CyclesSent { amount, refund }),
        ),
        EventKind::AddressAdded { .. } => None,
        EventKind::AddressRemoved { .. } => None,
        EventKind::CyclesReceived { .. } => None,
        EventKind::WalletDeployed { .. } => None,
    }
}

impl EventKind {
    /// The target that the event concerns and what its log records of it, if
    /// the event concerns a target.
    pub fn to_managed(&self) -> (r: Option<(Identity, ManagedCanisterEventKind)>)
        ensures
            r == to_managed_spec(*self),
    {
        match self {
            EventKind::CanisterCreated { canister, cycles } => Some(
                (*canister, ManagedCanisterEventKind::Created { cycles: *cycles }),
            ),
            EventKind::CanisterCalled { canister, method_name, cycles } => Some(
                (
                    *canister,
                    ManagedCanisterEventKind::Called {
                        method_name: method_name.clone(),
                        cycles: *cycles,
                    },
                ),
            ),
            EventKind::CyclesSent { to, amount, refund } => Some(
                (*to, ManagedCanisterEventKind::CyclesSent { amount: *amount, refund: *refund }),
            ),
            EventKind::AddressAdded { .. } => None,
            EventKind::AddressRemoved { .. } => None,
            EventKind::CyclesReceived { .. } => None,
            EventKind::WalletDeployed { .. } => None,
        }
    }
}

/// The targets of a list with their logs as sequences, in the list's order.
pub open spec fn ledger_view(entries: Seq<(Identity, ManagedCanister)>) -> Seq<(Identity, TargetView)> {
    Seq::new(entries.len(), |i: int| (entries[i].0, entries[i].1@))
}

/// The ledger after a record of `kind` for `target`: appended to the target's
/// log if the target is known, else to the log of a new last target created at
/// `timestamp`.
pub open spec fn ledger_push(
    ledger: Seq<(Identity, TargetView)>,
    target: Identity,
    kind: ManagedCanisterEventKind,
    timestamp: u64,
) -> Seq<(Identity, TargetView)> {
    match key_index(ledger, target) {
        Some(i) => ledger.update(i, (target, ledger[i].1.push(kind, timestamp))),
        None => ledger.push((target, new_target(target, timestamp).push(kind, timestamp))),
    }
}

/// Whether the log that a record for `target` goes to has an identifier left.
pub open spec fn ledger_has_room(ledger: Seq<(Identity, TargetView)>, target: Identity) -> bool {
    match key_index(ledger, target) {
        Some(i) => ledger[i].1.has_room(),
        None => true,
    }
}

/// The ledger after `record` is put under the identity that it is about: in
/// the place of the record under that identity if there is one, else last.
pub open spec fn ledger_put(ledger: Seq<(Identity, TargetView)>, record: TargetView) -> Seq<
    (Identity, TargetView),
> {
    match key_index(ledger, record.info.id) {
        Some(i) => ledger.update(i, (record.info.id, record)),
        None => ledger.push((record.info.id, record)),
    }
}

/// The ledger that holds the first `n` of `records`, put one after the other.
pub open spec fn ledger_of_records(records: Seq<TargetView>, n: int) -> Seq<(Identity, TargetView)>
    decreases n,
{
    if n <= 0 {
        Seq::empty()
    } else {
        ledger_put(ledger_of_records(records, n - 1), records[n - 1])
    }
}

/// The infos of the targets at positions `[from, to)`, `to` held within the
/// ledger; none if `from` is not before that end.
pub open spec fn ledger_page(ledger: Seq<(Identity, TargetView)>, from: int, to: int) -> Seq<
    ManagedCanisterInfo,
> {
    let end = if to > ledger.len() {
        ledger.len() as int
    } else {
        to
    };
    let start = if from > end {
        end
    } else {
        from
    };
    Seq::new((end - start) as nat, |i: int| ledger[start + i].1.info)
}

/// The key index of a list and of its view are the same.
pub proof fn lemma_ledger_view_index(
    entries: Seq<(Identity, ManagedCanister)>,
    key: Identity,
    from: int,
)
    requires
        0 <= from <= entries.len(),
    ensures
        key_index_from(ledger_view(entries), key, from) == key_index_from(entries, key, from),
    decreases entries.len() - from,
{
    if from < entries.len() && entries[from].0 != key {
        lemma_ledger_view_index(entries, key, from + 1);
    }
}

impl View for ManagedList {
    type V = Seq<(Identity, TargetView)>;

    open spec fn view(&self) -> Seq<(Identity, TargetView)> {
        ledger_view(managed_entries(self.0))
    }
}

impl Default for ManagedList {
    fn default() -> (r: Self)
        ensures
            r@ == Seq::<(Identity, TargetView)>::empty(),
    {
        ManagedList(managed_map_new())
    }
}

impl ManagedList {
    /// Records an event of `kind` for `canister` at the time `now`.
    pub fn push(&mut self, canister: Identity, event: ManagedCanisterEventKind, now: u64)
        requires
            ledger_has_room(old(self)@, canister),
        ensures
            final(self)@ == ledger_push(old(self)@, canister, event, now),
            ledger_wf(old(self)@) ==> ledger_wf(final(self)@),
    {
        self.push_with_timestamp(canister, event, now)
    }

    /// Records an event of `kind` for `canister`: looks up the target's record,
    /// creating it with `timestamp` as its time of creation if this is the first
    /// reference to the target, and appends to its log.
    pub fn push_with_timestamp(
        &mut self,
        canister: Identity,
        event: ManagedCanisterEventKind,
        timestamp: u64,
    )
        requires
            ledger_has_room(old(self)@, canister),
        ensures
            final(self)@ == ledger_push(old(self)@, canister, event, timestamp),
            ledger_wf(old(self)@) ==> ledger_wf(final(self)@),
    {
        proof {
            if ledger_wf(self@) {
                lemma_ledger_push_keeps_wf(self@, canister, event, timestamp);
            }
            lemma_ledger_view_index(managed_entries(self.0), canister, 0);
            lemma_key_index_from(managed_entries(self.0), canister, 0);
        }
        let target = managed_map_entry(&mut self.0, canister, timestamp);
        target.push(event, timestamp);
    }

    /// The number of targets.
    pub fn len(&self) -> (n: usize)
        ensures
            n == self@.len(),
    {
        managed_map_len(&self.0)
    }

    /// A copy of the record of `canister`, if the target is known.
    pub fn get(&self, canister: &Identity) -> (r: Option<ManagedCanister>)
        ensures
            match r {
                Some(record) => key_index(self@, *canister) matches Some(i) && record@
                    == self@[i].1,
                None => key_index(self@, *canister) is None,
            },
    {
        proof {
            lemma_ledger_view_index(managed_entries(self.0), *canister, 0);
            lemma_key_index_from(managed_entries(self.0), *canister, 0);
        }
        match managed_map_index_of(&self.0, canister) {
            Some(i) => Some(managed_map_value_at(&self.0, i).clone()),
            None => None,
        }
    }

    /// The records of the targets, in the list's order.
    pub fn to_records(&self) -> (r: Vec<ManagedCanister>)
        ensures
            r@.len() == self@.len(),
            forall|i: int| 0 <= i < r@.len() ==> (#[trigger] r@[i])@ == self@[i].1,
    {
        let n = managed_map_len(&self.0);
        let mut out: Vec<ManagedCanister> = Vec::new();
        let mut i: usize = 0;
        while i < n
            invariant
                i <= n,
                n == managed_entries(self.0).len(),
                out@.len() == i,
                forall|k: int| 0 <= k < i ==> (#[trigger] out@[k])@ == self@[k].1,
            decreases n - i,
        {
            out.push(managed_map_value_at(&self.0, i).clone());
            i += 1;
        }
        out
    }

    /// The list that holds `records`, each put under the identity that it is
    /// about, one after the other: of two records about one identity the later
    /// takes the place of the earlier.
    pub fn from_records(records: Vec<ManagedCanister>) -> (r: Self)
        ensures
            r@ == ledger_of_records(Seq::new(records@.len(), |i: int| records@[i]@), records@.len() as int),
    {
        let ghost views = Seq::new(records@.len(), |i: int| records@[i]@);
        let mut map = managed_map_new();
        let mut i: usize = 0;
        while i < records.len()
            invariant
                i <= records@.len(),
                views == Seq::new(records@.len(), |k: int| records@[k]@),
                ledger_view(managed_entries(map)) == ledger_of_records(views, i as int),
            decreases records@.len() - i,
        {
            let record = records[i].clone();
            let id = record.info.id;
            let ghost before = managed_entries(map);
            proof {
                lemma_ledger_view_index(before, id, 0);
                lemma_key_index_from(before, id, 0);
            }
            managed_map_insert(&mut map, id, record);
            i += 1;
        }
        ManagedList(map)
    }

    /// Whether the log that a record for `canister` goes to has an identifier left.
    pub fn has_room_for(&self, canister: &Identity) -> (r: bool)
        ensures
            r == ledger_has_room(self@, *canister),
    {
        proof {
            lemma_ledger_view_index(managed_entries(self.0), *canister, 0);
            lemma_key_index_from(managed_entries(self.0), *canister, 0);
        }
        match managed_map_index_of(&self.0, canister) {
            Some(i) => {
                let target = managed_map_value_at(&self.0, i);
                has_room(target.culled, target.events.len())
            },
            None => true,
        }
    }
}

impl EventBuffer {
    /// Whether the log has an identifier left for one more record.
    pub fn has_room(&self) -> (r: bool)
        ensures
            r == self@.has_room(),
    {
        has_room(self.culled, self.events.len())
    }
}

/// The ledger after an event of `kind` at `timestamp`: one more record for the
/// target that the kind concerns, and no change if it concerns none.
pub open spec fn ledger_record(
    ledger: Seq<(Identity, TargetView)>,
    kind: EventKind,
    timestamp: u64,
) -> Seq<(Identity, TargetView)> {
    match to_managed_spec(kind) {
        Some((target, entry)) => ledger_push(ledger, target, entry, timestamp),
        None => ledger,
    }
}

/// Whether an event of `kind` can be recorded: the global log, and the log of
/// the target that the kind concerns, have an identifier left.
pub open spec fn can_record(log: LogView, ledger: Seq<(Identity, TargetView)>, kind: EventKind) -> bool {
    &&& log.has_room()
    &&& to_managed_spec(kind) matches Some((target, _)) ==> ledger_has_room(ledger, target)
}

/// Whether an event of `kind` can be recorded.
pub fn has_room_to_record(buffer: &EventBuffer, managed: &ManagedList, kind: &EventKind) -> (r: bool)
    ensures
        r == can_record(buffer@, managed@, *kind),
{
    if !buffer.has_room() {
        return false;
    }
    match kind {
        EventKind::CanisterCreated { canister, .. } => managed.has_room_for(canister),
        EventKind::CanisterCalled { canister, .. } => managed.has_room_for(canister),
        EventKind::CyclesSent { to, .. } => managed.has_room_for(to),
        EventKind::AddressAdded { .. } => true,
        EventKind::AddressRemoved { .. } => true,
        EventKind::CyclesReceived { .. } => true,
        EventKind::WalletDeployed { .. } => true,
    }
}

/// Record an event: one record in the global log, and, if the event concerns
/// a target, one in the log of that target.
pub fn record(buffer: &mut EventBuffer, managed: &mut ManagedList, kind: EventKind, timestamp: u64)
    requires
        can_record(old(buffer)@, old(managed)@, kind),
    ensures
        final(buffer)@ == old(buffer)@.push(kind, timestamp),
        final(managed)@ == ledger_record(old(managed)@, kind, timestamp),
        old(buffer)@.wf() ==> final(buffer)@.wf(),
        ledger_wf(old(managed)@) ==> ledger_wf(final(managed)@),
{
    if let Some((to, entry)) = kind.to_managed() {
        managed.push_with_timestamp(to, entry, timestamp);
    }
    buffer.append(kind, timestamp);
}

/// The events whose identifiers lie in `[from, to)`, as far as they are kept;
/// without `from` from the twentieth-last on, without `to` up to the last.
pub fn get_events(buffer: &EventBuffer, from: Option<u32>, to: Option<u32>) -> (r: Vec<Event>)
    ensures
        r@ == buffer@.read(from, to),
{
    buffer.read(from, to)
}

/// Info about the targets at positions `[from, to)` of the list, and the
/// number of targets in the list. Without `from` the page starts at the
/// first target, without `to` it ends with the last.
pub fn get_managed_canisters(managed: &ManagedList, from: Option<u32>, to: Option<u32>) -> (r: (
    Vec<ManagedCanisterInfo>,
    u32,
))
    ensures
        r.0@ == ledger_page(
            managed@,
            match from {
                Some(f) => f as int,
                None => 0,
            },
            match to {
                Some(t) => t as int,
                None => u32::MAX as int,
            },
        ),
        r.1 == managed@.len() as u32,
{
    let len = managed.len();
    let from: usize = match from {
        Some(f) => f as usize,
        None => 0,
    };
    let to: usize = match to {
        Some(t) => t as usize,
        None => 0xffff_ffff,
    };
    let end: usize = if to > len {
        len
    } else {
        to
    };
    let start: usize = if from > end {
        end
    } else {
        from
    };
    let mut out: Vec<ManagedCanisterInfo> = Vec::new();
    let mut n: usize = start;
    while n < end
        invariant
            start <= n <= end <= len,
            len == managed_entries(managed.0).len(),
            out@.len() == n - start,
            forall|k: int| 0 <= k < out@.len() ==> #[trigger] out@[k] == managed@[start + k].1.info,
        decreases end - n,
    {
        out.push(managed_map_value_at(&managed.0, n).info.clone());
        n += 1;
    }
    (
        out,
        #[verifier::truncate]
        (len as u32),
    )
}

/// The events of one target whose identifiers lie in `[from, to)`, as far as
/// they are kept; without `from` from the twentieth-last on, without `to` up
/// to the last. `None` if the target is unknown.
pub fn get_managed_canister_events(
    managed: &ManagedList,
    canister: &Identity,
    from: Option<u32>,
    to: Option<u32>,
) -> (r: Option<Vec<ManagedCanisterEvent>>)
    ensures
        match key_index(managed@, *canister) {
            Some(i) => r matches Some(events) && events@ == managed@[i].1.read(from, to),
            None => r is None,
        },
{
    proof {
        lemma_ledger_view_index(managed_entries(managed.0), *canister, 0);
        lemma_key_index_from(managed_entries(managed.0), *canister, 0);
    }
    match managed_map_index_of(&managed.0, canister) {
        Some(i) => Some(managed_map_value_at(&managed.0, i).read(from, to)),
        None => None,
    }
}

/// The ledger after the target `canister` is given the name `name`.
pub open spec fn ledger_rename(
    ledger: Seq<(Identity, TargetView)>,
    canister: Identity,
    name: Option<String>,
) -> Seq<(Identity, TargetView)> {
    match key_index(ledger, canister) {
        Some(i) => ledger.update(
            i,
            (
                ledger[i].0,
                TargetView {
                    info: ManagedCanisterInfo {
                        id: ledger[i].1.info.id,
                        name,
                        created_at: ledger[i].1.info.created_at,
                    },
                    events: ledger[i].1.events,
                    culled: ledger[i].1.culled,
                },
            ),
        ),
        None => ledger,
    }
}

/// The ledger that the first `n` of `events` give when they are recorded one
/// after the other, each at its own time.
pub open spec fn ledger_replay(events: Seq<Event>, n: int) -> Seq<(Identity, TargetView)>
    decreases n,
{
    if n <= 0 {
        Seq::empty()
    } else {
        ledger_record(ledger_replay(events, n - 1), events[n - 1].kind, events[n - 1].timestamp)
    }
}

/// No log of the ledger has given out more than `bound` identifiers.
pub open spec fn ledger_bounded(ledger: Seq<(Identity, TargetView)>, bound: int) -> bool {
    forall|k: int|
        0 <= k < ledger.len() ==> next_id_spec(
            (#[trigger] ledger[k]).1.culled,
            ledger[k].1.events.len() as int,
        ) <= bound
}

/// One more record gives out at most one more identifier in any log.
pub proof fn lemma_ledger_record_bounded(
    ledger: Seq<(Identity, TargetView)>,
    kind: EventKind,
    timestamp: u64,
    bound: int,
)
    requires
        ledger_bounded(ledger, bound),
        0 <= bound < u32::MAX,
    ensures
        ledger_bounded(ledger_record(ledger, kind, timestamp), bound + 1),
{
    if let Some((target, _)) = to_managed_spec(kind) {
        lemma_key_index_from(ledger, target, 0);
    }
}

/// The list of targets that the kept events of the global log give when they
/// are recorded once more, one after the other, each at its own time. It
/// stands in for a list that was not stored.
pub fn rebuild_managed(buffer: &EventBuffer) -> (r: ManagedList)
    requires
        buffer@.events.len() <= u32::MAX,
    ensures
        r@ == ledger_replay(buffer@.events, buffer@.events.len() as int),
        ledger_wf(r@),
{
    proof {
        lemma_replay_wf(buffer@.events, buffer@.events.len() as int);
    }
    let mut managed = ManagedList::default();
    let mut i: usize = 0;
    while i < buffer.events.len()
        invariant
            i <= buffer.events@.len() <= u32::MAX,
            managed@ == ledger_replay(buffer.events@, i as int),
            ledger_bounded(managed@, i as int),
        decreases buffer.events@.len() - i,
    {
        let event = &buffer.events[i];
        proof {
            lemma_ledger_record_bounded(managed@, event.kind, event.timestamp, i as int);
        }
        if let Some((to, entry)) = event.kind.to_managed() {
            proof {
                lemma_key_index_from(managed@, to, 0);
            }
            managed.push_with_timestamp(to, entry, event.timestamp);
        }
        i += 1;
    }
    managed
}

/// Changes the recorded short name of a target. Returns the updated info, or
/// `None` if the target isn't known.
pub fn set_short_name(managed: &mut ManagedList, canister: &Identity, name: Option<String>) -> (r:
    Option<ManagedCanisterInfo>)
    ensures
        final(managed)@ == ledger_rename(old(managed)@, *canister, name),
        match key_index(old(managed)@, *canister) {
            Some(i) => r == Some(final(managed)@[i].1.info),
            None => r is None,
        },
        ledger_wf(old(managed)@) ==> ledger_wf(final(managed)@),
{
    proof {
        lemma_ledger_view_index(managed_entries(managed.0), *canister, 0);
        lemma_key_index_from(managed_entries(managed.0), *canister, 0);
    }
    match managed_map_index_of(&managed.0, canister) {
        Some(i) => {
            let target = managed_map_value_at_mut(&mut managed.0, i);
            target.info.name = name;
            let info = target.info.clone();
            Some(info)
        },
        None => None,
    }
}

} // verus!
