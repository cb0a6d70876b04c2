//! Carrying the stored state forward from one layout to the next.
//!
//! Each step takes the state in one layout and gives it back in the next; no
//! step goes back. A snapshot without a version is a version-1 snapshot.

pub mod v1;

use vstd::prelude::*;
use std::collections::VecDeque;
use crate::address::AddressEntry;
use crate::chart::ChartTick;
use crate::events::{
    ledger_view, lemma_ledger_view_index, Event, EventBuffer, EventKind, LogView,
    ManagedCanister, ManagedCanisterEvent, ManagedCanisterEventKind, ManagedList, TargetView,
};
use crate::identity::Identity;
use crate::migrations::v1::{
    v1_ledger_push, v1_to_managed_spec, V1Event, V1EventKind, V1ManagedCanister,
    V1ManagedCanisterEvent, V1ManagedCanisterEventKind, V1ManagedList, V1StableStorage,
    V1TargetView,
};
use crate::ordered_map::{
    lemma_key_index_from, managed_entries, managed_map_insert, managed_map_new,
};
use crate::storage::{bytes_view, StableStorage, StorageView};

verus! {

/// The layouts in which the state was ever stored.
#[derive(Clone, Copy, Debug, PartialEq, Eq, Structural)]
pub enum Layout {
    V1,
    V2,
}

/// What was found stored, read in the layout of its version.
#[derive(Debug)]
pub enum Persisted {
    V1(V1StableStorage),
    V2(StableStorage),
}

/// The version-1 stored state with its collections as sequences.
pub struct V1StorageView {
    pub address_book: Seq<AddressEntry>,
    pub events: Seq<V1Event>,
    pub name: Option<String>,
    pub chart: Seq<ChartTick>,
    pub wasm_module: Option<Seq<u8>>,
    pub managed: Option<Seq<(Identity, V1TargetView)>>,
}

/// What was found stored, with its collections as sequences.
pub enum PersistedView {
    V1(V1StorageView),
    V2(StorageView),
}

/// The ledger of an optional version-1 list.
pub open spec fn v1_managed_view(managed: Option<V1ManagedList>) -> Option<
    Seq<(Identity, V1TargetView)>,
> {
    match managed {
        Some(m) => Some(m@),
        None => None,
    }
}

impl View for V1StableStorage {
    type V = V1StorageView;

    open spec fn view(&self) -> V1StorageView {
        V1StorageView {
            address_book: self.address_book@,
            events: self.events.events@,
            name: self.name,
            chart: self.chart@,
            wasm_module: bytes_view(self.wasm_module),
            managed: v1_managed_view(self.managed),
        }
    }
}

impl View for Persisted {
    type V = PersistedView;

    open spec fn view(&self) -> PersistedView {
        match self {
            Persisted::V1(s) => PersistedView::V1(s@),
            Persisted::V2(s) => PersistedView::V2(s@),
        }
    }
}

/// The layout in which a snapshot of this version is stored: the current one
/// for version 2, the first one for every other version.
pub open spec fn layout_spec(version: u32) -> Layout {
    if version != 2 {
        Layout::V1
    } else {
        Layout::V2
    }
}

/// The version of a snapshot: the one it is tagged with, 1 if it has no tag.
pub open spec fn version_spec(tag: Option<u32>) -> u32 {
    match tag {
        Some(v) => v,
        None => 1,
    }
}

/// The layout in which a snapshot with this tag is to be read.
pub fn layout_for(tag: Option<u32>) -> (r: Layout)
    ensures
        r == layout_spec(version_spec(tag)),
{
    let version: u32 = match tag {
        Some(v) => v,
        None => 1,
    };
    if version != 2 {
        Layout::V1
    } else {
        Layout::V2
    }
}

/// The version-1 ledger after an event: one more record for the target that
/// the event concerns, and no change if it concerns none.
pub open spec fn v1_ledger_record(ledger: Seq<(Identity, V1TargetView)>, event: V1Event) -> Seq<
    (Identity, V1TargetView),
> {
    match v1_to_managed_spec(event.kind) {
        Some((target, entry)) => v1_ledger_push(ledger, target, entry, event.timestamp),
        None => ledger,
    }
}

/// The version-1 ledger that the first `n` of `events` give when they are
/// recorded one after the other, each at its own time.
pub open spec fn v1_replay(events: Seq<V1Event>, n: int) -> Seq<(Identity, V1TargetView)>
    decreases n,
{
    if n <= 0 {
        Seq::empty()
    } else {
        v1_ledger_record(v1_replay(events, n - 1), events[n - 1])
    }
}

/// A version-1 state with the ledger that its events give.
pub open spec fn with_replayed_ledger(store: V1StorageView) -> V1StorageView {
    V1StorageView {
        address_book: store.address_book,
        events: store.events,
        name: store.name,
        chart: store.chart,
        wasm_module: store.wasm_module,
        managed: Some(v1_replay(store.events, store.events.len() as int)),
    }
}

/// A version-1 kind of event with its amounts as 128-bit numbers.
pub open spec fn widen_kind_spec(kind: V1EventKind) -> EventKind {
    match kind {
        V1EventKind::AddressAdded { id, name, role } => EventKind::AddressAdded { id, name, role },
        V1EventKind::AddressRemoved { id } => EventKind::AddressRemoved { id },
        V1EventKind::CanisterCalled { canister, cycles, method_name } => EventKind::CanisterCalled {
            canister,
            cycles: cycles as u128,
            method_name,
        },
        V1EventKind::CanisterCreated { canister, cycles } => EventKind::CanisterCreated {
            canister,
            cycles: cycles as u128,
        },
        V1EventKind::CyclesReceived { amount, from, memo } => EventKind::CyclesReceived {
            amount: amount as u128,
            from,
            memo,
        },
        V1EventKind::CyclesSent { amount, refund, to } => EventKind::CyclesSent {
            amount: amount as u128,
            refund: refund as u128,
            to,
        },
        V1EventKind::WalletDeployed { canister } => EventKind::WalletDeployed { canister },
    }
}

/// A version-1 event in the current layout: the same identifier and time.
pub open spec fn widen_event_spec(event: V1Event) -> Event {
    Event { id: event.id, timestamp: event.timestamp, kind: widen_kind_spec(event.kind) }
}

/// Version-1 events in the current layout, in their order.
pub open spec fn widen_events_spec(events: Seq<V1Event>) -> Seq<Event> {
    Seq::new(events.len(), |i: int| widen_event_spec(events[i]))
}

/// A version-1 kind of target event with its amounts as 128-bit numbers.
pub open spec fn widen_target_kind_spec(kind: V1ManagedCanisterEventKind) -> ManagedCanisterEventKind {
    match kind {
        V1ManagedCanisterEventKind::Called { cycles, method_name } => {
            ManagedCanisterEventKind::Called { cycles: cycles as u128, method_name }
        },
        V1ManagedCanisterEventKind::Created { cycles } => ManagedCanisterEventKind::Created {
            cycles: cycles as u128,
        },
        V1ManagedCanisterEventKind::CyclesSent { amount, refund } => {
            ManagedCanisterEventKind::CyclesSent { amount: amount as u128, refund: refund as u128 }
        },
    }
}

/// A version-1 target event in the current layout: the same identifier and time.
pub open spec fn widen_target_event_spec(event: V1ManagedCanisterEvent) -> ManagedCanisterEvent {
    ManagedCanisterEvent {
        id: event.id,
        timestamp: event.timestamp,
        kind: widen_target_kind_spec(event.kind),
    }
}

/// A version-1 target in the current layout: the same info, every record
/// widened, nothing dropped.
pub open spec fn widen_target_spec(target: V1TargetView) -> TargetView {
    TargetView {
        info: target.info,
        events: Seq::new(target.events.len(), |i: int| widen_target_event_spec(target.events[i])),
        culled: Some(0),
    }
}

/// A version-1 ledger in the current layout: the same targets in the same order.
pub open spec fn widen_ledger_spec(ledger: Seq<(Identity, V1TargetView)>) -> Seq<
    (Identity, TargetView),
> {
    Seq::new(ledger.len(), |i: int| (ledger[i].0, widen_target_spec(ledger[i].1)))
}

/// The version-1 state in the current layout: every amount widened and every
/// record kept with its identifier and time; a missing ledger becomes an empty one.
pub open spec fn convert_spec(store: V1StorageView) -> StorageView {
    StorageView {
        address_book: store.address_book,
        events: LogView { events: widen_events_spec(store.events), culled: None },
        name: store.name,
        chart: store.chart,
        wasm_module: store.wasm_module,
        managed: Some(
            match store.managed {
                Some(ledger) => widen_ledger_spec(ledger),
                None => Seq::empty(),
            },
        ),
    }
}

/// The current state that a stored state is migrated to: a version-1 state
/// first gets the ledger that its events give, if it has none, and is then
/// converted; a current state stays as it is.
pub open spec fn migrate_spec(persisted: PersistedView) -> StorageView {
    match persisted {
        PersistedView::V1(store) => if store.managed is None {
            convert_spec(with_replayed_ledger(store))
        } else {
            convert_spec(store)
        },
        PersistedView::V2(store) => store,
    }
}

/// Brings what was found stored to the current layout.
pub fn migrate_from(persisted: Persisted) -> (r: StableStorage)
    ensures
        r@ == migrate_spec(persisted@),
{
    match persisted {
        Persisted::V1(v1) => {
            let mut v1 = v1;
            // from before versioning
            if v1.managed.is_none() {
                _1_create_managed_canister_list(&mut v1);
            }
            _2_convert_nat64_to_nat(v1)
        },
        Persisted::V2(v2) => v2,
    }
}

/// Creates the managed canister list from the event list: every event that
/// concerns a target is recorded for it, in order and at the event's own time.
pub fn _1_create_managed_canister_list(store: &mut V1StableStorage)
    ensures
        final(store)@ == with_replayed_ledger(old(store)@),
{
    let mut managed = V1ManagedList::default();
    let mut i: usize = 0;
    while i < store.events.events.len()
        invariant
            i <= store.events.events@.len(),
            *store == *old(store),
            managed@ == v1_replay(store.events.events@, i as int),
        decreases store.events.events@.len() - i,
    {
        let event = &store.events.events[i];
        if let Some((to, kind)) = event.kind.to_managed() {
            managed.push_with_timestamp(to, kind, event.timestamp);
        }
        i += 1;
    }
    store.managed = Some(managed);
}

fn widen_kind(kind: V1EventKind) -> (r: EventKind)
    ensures
        r == widen_kind_spec(kind),
{
    match kind {
        V1EventKind::AddressAdded { id, name, role } => EventKind::AddressAdded { id, name, role },
        V1EventKind::AddressRemoved { id } => EventKind::AddressRemoved { id },
        V1EventKind::CanisterCalled { canister, cycles, method_name } => EventKind::CanisterCalled {
            canister,
            cycles: cycles as u128,
            method_name,
        },
        V1EventKind::CanisterCreated { canister, cycles } => EventKind::CanisterCreated {
            canister,
            cycles: cycles as u128,
        },
        V1EventKind::CyclesReceived { amount, from, memo } => EventKind::CyclesReceived {
            amount: amount as u128,
            from,
            memo,
        },
        V1EventKind::CyclesSent { amount, refund, to } => EventKind::CyclesSent {
            amount: amount as u128,
            refund: refund as u128,
            to,
        },
        V1EventKind::WalletDeployed { canister } => EventKind::WalletDeployed { canister },
    }
}

fn widen_target_event(event: &V1ManagedCanisterEvent) -> (r: ManagedCanisterEvent)
    ensures
        r == widen_target_event_spec(*event),
{
    let kind = match &event.kind {
        V1ManagedCanisterEventKind::Called { cycles, method_name } => {
            ManagedCanisterEventKind::Called {
                cycles: *cycles as u128,
                method_name: method_name.clone(),
            }
        },
        V1ManagedCanisterEventKind::Created { cycles } => ManagedCanisterEventKind::Created {
            cycles: *cycles as u128,
        },
        V1ManagedCanisterEventKind::CyclesSent { amount, refund } => {
            ManagedCanisterEventKind::CyclesSent {
                amount: *amount as u128,
                refund: *refund as u128,
            }
        },
    };
    ManagedCanisterEvent { id: event.id, timestamp: event.timestamp, kind }
}

fn widen_target(target: &V1ManagedCanister) -> (r: ManagedCanister)
    ensures
        r@ == widen_target_spec(target@),
{
    let mut events: VecDeque<ManagedCanisterEvent> = VecDeque::new();
    let mut i: usize = 0;
    while i < target.events.len()
        invariant
            i <= target.events@.len(),
            events@.len() == i,
            forall|k: int|
                0 <= k < i ==> #[trigger] events@[k] == widen_target_event_spec(target.events@[k]),
        decreases target.events@.len() - i,
    {
        events.push_back(widen_target_event(&target.events[i]));
        i += 1;
    }
    let r = ManagedCanister { info: target.info.clone(), events, culled: Some(0) };
    assert(r@.events =~= widen_target_spec(target@).events);
    r
}

fn widen_events(events: Vec<V1Event>) -> (r: VecDeque<Event>)
    ensures
        r@ == widen_events_spec(events@),
{
    let ghost all = events@;
    let mut events = events;
    let mut out: VecDeque<Event> = VecDeque::new();
    while events.len() > 0
        invariant
            events@.len() <= all.len(),
            events@ == all.subrange(0, events@.len() as int),
            out@.len() == all.len() - events@.len(),
            forall|k: int|
                0 <= k < out@.len() ==> #[trigger] out@[k] == widen_event_spec(
                    all[events@.len() + k],
                ),
        decreases events@.len(),
    {
        let V1Event { id, timestamp, kind } = events.pop().unwrap();
        out.push_front(Event { id, timestamp, kind: widen_kind(kind) });
    }
    out
}

fn widen_ledger(list: &V1ManagedList) -> (r: ManagedList)
    ensures
        r@ == widen_ledger_spec(list@),
{
    let n = list.len();
    let mut map = managed_map_new();
    let mut i: usize = 0;
    while i < n
        invariant
            i <= n,
            n == list@.len(),
            ledger_view(managed_entries(map)) == widen_ledger_spec(list@).subrange(0, i as int),
        decreases n - i,
    {
        let key = list.key_at(i);
        let target = widen_target(list.record_at(i));
        let ghost before = managed_entries(map);
        proof {
            lemma_ledger_view_index(before, key, 0);
            lemma_key_index_from(ledger_view(before), key, 0);
        }
        managed_map_insert(&mut map, key, target);
        i += 1;
    }
    ManagedList(map)
}

/// Brings a version-1 state to the current layout: amounts of cycles, 64-bit
/// numbers before, become 128-bit numbers of the same value, and every record
/// keeps its identifier, its time and its place.
pub fn _2_convert_nat64_to_nat(store: V1StableStorage) -> (r: StableStorage)
    ensures
        r@ == convert_spec(store@),
{
    let V1StableStorage { address_book, events, name, chart, wasm_module, managed } = store;
    let events = EventBuffer { events: widen_events(events.events), culled: None };
    let managed = match managed {
        Some(list) => widen_ledger(&list),
        None => ManagedList::default(),
    };
    StableStorage { address_book, events, name, chart, wasm_module, managed: Some(managed) }
}

/// A version-1 ledger is well formed when no identity has two records, every
/// record is kept under the identity that it is about, and every record of a
/// log has its place in the log as its identifier.
pub open spec fn v1_ledger_wf(ledger: Seq<(Identity, V1TargetView)>) -> bool {
    &&& forall|i: int, j: int|
        0 <= i < j < ledger.len() ==> (#[trigger] ledger[i]).0 != (#[trigger] ledger[j]).0
    &&& forall|k: int|
        0 <= k < ledger.len() ==> (#[trigger] ledger[k]).1.info.id == ledger[k].0
    &&& forall|k: int, i: int|
        0 <= k < ledger.len() && 0 <= i < ledger[k].1.events.len() ==> (
        #[trigger] ledger[k].1.events[i]).id == i
}

/// No log of the version-1 ledger holds more than `bound` records.
pub open spec fn v1_ledger_bounded(ledger: Seq<(Identity, V1TargetView)>, bound: int) -> bool {
    forall|k: int| 0 <= k < ledger.len() ==> (#[trigger] ledger[k]).1.events.len() <= bound
}

impl V1StorageView {
    /// The stored version-1 logs are well formed: every record of the global
    /// log has its place as its identifier, and so has the ledger, if there is one.
    pub open spec fn wf(self) -> bool {
        &&& forall|i: int| 0 <= i < self.events.len() ==> (#[trigger] self.events[i]).id == i
        &&& self.managed matches Some(ledger) ==> v1_ledger_wf(ledger)
    }
}

/// The ledger that version-1 events give is well formed, as long as there are
/// no more events than identifiers.
pub proof fn lemma_v1_replay_wf(events: Seq<V1Event>, n: int)
    requires
        0 <= n <= events.len(),
        n <= u32::MAX,
    ensures
        v1_ledger_wf(v1_replay(events, n)),
        v1_ledger_bounded(v1_replay(events, n), n),
    decreases n,
{
    if n > 0 {
        lemma_v1_replay_wf(events, n - 1);
        let before = v1_replay(events, n - 1);
        let after = v1_replay(events, n);
        if let Some((target, kind)) = v1_to_managed_spec(events[n - 1].kind) {
            lemma_key_index_from(before, target, 0);
            assert forall|k: int, i: int|
                0 <= k < after.len() && 0 <= i < after[k].1.events.len() implies (
            #[trigger] after[k].1.events[i]).id == i by {
                if k < before.len() && i < before[k].1.events.len() {
                    assert(after[k].1.events[i] == before[k].1.events[i]);
                }
            }
        }
    }
}

/// Converting a well-formed version-1 state gives a well-formed current state:
/// every record keeps its identifier, and nothing has been dropped.
pub proof fn lemma_convert_wf(store: V1StorageView)
    requires
        store.wf(),
    ensures
        convert_spec(store).wf(),
{
}

/// Migrating a well-formed stored state gives a well-formed current state.
pub proof fn lemma_migrate_wf(persisted: PersistedView)
    requires
        match persisted {
            PersistedView::V1(store) => store.wf() && store.events.len() <= u32::MAX,
            PersistedView::V2(store) => store.wf(),
        },
    ensures
        migrate_spec(persisted).wf(),
{
    if let PersistedView::V1(store) = persisted {
        if store.managed is None {
            lemma_v1_replay_wf(store.events, store.events.len() as int);
            lemma_convert_wf(with_replayed_ledger(store));
        } else {
            lemma_convert_wf(store);
        }
    }
}

/// Migrating a version-1 state without a ledger gives the same current state
/// as first giving it the ledger that its events give and migrating that.
pub proof fn lemma_migrate_via_ledger(store: V1StorageView)
    requires
        store.managed is None,
    ensures
        migrate_spec(PersistedView::V1(store)) == migrate_spec(
            PersistedView::V1(with_replayed_ledger(store)),
        ),
        migrate_spec(PersistedView::V2(migrate_spec(PersistedView::V1(store)))) == migrate_spec(
            PersistedView::V1(store),
        ),
{
}

} // verus!
