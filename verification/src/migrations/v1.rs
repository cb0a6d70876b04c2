//! The first layout of the stored state: amounts of cycles were 64-bit
//! numbers, logs were unbounded, and the per-target logs did not exist in
//! the oldest snapshots.

use vstd::prelude::*;
use indexmap::IndexMap;
use crate::address::{AddressEntry, Role};
use crate::chart::ChartTick;
use crate::events::ManagedCanisterInfo;
use crate::identity::Identity;
use crate::ordered_map::{
    key_index, key_index_from, lemma_key_index_from, v1_managed_entries, v1_map_entry,
    v1_map_insert, v1_map_len, v1_map_new, v1_map_pair_at,
};

verus! {

/// The type of an event in the version-1 global log.
#[derive(Debug)]
pub enum V1EventKind {
    CyclesSent { to: Identity, amount: u64, refund: u64 },
    CyclesReceived { from: Identity, amount: u64, memo: Option<String> },
    AddressAdded { id: Identity, name: Option<String>, role: Role },
    AddressRemoved { id: Identity },
    CanisterCreated { canister: Identity, cycles: u64 },
    CanisterCalled { canister: Identity, method_name: String, cycles: u64 },
    WalletDeployed { canister: Identity },
}

/// The version-1 global log: every event ever recorded.
#[derive(Debug)]
pub struct V1EventBuffer {
    pub events: Vec<V1Event>,
}

/// One record in the version-1 global log.
#[derive(Debug)]
pub struct V1Event {
    pub id: u32,
    pub timestamp: u64,
    pub kind: V1EventKind,
}

/// The stored state in its first layout.
#[derive(Debug)]
pub struct V1StableStorage {
    pub address_book: Vec<AddressEntry>,
    pub events: V1EventBuffer,
    pub name: Option<String>,
    pub chart: Vec<ChartTick>,
    pub wasm_module: Option<Vec<u8>>,
    pub managed: Option<V1ManagedList>,
}

/// What happened to one target, in the first layout.
#[derive(Debug)]
pub enum V1ManagedCanisterEventKind {
    CyclesSent { amount: u64, refund: u64 },
    Called { method_name: String, cycles: u64 },
    Created { cycles: u64 },
}

/// One record in the version-1 log of a target.
#[derive(Debug)]
pub struct V1ManagedCanisterEvent {
    pub id: u32,
    pub timestamp: u64,
    pub kind: V1ManagedCanisterEventKind,
}

/// A target with its version-1 log.
#[derive(Debug)]
pub struct V1ManagedCanister {
    pub info: ManagedCanisterInfo,
    pub events: Vec<V1ManagedCanisterEvent>,
}

/// The targets and their version-1 logs, in the order of first reference.
#[derive(Debug)]
pub struct V1ManagedList(pub IndexMap<Identity, V1ManagedCanister>);

/// A version-1 target with its log as a sequence.
pub struct V1TargetView {
    pub info: ManagedCanisterInfo,
    pub events: Seq<V1ManagedCanisterEvent>,
}

impl View for V1ManagedCanister {
    type V = V1TargetView;

    open spec fn view(&self) -> V1TargetView {
        V1TargetView { info: self.info, events: self.events@ }
    }
}

/// The version-1 record of a target that has just been referred to for the first time.
pub open spec fn new_v1_target(id: Identity, created_at: u64) -> V1TargetView {
    V1TargetView { info: ManagedCanisterInfo { id, name: None, created_at }, events: Seq::empty() }
}

impl V1TargetView {
    /// The target after one more record, whose identifier is the number of
    /// records before it, as a 32-bit number.
    pub open spec fn push(self, kind: V1ManagedCanisterEventKind, timestamp: u64) -> V1TargetView {
        V1TargetView {
            info: self.info,
            events: self.events.push(
                V1ManagedCanisterEvent { id: self.events.len() as u32, timestamp, kind },
            ),
        }
    }
}

/// The targets of a version-1 list with their logs as sequences, in the list's order.
pub open spec fn v1_ledger_view(entries: Seq<(Identity, V1ManagedCanister)>) -> Seq<
    (Identity, V1TargetView),
> {
    Seq::new(entries.len(), |i: int| (entries[i].0, entries[i].1@))
}

/// The version-1 ledger after a record of `kind` for `target`: appended to the
/// target's log if the target is known, else to the log of a new last target
/// created at `timestamp`.
pub open spec fn v1_ledger_push(
    ledger: Seq<(Identity, V1TargetView)>,
    target: Identity,
    kind: V1ManagedCanisterEventKind,
    timestamp: u64,
) -> Seq<(Identity, V1TargetView)> {
    match key_index(ledger, target) {
        Some(i) => ledger.update(i, (target, ledger[i].1.push(kind, timestamp))),
        None => ledger.push((target, new_v1_target(target, timestamp).push(kind, timestamp))),
    }
}

/// The version-1 ledger after `record` is put under the identity that it is
/// about: in the place of the record under that identity if there is one, else last.
pub open spec fn v1_ledger_put(ledger: Seq<(Identity, V1TargetView)>, record: V1TargetView) -> Seq<
    (Identity, V1TargetView),
> {
    match key_index(ledger, record.info.id) {
        Some(i) => ledger.update(i, (record.info.id, record)),
        None => ledger.push((record.info.id, record)),
    }
}

/// The version-1 ledger that holds the first `n` of `records`, put one after the other.
pub open spec fn v1_ledger_of_records(records: Seq<V1TargetView>, n: int) -> Seq<
    (Identity, V1TargetView),
>
    decreases n,
{
    if n <= 0 {
        Seq::empty()
    } else {
        v1_ledger_put(v1_ledger_of_records(records, n - 1), records[n - 1])
    }
}

/// The key index of a version-1 list and of its view are the same.
pub proof fn lemma_v1_ledger_view_index(
    entries: Seq<(Identity, V1ManagedCanister)>,
    key: Identity,
    from: int,
)
    requires
        0 <= from <= entries.len(),
    ensures
        key_index_from(v1_ledger_view(entries), key, from) == key_index_from(entries, key, from),
    decreases entries.len() - from,
{
    if from < entries.len() && entries[from].0 != key {
        lemma_v1_ledger_view_index(entries, key, from + 1);
    }
}

impl View for V1ManagedList {
    type V = Seq<(Identity, V1TargetView)>;

    open spec fn view(&self) -> Seq<(Identity, V1TargetView)> {
        v1_ledger_view(v1_managed_entries(self.0))
    }
}

impl Default for V1ManagedList {
    fn default() -> (r: Self)
        ensures
            r@ == Seq::<(Identity, V1TargetView)>::empty(),
    {
        V1ManagedList(v1_map_new())
    }
}

impl V1ManagedList {
    /// Records an event of `kind` for `canister`: looks up the target's record,
    /// creating it with `timestamp` as its time of creation if this is the first
    /// reference to the target, and appends to its log.
    pub fn push_with_timestamp(
        &mut self,
        canister: Identity,
        event: V1ManagedCanisterEventKind,
        timestamp: u64,
    )
        ensures
            final(self)@ == v1_ledger_push(old(self)@, canister, event, timestamp),
    {
        proof {
            lemma_v1_ledger_view_index(v1_managed_entries(self.0), canister, 0);
            lemma_key_index_from(v1_managed_entries(self.0), canister, 0);
        }
        let target = v1_map_entry(&mut self.0, canister, timestamp);
        let id =
            #[verifier::truncate]
            (target.events.len() as u32);
        target.events.push(V1ManagedCanisterEvent { kind: event, id, timestamp });
    }

    /// The number of targets.
    pub fn len(&self) -> (n: usize)
        ensures
            n == self@.len(),
    {
        v1_map_len(&self.0)
    }

    /// The record at a position of the list.
    pub fn record_at(&self, index: usize) -> (r: &V1ManagedCanister)
        requires
            index < self@.len(),
        ensures
            r@ == self@[index as int].1,
    {
        v1_map_pair_at(&self.0, index).1
    }

    /// The key at a position of the list; no other position has the same key.
    pub fn key_at(&self, index: usize) -> (r: Identity)
        requires
            index < self@.len(),
        ensures
            r == self@[index as int].0,
            forall|j: int| 0 <= j < self@.len() && j != index ==> (#[trigger] self@[j]).0 != r,
    {
        let key = *v1_map_pair_at(&self.0, index).0;
        assert forall|j: int| 0 <= j < self@.len() && j != index implies (#[trigger] self@[j]).0
            != key by {}
        key
    }

    /// The list that holds `records`, each put under the identity that it is
    /// about, one after the other: of two records about one identity the later
    /// takes the place of the earlier.
    pub fn from_records(records: Vec<V1ManagedCanister>) -> (r: Self)
        ensures
            r@ == v1_ledger_of_records(
                Seq::new(records@.len(), |i: int| records@[i]@),
                records@.len() as int,
            ),
    {
        let ghost views = Seq::new(records@.len(), |i: int| records@[i]@);
        let mut map = v1_map_new();
        let mut records = records;
        let ghost all = records@;
        let n: usize = records.len();
        let mut taken: Vec<V1ManagedCanister> = Vec::new();
        while records.len() > 0
            invariant
                taken@.len() + records@.len() == all.len(),
                forall|k: int| 0 <= k < records@.len() ==> records@[k] == all[k],
                forall|k: int|
                    0 <= k < taken@.len() ==> taken@[k] == all[all.len() - 1 - k],
            decreases records@.len(),
        {
            let record = records.pop().unwrap();
            taken.push(record);
        }
        let mut i: usize = 0;
        while taken.len() > 0
            invariant
                n == all.len(),
                i + taken@.len() == all.len(),
                views == Seq::new(all.len(), |k: int| all[k]@),
                forall|k: int|
                    0 <= k < taken@.len() ==> taken@[k] == all[all.len() - 1 - k],
                v1_ledger_view(v1_managed_entries(map)) == v1_ledger_of_records(views, i as int),
            decreases taken@.len(),
        {
            let record = taken.pop().unwrap();
            let id = record.info.id;
            let ghost before = v1_managed_entries(map);
            proof {
                lemma_v1_ledger_view_index(before, id, 0);
                lemma_key_index_from(before, id, 0);
            }
            v1_map_insert(&mut map, id, record);
            i += 1;
        }
        V1ManagedList(map)
    }
}

/// The target that a version-1 event of this kind concerns and what it records
/// of it: cycles sent, a call and a creation concern their target, every other
/// kind concerns none.
pub open spec fn v1_to_managed_spec(kind: V1EventKind) -> Option<
    (Identity, V1ManagedCanisterEventKind),
> {
    match kind {
        V1EventKind::CanisterCreated { canister, cycles } => Some(
            (canister, V1ManagedCanisterEventKind::Created { cycles }),
        ),
        V1EventKind::CanisterCalled { canister, method_name, cycles } => Some(
            (canister, V1ManagedCanisterEventKind::Called { method_name, cycles }),
        ),
        V1EventKind::CyclesSent { to, amount, refund } => Some(
            (to, V1ManagedCanisterEventKind::CyclesSent { amount, refund }),
        ),
        V1EventKind::AddressAdded { .. } => None,
        V1EventKind::AddressRemoved { .. } => None,
        V1EventKind::CyclesReceived { .. } => None,
        V1EventKind::WalletDeployed { .. } => None,
    }
}

impl V1EventKind {
    /// The target that the event concerns and what its log records of it, if
    /// the event concerns a target.
    pub fn to_managed(&self) -> (r: Option<(Identity, V1ManagedCanisterEventKind)>)
        ensures
            r == v1_to_managed_spec(*self),
    {
        match self {
            V1EventKind::CanisterCreated { canister, cycles } => Some(
                (*canister, V1ManagedCanisterEventKind::Created { cycles: *cycles }),
            ),
            V1EventKind::CanisterCalled { canister, method_name, cycles } => Some(
                (
                    *canister,
                    V1ManagedCanisterEventKind::Called {
                        method_name: method_name.clone(),
                        cycles: *cycles,
                    },
                ),
            ),
            V1EventKind::CyclesSent { to, amount, refund } => Some(
                (*to, V1ManagedCanisterEventKind::CyclesSent { amount: *amount, refund: *refund }),
            ),
            V1EventKind::AddressAdded { .. } => None,
            V1EventKind::AddressRemoved { .. } => None,
            V1EventKind::CyclesReceived { .. } => None,
            V1EventKind::WalletDeployed { .. } => None,
        }
    }
}

impl V1ManagedCanister {
    /// The version-1 record of a target that is referred to for the first time
    /// at `created_at`.
    pub fn new(id: Identity, created_at: u64) -> (r: Self)
        ensures
            r@ == new_v1_target(id, created_at),
    {
        V1ManagedCanister {
            info: ManagedCanisterInfo { id, name: None, created_at },
            events: Vec::new(),
        }
    }
}

} // verus!
