//! Saving the state before an upgrade and restoring it after.
//!
//! Before an upgrade the whole state is taken out of the wallet and handed
//! over to be stored, tagged with the version of its layout. After the
//! upgrade, what was stored is put back; what was stored in an older layout
//! is migrated first, and where nothing can be read the wallet starts afresh.

use vstd::prelude::*;
use crate::address::{insert_spec, lemma_insert_sorted, sorted, AddressEntry, Role};
use crate::events::{ledger_replay, rebuild_managed};
use crate::identity::Identity;
use crate::migrations::{migrate_from, migrate_spec, Persisted};
use crate::storage::{empty_storage, StableStorage, StorageView, STABLE_VERSION};
use crate::wallet::{added_event, empty_wallet, Moment, Wallet, WalletView};

verus! {

/// What is stored of a state: all of it, the ledger included.
pub open spec fn snapshot_spec(state: WalletView) -> StorageView {
    StorageView {
        address_book: state.address_book,
        events: state.events,
        name: state.name,
        chart: state.chart,
        wasm_module: state.wasm_module,
        managed: Some(state.managed),
    }
}

/// The address book after the first `n` of `entries` were inserted, one
/// after the other.
pub open spec fn insert_each(book: Seq<AddressEntry>, entries: Seq<AddressEntry>, n: int) -> Seq<
    AddressEntry,
>
    decreases n,
{
    if n <= 0 {
        book
    } else {
        insert_spec(insert_each(book, entries, n - 1), entries[n - 1])
    }
}

/// The state after what was stored is put back: the stored entries are
/// inserted into the address book, everything else takes the place of what
/// was there, and a ledger that was not stored is the one that the stored
/// events give.
pub open spec fn restored_spec(state: WalletView, storage: StorageView) -> WalletView {
    WalletView {
        address_book: insert_each(
            state.address_book,
            storage.address_book,
            storage.address_book.len() as int,
        ),
        events: storage.events,
        managed: match storage.managed {
            Some(ledger) => ledger,
            None => ledger_replay(storage.events.events, storage.events.events.len() as int),
        },
        name: storage.name,
        chart: storage.chart,
        wasm_module: storage.wasm_module,
    }
}

/// Inserting entries one after the other keeps the address book sorted.
pub proof fn lemma_insert_each_sorted(book: Seq<AddressEntry>, entries: Seq<AddressEntry>, n: int)
    requires
        sorted(book),
        0 <= n <= entries.len(),
    ensures
        sorted(insert_each(book, entries, n)),
    decreases n,
{
    if n > 0 {
        lemma_insert_each_sorted(book, entries, n - 1);
        lemma_insert_sorted(insert_each(book, entries, n - 1), entries[n - 1]);
    }
}

/// What was stored in the current layout, if its tag says that it is current.
pub fn current_snapshot(storage: StableStorage, tag: Option<u32>) -> (r: Option<StableStorage>)
    ensures
        match r {
            Some(s) => tag == Some(STABLE_VERSION) && s == storage,
            None => tag != Some(STABLE_VERSION),
        },
{
    match tag {
        Some(version) => if version == STABLE_VERSION {
            Some(storage)
        } else {
            None
        },
        None => None,
    }
}

/// The current state that what was stored in an older layout comes to: its
/// migration, or an empty state if it could not be read.
pub fn migrated_or_fresh(persisted: Option<Persisted>) -> (r: StableStorage)
    ensures
        r@ == match persisted {
            Some(p) => migrate_spec(p@),
            None => empty_storage(),
        },
{
    match persisted {
        Some(p) => migrate_from(p),
        None => StableStorage::default(),
    }
}

impl Wallet {
    /// Takes the state out of the wallet to be stored: the wallet is left
    /// empty, and the state comes tagged with the version of its layout.
    pub fn pre_upgrade(&mut self) -> (r: (StableStorage, Option<u32>))
        ensures
            r.0@ == snapshot_spec(old(self)@),
            r.1 == Some(STABLE_VERSION),
            final(self)@ == empty_wallet(),
            old(self)@.wf() ==> r.0@.wf(),
            final(self)@.wf(),
    {
        let mut taken = Wallet::default();
        std::mem::swap(self, &mut taken);
        let Wallet { address_book, events, managed, name, chart, wasm_module } = taken;
        let stable = StableStorage {
            address_book: address_book.iter(),
            events,
            name,
            chart,
            wasm_module,
            managed: Some(managed),
        };
        (stable, Some(STABLE_VERSION))
    }

    /// Puts back what was stored.
    pub fn restore(&mut self, storage: StableStorage)
        requires
            storage@.managed is None ==> storage@.events.events.len() <= u32::MAX,
        ensures
            final(self)@ == restored_spec(old(self)@, storage@),
            old(self)@.wf() && storage@.wf() ==> final(self)@.wf(),
    {
        proof {
            if sorted(self@.address_book) {
                lemma_insert_each_sorted(
                    self@.address_book,
                    storage@.address_book,
                    storage@.address_book.len() as int,
                );
            }
        }
        let StableStorage { address_book, events, name, chart, wasm_module, managed } = storage;
        let mut i: usize = 0;
        while i < address_book.len()
            invariant
                i <= address_book@.len(),
                self.address_book@ == insert_each(
                    old(self).address_book@,
                    address_book@,
                    i as int,
                ),
            decreases address_book@.len() - i,
        {
            self.address_book.insert(address_book[i].clone());
            i += 1;
        }
        self.managed = match managed {
            Some(list) => list,
            None => rebuild_managed(&events),
        };
        self.events = events;
        self.name = name;
        self.wasm_module = wasm_module;
        self.chart = chart;
    }

    /// Starts the wallet after an upgrade: the caller becomes a controller,
    /// and what was stored, if anything, is put back.
    pub fn post_upgrade(&mut self, caller: Identity, storage: Option<StableStorage>, moment: Moment)
        requires
            old(self)@.can_record(
                added_event(AddressEntry::new_spec(caller, None, Role::Controller)),
            ),
            storage matches Some(s) ==> (s@.managed is None ==> s@.events.events.len()
                <= u32::MAX),
        ensures
            final(self)@ == match storage {
                Some(s) => restored_spec(
                    old(self)@.added(
                        AddressEntry::new_spec(caller, None, Role::Controller),
                        moment,
                    ),
                    s@,
                ),
                None => old(self)@.added(
                    AddressEntry::new_spec(caller, None, Role::Controller),
                    moment,
                ),
            },
            old(self)@.wf() && (storage matches Some(s) ==> s@.wf()) ==> final(self)@.wf(),
    {
        self.init(caller, moment);
        if let Some(s) = storage {
            self.restore(s);
        }
    }
}

} // verus!
