//! The stored state in its current layout: what is written to stable memory
//! before an upgrade and read back after it.

use vstd::prelude::*;
use crate::address::AddressEntry;
use crate::chart::ChartTick;
use crate::events::{EventBuffer, LogView, ManagedList, TargetView};
use crate::events_lemmas::ledger_wf;
use crate::identity::Identity;

verus! {

/// The version of the current layout.
pub const STABLE_VERSION: u32 = 2;

/// The stored state.
#[derive(Debug)]
pub struct StableStorage {
    pub address_book: Vec<AddressEntry>,
    pub events: EventBuffer,
    pub name: Option<String>,
    pub chart: Vec<ChartTick>,
    pub wasm_module: Option<Vec<u8>>,
    pub managed: Option<ManagedList>,
}

/// The stored state with its collections as sequences.
pub struct StorageView {
    pub address_book: Seq<AddressEntry>,
    pub events: LogView,
    pub name: Option<String>,
    pub chart: Seq<ChartTick>,
    pub wasm_module: Option<Seq<u8>>,
    pub managed: Option<Seq<(Identity, TargetView)>>,
}

/// The bytes of an optional module, as a sequence.
pub open spec fn bytes_view(bytes: Option<Vec<u8>>) -> Option<Seq<u8>> {
    match bytes {
        Some(b) => Some(b@),
        None => None,
    }
}

/// The ledger of an optional list.
pub open spec fn managed_view(managed: Option<ManagedList>) -> Option<Seq<(Identity, TargetView)>> {
    match managed {
        Some(m) => Some(m@),
        None => None,
    }
}

impl StorageView {
    /// The stored logs are well formed: every record has the identifier that
    /// its place gives it, and every target has one log.
    pub open spec fn wf(self) -> bool {
        &&& self.events.wf()
        &&& self.managed matches Some(ledger) ==> ledger_wf(ledger)
    }
}

impl View for StableStorage {
    type V = StorageView;

    open spec fn view(&self) -> StorageView {
        StorageView {
            address_book: self.address_book@,
            events: self.events@,
            name: self.name,
            chart: self.chart@,
            wasm_module: bytes_view(self.wasm_module),
            managed: managed_view(self.managed),
        }
    }
}

/// The stored state of a wallet that has recorded nothing yet.
pub open spec fn empty_storage() -> StorageView {
    StorageView {
        address_book: Seq::empty(),
        events: LogView { events: Seq::empty(), culled: None },
        name: None,
        chart: Seq::empty(),
        wasm_module: None,
        managed: Some(Seq::empty()),
    }
}

impl Default for StableStorage {
    fn default() -> (r: Self)
        ensures
            r@ == empty_storage(),
            r@.wf(),
    {
        StableStorage {
            address_book: Vec::new(),
            chart: Vec::new(),
            events: EventBuffer::default(),
            name: None,
            wasm_module: None,
            managed: Some(ManagedList::default()),
        }
    }
}

} // verus!
