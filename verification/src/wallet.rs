//! The wallet's state and the operations on it.
//!
//! Every operation that changes who may act for the wallet, or that moves
//! cycles, first has its effect and then records one event. The operations
//! take the time and the balance of the moment from their caller, and leave
//! sending and receiving to it.

use vstd::prelude::*;
use vstd::string::StringExecFns;
use crate::address::{
    controllers_of, custodians_of, find_spec, insert_spec, lemma_lower_bound_from,
    lemma_position_from, lower_bound_from, merged, position, remove_spec, sorted, AddressBook,
    AddressEntry, Role,
};
use crate::address_lemmas::{
    controller_weight, lemma_controllers_insert, lemma_controllers_remove,
    lemma_controllers_update, lemma_found_controller_counts,
};
use crate::chart::ChartTick;
use crate::events_lemmas::ledger_wf;
use crate::events::{
    can_record, has_room_to_record, ledger_record, record, EventBuffer, EventKind, LogView,
    ManagedList, TargetView,
};
use crate::identity::{principal_text, Identity};

verus! {

/// The state of a wallet.
#[derive(Debug)]
pub struct Wallet {
    /// Who holds which role.
    pub address_book: AddressBook,
    /// The global log.
    pub events: EventBuffer,
    /// The targets and their logs.
    pub managed: ManagedList,
    /// The name of the wallet.
    pub name: Option<String>,
    /// The samples of the balance.
    pub chart: Vec<ChartTick>,
    /// The code that new wallets are made of.
    pub wasm_module: Option<Vec<u8>>,
}

/// The state of a wallet with its collections as sequences.
pub struct WalletView {
    pub address_book: Seq<AddressEntry>,
    pub events: LogView,
    pub managed: Seq<(Identity, TargetView)>,
    pub name: Option<String>,
    pub chart: Seq<ChartTick>,
    pub wasm_module: Option<Seq<u8>>,
}

/// The moment at which an operation runs: the time, and the balance of the wallet.
#[derive(Clone, Copy, Debug, PartialEq, Eq, Structural)]
pub struct Moment {
    pub time: u64,
    pub balance: u64,
}

impl View for Wallet {
    type V = WalletView;

    open spec fn view(&self) -> WalletView {
        WalletView {
            address_book: self.address_book@,
            events: self.events@,
            managed: self.managed@,
            name: self.name,
            chart: self.chart@,
            wasm_module: crate::storage::bytes_view(self.wasm_module),
        }
    }
}

/// The state of a wallet that has nothing in it.
pub open spec fn empty_wallet() -> WalletView {
    WalletView {
        address_book: Seq::empty(),
        events: LogView { events: Seq::empty(), culled: None },
        managed: Seq::empty(),
        name: None,
        chart: Seq::empty(),
        wasm_module: None,
    }
}

impl Default for Wallet {
    fn default() -> (r: Self)
        ensures
            r@ == empty_wallet(),
            r@.wf(),
    {
        Wallet {
            address_book: AddressBook::default(),
            events: EventBuffer::default(),
            managed: ManagedList::default(),
            name: None,
            chart: Vec::new(),
            wasm_module: None,
        }
    }
}

/// What an entry becomes when its holder is a controller no more.
pub open spec fn demoted(entry: AddressEntry) -> AddressEntry {
    AddressEntry { id: entry.id, name: entry.name, kind: entry.kind, role: Role::Contact }
}

/// The entries after the entry of `id`, if there is one, is taken out and put
/// back as a contact.
pub open spec fn demote_spec(entries: Seq<AddressEntry>, id: Identity) -> Seq<AddressEntry> {
    match find_spec(entries, id) {
        Some(entry) => insert_spec(remove_spec(entries, id), demoted(entry)),
        None => entries,
    }
}

/// The event that records that an entry was added.
pub open spec fn added_event(entry: AddressEntry) -> EventKind {
    EventKind::AddressAdded { id: entry.id, name: entry.name, role: entry.role }
}

pub open spec fn must_keep_controller_message() -> Seq<char> {
    "The wallet must have at least one controller."@
}

pub open spec fn not_a_controller_message(id: Identity) -> Seq<char> {
    "Cannot remove "@ + principal_text(id@) + " because it is not a controller."@
}

pub open spec fn not_a_custodian_message(id: Identity) -> Seq<char> {
    "Cannot deauthorize "@ + principal_text(id@) + " as it is not a custodian."@
}

pub open spec fn only_controller_message() -> Seq<char> {
    "Only the controller can call this method."@
}

pub open spec fn only_custodian_message() -> Seq<char> {
    "Only a controller or custodian can call this method."@
}

impl WalletView {
    /// Whether `id` is a controller.
    pub open spec fn is_controller(self, id: Identity) -> bool {
        find_spec(self.address_book, id) matches Some(e) && e.role == Role::Controller
    }

    /// Whether `id` is a controller or a custodian.
    pub open spec fn is_custodian(self, id: Identity) -> bool {
        find_spec(self.address_book, id) matches Some(e) && (e.role == Role::Controller || e.role
            == Role::Custodian)
    }

    /// The number of controllers.
    pub open spec fn controller_count(self) -> nat {
        controllers_of(self.address_book).len()
    }

    /// The state is well formed: the address book holds one entry per
    /// identity, in identity order, every record of the logs has the
    /// identifier that its place gives it, and every target has one log.
    pub open spec fn wf(self) -> bool {
        &&& sorted(self.address_book)
        &&& self.events.wf()
        &&& ledger_wf(self.managed)
    }

    /// Whether an event of `kind` can be recorded.
    pub open spec fn can_record(self, kind: EventKind) -> bool {
        can_record(self.events, self.managed, kind)
    }

    /// The state with other entries in the address book.
    pub open spec fn with_book(self, address_book: Seq<AddressEntry>) -> WalletView {
        WalletView {
            address_book,
            events: self.events,
            managed: self.managed,
            name: self.name,
            chart: self.chart,
            wasm_module: self.wasm_module,
        }
    }

    /// The state after an event of `kind` was recorded at `time`.
    pub open spec fn recorded(self, kind: EventKind, time: u64) -> WalletView {
        WalletView {
            address_book: self.address_book,
            events: self.events.push(kind, time),
            managed: ledger_record(self.managed, kind, time),
            name: self.name,
            chart: self.chart,
            wasm_module: self.wasm_module,
        }
    }

    /// The state after the balance of the moment was sampled.
    pub open spec fn ticked(self, moment: Moment) -> WalletView {
        WalletView {
            address_book: self.address_book,
            events: self.events,
            managed: self.managed,
            name: self.name,
            chart: self.chart.push(ChartTick { timestamp: moment.time, cycles: moment.balance }),
            wasm_module: self.wasm_module,
        }
    }

    /// The state after `entry` was added to the address book.
    pub open spec fn added(self, entry: AddressEntry, moment: Moment) -> WalletView {
        self.with_book(insert_spec(self.address_book, entry)).recorded(
            added_event(entry),
            moment.time,
        ).ticked(moment)
    }

    /// The state after the entry of `id` was removed from the address book.
    pub open spec fn removed(self, id: Identity, moment: Moment) -> WalletView {
        self.with_book(remove_spec(self.address_book, id)).recorded(
            EventKind::AddressRemoved { id },
            moment.time,
        ).ticked(moment)
    }

    /// Whether the entry of `id` may be removed: it is not the only controller.
    pub open spec fn may_remove(self, id: Identity) -> bool {
        !(self.is_controller(id) && self.controller_count() == 1)
    }
}

impl Wallet {
    /// Samples the balance of the moment.
    pub fn update_chart(&mut self, moment: Moment)
        ensures
            final(self)@ == old(self)@.ticked(moment),
            old(self)@.wf() ==> final(self)@.wf(),
    {
        self.chart.push(ChartTick { timestamp: moment.time, cycles: moment.balance });
    }

    /// Whether an event of `kind` can be recorded: the logs that it goes to
    /// have an identifier left.
    pub fn can_record(&self, kind: &EventKind) -> (r: bool)
        ensures
            r == self@.can_record(*kind),
    {
        has_room_to_record(&self.events, &self.managed, kind)
    }

    /// Records an event of `kind` at `time`.
    pub fn record(&mut self, kind: EventKind, time: u64)
        requires
            old(self)@.can_record(kind),
        ensures
            final(self)@ == old(self)@.recorded(kind, time),
            old(self)@.wf() ==> final(self)@.wf(),
    {
        record(&mut self.events, &mut self.managed, kind, time);
    }

    /// Sets the wallet up for the one who installed it: the caller becomes a controller.
    pub fn init(&mut self, caller: Identity, moment: Moment)
        requires
            old(self)@.can_record(added_event(AddressEntry::new_spec(caller, None, Role::Controller))),
        ensures
            final(self)@ == old(self)@.added(
                AddressEntry::new_spec(caller, None, Role::Controller),
                moment,
            ),
            old(self)@.wf() ==> final(self)@.wf(),
    {
        self.add_address(AddressEntry::new(caller, None, Role::Controller), moment);
    }

    /// The name of the wallet.
    pub fn name(&self) -> (r: Option<String>)
        ensures
            r == self@.name,
    {
        crate::address::clone_name(&self.name)
    }

    /// Gives the wallet a name.
    pub fn set_name(&mut self, name: String, moment: Moment)
        ensures
            final(self)@ == (WalletView { name: Some(name), ..old(self)@ }).ticked(moment),
            old(self)@.wf() ==> final(self)@.wf(),
    {
        self.name = Some(name);
        self.update_chart(moment);
    }

    /// Stores the code that new wallets are made of.
    pub fn store_wallet_wasm(&mut self, wasm_module: Vec<u8>, moment: Moment)
        ensures
            final(self)@ == (WalletView { wasm_module: Some(wasm_module@), ..old(self)@ }).ticked(
                moment,
            ),
            old(self)@.wf() ==> final(self)@.wf(),
    {
        self.wasm_module = Some(wasm_module);
        self.update_chart(moment);
    }

    /// The identities of the controllers.
    pub fn get_controllers(&self) -> (r: Vec<Identity>)
        ensures
            r@ == Seq::new(
                controllers_of(self@.address_book).len(),
                |i: int| controllers_of(self@.address_book)[i].id,
            ),
    {
        ids_of(&self.address_book.controllers())
    }

    /// The identities of those whose role is `Custodian`.
    pub fn get_custodians(&self) -> (r: Vec<Identity>)
        ensures
            r@ == Seq::new(
                custodians_of(self@.address_book).len(),
                |i: int| custodians_of(self@.address_book)[i].id,
            ),
    {
        ids_of(&self.address_book.custodians())
    }

    /// All entries of the address book.
    pub fn list_addresses(&self) -> (r: Vec<AddressEntry>)
        ensures
            r@ == self@.address_book,
    {
        self.address_book.iter()
    }

    /// Adds an entry to the address book, or merges it into the entry of the
    /// same identity, and records that.
    pub fn add_address(&mut self, address: AddressEntry, moment: Moment)
        requires
            old(self)@.can_record(added_event(address)),
        ensures
            final(self)@ == old(self)@.added(address, moment),
            old(self)@.wf() ==> final(self)@.wf(),
    {
        self.address_book.insert(address.clone());
        self.record(
            EventKind::AddressAdded { id: address.id, name: address.name, role: address.role },
            moment.time,
        );
        self.update_chart(moment);
    }

    /// Makes `controller` a controller.
    pub fn add_controller(&mut self, controller: Identity, moment: Moment)
        requires
            old(self)@.can_record(
                added_event(AddressEntry::new_spec(controller, None, Role::Controller)),
            ),
        ensures
            final(self)@ == old(self)@.added(
                AddressEntry::new_spec(controller, None, Role::Controller),
                moment,
            ).ticked(moment),
            old(self)@.wf() ==> final(self)@.wf(),
    {
        self.add_address(AddressEntry::new(controller, None, Role::Controller), moment);
        self.update_chart(moment);
    }

    /// Makes `custodian` a custodian, unless it holds a higher role.
    pub fn authorize(&mut self, custodian: Identity, moment: Moment)
        requires
            old(self)@.can_record(
                added_event(AddressEntry::new_spec(custodian, None, Role::Custodian)),
            ),
        ensures
            final(self)@ == old(self)@.added(
                AddressEntry::new_spec(custodian, None, Role::Custodian),
                moment,
            ).ticked(moment),
            old(self)@.wf() ==> final(self)@.wf(),
    {
        self.add_address(AddressEntry::new(custodian, None, Role::Custodian), moment);
        self.update_chart(moment);
    }

    /// Removes the role of a controller: the entry stays in the address book
    /// as a contact. Fails, and changes nothing, if `controller` is no
    /// controller or the only one.
    pub fn remove_controller(&mut self, controller: Identity, moment: Moment) -> (r: Result<
        (),
        String,
    >)
        ensures
            match r {
                Ok(_) => {
                    &&& old(self)@.is_controller(controller)
                    &&& old(self)@.controller_count() > 1
                    &&& final(self)@ == old(self)@.with_book(
                        demote_spec(old(self)@.address_book, controller),
                    ).ticked(moment)
                    &&& final(self)@.controller_count() == old(self)@.controller_count() - 1
                },
                Err(message) => {
                    &&& final(self)@ == old(self)@
                    &&& if !old(self)@.is_controller(controller) {
                        message@ == not_a_controller_message(controller)
                    } else {
                        old(self)@.controller_count() == 1 && message@
                            == must_keep_controller_message()
                    }
                },
            },
            old(self)@.wf() ==> final(self)@.wf(),
    {
        if !self.address_book.is_controller(&controller) {
            let message = String::from_str("Cannot remove ").concat(
                controller.to_text().as_str(),
            ).concat(" because it is not a controller.");
            return Err(message);
        }
        proof {
            lemma_found_controller_counts(self.address_book@, controller);
        }
        if self.address_book.controller_count() > 1 {
            proof {
                lemma_demote_count(self.address_book@, controller);
            }
            if let Some(mut entry) = self.address_book.take(&controller) {
                entry.role = Role::Contact;
                self.address_book.insert(entry);
            }
            self.update_chart(moment);
            Ok(())
        } else {
            Err(String::from_str("The wallet must have at least one controller."))
        }
    }

    /// Removes the entry of `address` from the address book and records that.
    /// Fails, and changes nothing, if `address` is the only controller.
    pub fn remove_address(&mut self, address: Identity, moment: Moment) -> (r: Result<(), String>)
        requires
            old(self)@.can_record(EventKind::AddressRemoved { id: address }),
        ensures
            match r {
                Ok(_) => {
                    &&& old(self)@.may_remove(address)
                    &&& final(self)@ == old(self)@.removed(address, moment)
                },
                Err(message) => {
                    &&& !old(self)@.may_remove(address)
                    &&& final(self)@ == old(self)@
                    &&& message@ == must_keep_controller_message()
                },
            },
            old(self)@.controller_count() >= 1 ==> final(self)@.controller_count() >= 1,
            old(self)@.wf() ==> final(self)@.wf(),
    {
        if self.address_book.is_controller(&address) && self.address_book.controller_count() == 1 {
            Err(String::from_str("The wallet must have at least one controller."))
        } else {
            proof {
                lemma_remove_count(self.address_book@, address);
            }
            self.address_book.remove(&address);
            self.record(EventKind::AddressRemoved { id: address }, moment.time);
            self.update_chart(moment);
            Ok(())
        }
    }

    /// Takes the role of a custodian away: the entry of `custodian` is
    /// removed. Fails, and changes nothing, if `custodian` is neither custodian
    /// nor controller, or is the only controller.
    pub fn deauthorize(&mut self, custodian: Identity, moment: Moment) -> (r: Result<(), String>)
        requires
            old(self)@.can_record(EventKind::AddressRemoved { id: custodian }),
        ensures
            match r {
                Ok(_) => {
                    &&& old(self)@.is_custodian(custodian)
                    &&& old(self)@.may_remove(custodian)
                    &&& final(self)@ == old(self)@.removed(custodian, moment).ticked(moment)
                },
                Err(message) => {
                    &&& final(self)@ == old(self)@
                    &&& if !old(self)@.is_custodian(custodian) {
                        message@ == not_a_custodian_message(custodian)
                    } else {
                        !old(self)@.may_remove(custodian) && message@
                            == must_keep_controller_message()
                    }
                },
            },
            old(self)@.controller_count() >= 1 ==> final(self)@.controller_count() >= 1,
            old(self)@.wf() ==> final(self)@.wf(),
    {
        if self.address_book.is_custodian(&custodian) {
            match self.remove_address(custodian, moment) {
                Ok(_) => {
                    self.update_chart(moment);
                    Ok(())
                },
                Err(message) => Err(message),
            }
        } else {
            let message = String::from_str("Cannot deauthorize ").concat(
                custodian.to_text().as_str(),
            ).concat(" as it is not a custodian.");
            Err(message)
        }
    }

    /// Whether `caller` may do what only a controller may do.
    pub fn is_controller(&self, caller: &Identity) -> (r: Result<(), String>)
        ensures
            match r {
                Ok(_) => self@.is_controller(*caller),
                Err(message) => !self@.is_controller(*caller) && message@
                    == only_controller_message(),
            },
    {
        if self.address_book.is_controller(caller) {
            Ok(())
        } else {
            Err(String::from_str("Only the controller can call this method."))
        }
    }

    /// Whether `caller` may do what a custodian may do: it is a controller or
    /// a custodian, or the wallet itself.
    pub fn is_custodian_or_controller(&self, caller: &Identity, own_id: &Identity) -> (r: Result<
        (),
        String,
    >)
        ensures
            match r {
                Ok(_) => self@.is_custodian(*caller) || *own_id == *caller,
                Err(message) => !(self@.is_custodian(*caller) || *own_id == *caller) && message@
                    == only_custodian_message(),
            },
    {
        if self.address_book.is_controller_or_custodian(caller) || *own_id == *caller {
            Ok(())
        } else {
            Err(String::from_str("Only a controller or custodian can call this method."))
        }
    }
}

/// The identities of entries, in their order.
pub fn ids_of(entries: &Vec<AddressEntry>) -> (r: Vec<Identity>)
    ensures
        r@ == Seq::new(entries@.len(), |i: int| entries@[i].id),
{
    let mut out: Vec<Identity> = Vec::new();
    let mut i: usize = 0;
    while i < entries.len()
        invariant
            i <= entries@.len(),
            out@.len() == i,
            forall|k: int| 0 <= k < i ==> #[trigger] out@[k] == entries@[k].id,
        decreases entries@.len() - i,
    {
        out.push(entries[i].id);
        i += 1;
    }
    out
}

/// Removing an entry lowers the number of controllers by one if the entry
/// that `find_spec` finds is a controller, and leaves it else.
pub proof fn lemma_remove_count(entries: Seq<AddressEntry>, id: Identity)
    ensures
        controllers_of(remove_spec(entries, id)).len() == controllers_of(entries).len() - (
        match find_spec(entries, id) {
            Some(e) => controller_weight(e),
            None => 0,
        }),
{
    lemma_position_from(entries, id, 0);
    if let Some(i) = position(entries, id) {
        lemma_controllers_remove(entries, i);
    }
}

/// An insert never lowers the number of controllers, and raises it by at most one.
pub proof fn lemma_insert_count(entries: Seq<AddressEntry>, entry: AddressEntry)
    ensures
        controllers_of(entries).len() <= controllers_of(insert_spec(entries, entry)).len()
            <= controllers_of(entries).len() + controller_weight(entry),
{
    lemma_position_from(entries, entry.id, 0);
    match position(entries, entry.id) {
        Some(i) => {
            lemma_controllers_update(entries, i, merged(entries[i], entry));
        },
        None => {
            lemma_lower_bound_from(entries, entry.id, 0);
            lemma_controllers_insert(entries, lower_bound_from(entries, entry.id, 0), entry);
        },
    }
}

/// Taking the role of a controller away from one that has it lowers the
/// number of controllers by exactly one.
pub proof fn lemma_demote_count(entries: Seq<AddressEntry>, id: Identity)
    requires
        find_spec(entries, id) matches Some(e) && e.role == Role::Controller,
    ensures
        controllers_of(demote_spec(entries, id)).len() == controllers_of(entries).len() - 1,
{
    let entry = find_spec(entries, id)->0;
    lemma_remove_count(entries, id);
    lemma_insert_count(remove_spec(entries, id), demoted(entry));
}

/// No removal of a role leaves the wallet without a controller: from a state
/// with a controller, removing a controller's role, removing an address and
/// taking a custodian's role away each end in a state with a controller; and
/// each of them is refused for the only controller.
pub proof fn lemma_controller_floor(state: WalletView, id: Identity, moment: Moment)
    requires
        state.controller_count() >= 1,
    ensures
        state.is_controller(id) && state.controller_count() > 1 ==> state.with_book(
            demote_spec(state.address_book, id),
        ).ticked(moment).controller_count() >= 1,
        state.may_remove(id) ==> state.removed(id, moment).controller_count() >= 1,
        state.is_controller(id) && state.controller_count() == 1 ==> !state.may_remove(id),
{
    if state.is_controller(id) && state.controller_count() > 1 {
        lemma_demote_count(state.address_book, id);
    }
    lemma_remove_count(state.address_book, id);
}

} // verus!
