//! The address book: which identity holds which role.
//!
//! The book keeps at most one entry per identity, stored in identity order.
//! Inserting an identity that is already present merges the two entries and
//! never lowers a role. The book itself does not protect the last controller:
//! that rule belongs to the operations built on it.

use vstd::prelude::*;
use vstd::std_specs::cmp::PartialEqSpecImpl;
use crate::identity::Identity;

verus! {

/// The role of an address. A controller may manage roles and rename the wallet,
/// a custodian may move cycles and forward calls, a contact is a name only.
#[derive(Clone, Copy, Debug, PartialEq, Eq, Structural, PartialOrd, Ord, Hash)]
pub enum Role {
    Contact,
    Custodian,
    Controller,
}

/// The kind of address, whether it's a user or canister, and whether it's known.
#[derive(Clone, Copy, Debug, PartialEq, Eq, Structural, PartialOrd, Ord, Hash)]
pub enum Kind {
    Unknown,
    User,
    Canister,
}

impl Role {
    /// The height of the role: `Contact` 0, `Custodian` 1, `Controller` 2.
    pub open spec fn spec_rank(self) -> int {
        match self {
            Role::Contact => 0,
            Role::Custodian => 1,
            Role::Controller => 2,
        }
    }

    /// The height of the role: `Contact` 0, `Custodian` 1, `Controller` 2.
    pub fn rank(&self) -> (r: u8)
        ensures
            r == self.spec_rank(),
    {
        match self {
            Role::Contact => 0,
            Role::Custodian => 1,
            Role::Controller => 2,
        }
    }

    /// The higher of two roles.
    pub open spec fn spec_max(self, other: Role) -> Role {
        if other.spec_rank() > self.spec_rank() {
            other
        } else {
            self
        }
    }
}

/// An entry in the address book. It must have an ID and a role.
#[derive(Debug, Eq)]
pub struct AddressEntry {
    /// The identity of the address.
    pub id: Identity,
    /// An optional name for this address.
    pub name: Option<String>,
    /// The kind of address (whether it is a known canister or user).
    pub kind: Kind,
    /// The role this address has on the wallet.
    pub role: Role,
}

/// A copy of an optional string.
pub fn clone_name(name: &Option<String>) -> (r: Option<String>)
    ensures
        r == *name,
{
    match name {
        Some(s) => Some(s.clone()),
        None => None,
    }
}

impl Clone for AddressEntry {
    fn clone(&self) -> (r: Self)
        ensures
            r == *self,
    {
        AddressEntry { id: self.id, name: clone_name(&self.name), kind: self.kind, role: self.role }
    }
}

impl PartialEq for AddressEntry {
    /// Two entries are the same entry when they name the same identity.
    fn eq(&self, other: &Self) -> (r: bool) {
        self.id == other.id
    }
}

impl PartialEqSpecImpl for AddressEntry {
    open spec fn obeys_eq_spec() -> bool {
        true
    }

    open spec fn eq_spec(&self, other: &Self) -> bool {
        self.id == other.id
    }
}

impl AddressEntry {
    /// A new entry of unknown kind.
    pub open spec fn new_spec(id: Identity, name: Option<String>, role: Role) -> AddressEntry {
        AddressEntry { id, name, role, kind: Kind::Unknown }
    }

    /// A new entry of unknown kind.
    pub fn new(id: Identity, name: Option<String>, role: Role) -> (e: AddressEntry)
        ensures
            e == AddressEntry::new_spec(id, name, role),
    {
        AddressEntry { id, name, role, kind: Kind::Unknown }
    }

    pub open spec fn spec_is_controller(&self) -> bool {
        self.role == Role::Controller
    }

    pub open spec fn spec_is_custodian(&self) -> bool {
        self.role == Role::Custodian
    }

    pub open spec fn spec_is_controller_or_custodian(&self) -> bool {
        self.role == Role::Controller || self.role == Role::Custodian
    }

    /// Whether the entry's role is `Controller`.
    #[verifier::when_used_as_spec(spec_is_controller)]
    pub fn is_controller(&self) -> (r: bool)
        ensures
            r == self.spec_is_controller(),
    {
        self.role == Role::Controller
    }

    /// Whether the entry's role is exactly `Custodian`.
    #[verifier::when_used_as_spec(spec_is_custodian)]
    pub fn is_custodian(&self) -> (r: bool)
        ensures
            r == self.spec_is_custodian(),
    {
        self.role == Role::Custodian
    }

    /// Whether the entry's role is `Controller` or `Custodian`.
    #[verifier::when_used_as_spec(spec_is_controller_or_custodian)]
    pub fn is_controller_or_custodian(&self) -> (r: bool)
        ensures
            r == self.spec_is_controller_or_custodian(),
    {
        self.role == Role::Controller || self.role == Role::Custodian
    }
}

/// What an existing entry becomes when `entry`, for the same identity, is inserted:
/// the new name if one is supplied, the higher of the two roles, and the new kind
/// if it is a known one.
pub open spec fn merged(existing: AddressEntry, entry: AddressEntry) -> AddressEntry {
    AddressEntry {
        id: existing.id,
        name: if entry.name is Some {
            entry.name
        } else {
            existing.name
        },
        kind: if entry.kind != Kind::Unknown {
            entry.kind
        } else {
            existing.kind
        },
        role: existing.role.spec_max(entry.role),
    }
}

/// The index of the first entry at or after `from` that names `id`.
pub open spec fn position_from(entries: Seq<AddressEntry>, id: Identity, from: int) -> Option<int>
    decreases entries.len() - from,
{
    if from < 0 || from >= entries.len() {
        None
    } else if entries[from].id == id {
        Some(from)
    } else {
        position_from(entries, id, from + 1)
    }
}

/// The index of the first entry that names `id`.
pub open spec fn position(entries: Seq<AddressEntry>, id: Identity) -> Option<int> {
    position_from(entries, id, 0)
}

/// The index of the first entry at or after `from` whose identity does not precede `id`.
pub open spec fn lower_bound_from(entries: Seq<AddressEntry>, id: Identity, from: int) -> int
    decreases entries.len() - from,
{
    if from < 0 || from >= entries.len() || !entries[from].id.precedes_spec(id) {
        from
    } else {
        lower_bound_from(entries, id, from + 1)
    }
}

/// The entry that names `id`, if there is one.
pub open spec fn find_spec(entries: Seq<AddressEntry>, id: Identity) -> Option<AddressEntry> {
    match position(entries, id) {
        Some(i) => Some(entries[i]),
        None => None,
    }
}

/// The entries after `entry` is inserted: merged into the entry of the same
/// identity if there is one, else placed where identity order puts it.
pub open spec fn insert_spec(entries: Seq<AddressEntry>, entry: AddressEntry) -> Seq<AddressEntry> {
    match position(entries, entry.id) {
        Some(i) => entries.update(i, merged(entries[i], entry)),
        None => entries.insert(lower_bound_from(entries, entry.id, 0), entry),
    }
}

/// The entries after the entry that names `id`, if any, is removed.
pub open spec fn remove_spec(entries: Seq<AddressEntry>, id: Identity) -> Seq<AddressEntry> {
    match position(entries, id) {
        Some(i) => entries.remove(i),
        None => entries,
    }
}

/// Entries in strictly increasing identity order; no identity occurs twice.
pub open spec fn sorted(entries: Seq<AddressEntry>) -> bool {
    forall|i: int, j: int|
        0 <= i < j < entries.len() ==> (#[trigger] entries[i]).id.precedes_spec(
            (#[trigger] entries[j]).id,
        )
}

/// The entries whose role is `Controller`, in order.
pub open spec fn controllers_of(entries: Seq<AddressEntry>) -> Seq<AddressEntry>
    decreases entries.len(),
{
    if entries.len() == 0 {
        entries
    } else if entries.last().role == Role::Controller {
        controllers_of(entries.drop_last()).push(entries.last())
    } else {
        controllers_of(entries.drop_last())
    }
}

/// The entries whose role is exactly `Custodian`, in order.
pub open spec fn custodians_of(entries: Seq<AddressEntry>) -> Seq<AddressEntry>
    decreases entries.len(),
{
    if entries.len() == 0 {
        entries
    } else if entries.last().role == Role::Custodian {
        custodians_of(entries.drop_last()).push(entries.last())
    } else {
        custodians_of(entries.drop_last())
    }
}

/// An entry that names `id` sits before every index that `position_from` skips.
pub proof fn lemma_position_from(entries: Seq<AddressEntry>, id: Identity, from: int)
    requires
        0 <= from <= entries.len(),
    ensures
        match position_from(entries, id, from) {
            Some(i) => from <= i < entries.len() && entries[i].id == id && forall|j: int|
                from <= j < i ==> entries[j].id != id,
            None => forall|j: int| from <= j < entries.len() ==> entries[j].id != id,
        },
    decreases entries.len() - from,
{
    if from < entries.len() && entries[from].id != id {
        lemma_position_from(entries, id, from + 1);
    }
}

/// In sorted entries, the entry at `i` is the one that `position` finds for its identity.
pub proof fn lemma_position_of_index(entries: Seq<AddressEntry>, i: int)
    requires
        sorted(entries),
        0 <= i < entries.len(),
    ensures
        position(entries, entries[i].id) == Some(i),
{
    lemma_position_from(entries, entries[i].id, 0);
    let p = position(entries, entries[i].id);
    if p != Some(i) {
        let k = p->0;
        Identity::lemma_precedes_asymmetric(entries[k].id, entries[i].id);
    }
}

/// Where `lower_bound_from` stops, everything before precedes `id` and the
/// entry there, if any, does not.
pub proof fn lemma_lower_bound_from(entries: Seq<AddressEntry>, id: Identity, from: int)
    requires
        0 <= from <= entries.len(),
    ensures
        from <= lower_bound_from(entries, id, from) <= entries.len(),
        forall|j: int|
            from <= j < lower_bound_from(entries, id, from) ==> entries[j].id.precedes_spec(id),
        lower_bound_from(entries, id, from) < entries.len() ==> !entries[lower_bound_from(
            entries,
            id,
            from,
        )].id.precedes_spec(id),
    decreases entries.len() - from,
{
    if from < entries.len() && entries[from].id.precedes_spec(id) {
        lemma_lower_bound_from(entries, id, from + 1);
    }
}

/// Inserting keeps the entries sorted.
pub proof fn lemma_insert_sorted(entries: Seq<AddressEntry>, entry: AddressEntry)
    requires
        sorted(entries),
    ensures
        sorted(insert_spec(entries, entry)),
{
    let id = entry.id;
    lemma_position_from(entries, id, 0);
    let after = insert_spec(entries, entry);
    if position(entries, id) is None {
        lemma_lower_bound_from(entries, id, 0);
        let p = lower_bound_from(entries, id, 0);
        assert forall|a: int, b: int| 0 <= a < b < after.len() implies (#[trigger] after[a]).id.precedes_spec(
            (#[trigger] after[b]).id,
        ) by {
            if a == p {
                Identity::lemma_precedes_total(id, entries[p].id);
                if b - 1 > p {
                    Identity::lemma_precedes_transitive(id, entries[p].id, entries[b - 1].id);
                }
            }
        }
    }
}

/// Removing keeps the entries sorted.
pub proof fn lemma_remove_sorted(entries: Seq<AddressEntry>, id: Identity)
    requires
        sorted(entries),
    ensures
        sorted(remove_spec(entries, id)),
{
    lemma_position_from(entries, id, 0);
}

/// The address book for this wallet.
#[derive(Debug)]
pub struct AddressBook(Vec<AddressEntry>);

impl Default for AddressBook {
    fn default() -> (book: AddressBook)
        ensures
            book@ == Seq::<AddressEntry>::empty(),
            book.wf(),
    {
        AddressBook(Vec::new())
    }
}

impl Clone for AddressBook {
    fn clone(&self) -> (book: AddressBook)
        ensures
            book@ == self@,
    {
        AddressBook(clone_entries(&self.0))
    }
}

/// A copy of a list of entries.
pub fn clone_entries(entries: &Vec<AddressEntry>) -> (copy: Vec<AddressEntry>)
    ensures
        copy@ == entries@,
{
    let mut copy: Vec<AddressEntry> = Vec::new();
    let mut i: usize = 0;
    while i < entries.len()
        invariant
            i <= entries.len(),
            copy@ == entries@.subrange(0, i as int),
        decreases entries.len() - i,
    {
        copy.push(entries[i].clone());
        i += 1;
    }
    copy
}

impl AddressBook {
    /// The entries of the book, in identity order.
    pub closed spec fn view(self) -> Seq<AddressEntry> {
        self.0@
    }

    /// The book holds one entry per identity, in identity order. Every book
    /// made by `default` and changed by the methods below is well formed.
    pub open spec fn wf(self) -> bool {
        sorted(self@)
    }

    /// The index of the entry that names `id`.
    fn index_of(&self, id: &Identity) -> (r: Option<usize>)
        ensures
            match r {
                Some(i) => position(self@, *id) == Some(i as int) && i < self@.len(),
                None => position(self@, *id) is None,
            },
    {
        let mut i: usize = 0;
        while i < self.0.len()
            invariant
                i <= self.0.len(),
                position_from(self.0@, *id, 0) == position_from(self.0@, *id, i as int),
            decreases self.0.len() - i,
        {
            if self.0[i].id == *id {
                return Some(i);
            }
            i += 1;
        }
        None
    }

    /// Adds an entry. If the identity is already in the book the two entries are
    /// merged: the name is replaced if a new one is given, the role is raised to
    /// the higher of the two and never lowered, the kind is replaced if the new
    /// one is known.
    pub fn insert(&mut self, entry: AddressEntry)
        ensures
            final(self)@ == insert_spec(old(self)@, entry),
            old(self).wf() ==> final(self).wf(),
    {
        proof {
            if sorted(self.0@) {
                lemma_insert_sorted(self.0@, entry);
            }
        }
        match self.index_of(&entry.id) {
            Some(i) => {
                let existing = self.0.remove(i);
                let AddressEntry { id: _, name, kind, role } = entry;
                let name = if name.is_some() {
                    name
                } else {
                    existing.name
                };
                let kind = if kind != Kind::Unknown {
                    kind
                } else {
                    existing.kind
                };
                let role = if role.rank() > existing.role.rank() {
                    role
                } else {
                    existing.role
                };
                let updated = AddressEntry { id: existing.id, name, kind, role };
                self.0.insert(i, updated);
            },
            None => {
                let mut p: usize = 0;
                while p < self.0.len() && self.0[p].id.precedes(&entry.id)
                    invariant
                        p <= self.0.len(),
                        lower_bound_from(self.0@, entry.id, 0) == lower_bound_from(
                            self.0@,
                            entry.id,
                            p as int,
                        ),
                    decreases self.0.len() - p,
                {
                    p += 1;
                }
                self.0.insert(p, entry);
            },
        }
    }

    /// The entry that names `id`, if there is one.
    pub fn find(&self, id: &Identity) -> (r: Option<&AddressEntry>)
        ensures
            match r {
                Some(e) => find_spec(self@, *id) == Some(*e),
                None => find_spec(self@, *id) is None,
            },
    {
        match self.index_of(id) {
            Some(i) => Some(&self.0[i]),
            None => None,
        }
    }

    /// Removes the entry that names `id`; does nothing if there is none.
    pub fn remove(&mut self, id: &Identity)
        ensures
            final(self)@ == remove_spec(old(self)@, *id),
            old(self).wf() ==> final(self).wf(),
    {
        match self.index_of(id) {
            Some(i) => {
                let _ = self.0.remove(i);
            },
            None => {},
        }
    }

    /// Removes and returns the entry that names `id`, if there is one.
    pub fn take(&mut self, id: &Identity) -> (r: Option<AddressEntry>)
        ensures
            r == find_spec(old(self)@, *id),
            final(self)@ == remove_spec(old(self)@, *id),
            old(self).wf() ==> final(self).wf(),
    {
        match self.index_of(id) {
            Some(i) => Some(self.0.remove(i)),
            None => None,
        }
    }

    /// Whether `id` may act as a custodian: its role is `Custodian` or `Controller`.
    pub fn is_custodian(&self, id: &Identity) -> (r: bool)
        ensures
            r == (find_spec(self@, *id) matches Some(e) && e.is_controller_or_custodian()),
    {
        match self.find(id) {
            Some(e) => e.is_controller_or_custodian(),
            None => false,
        }
    }

    /// Whether `id` is a controller.
    pub fn is_controller(&self, id: &Identity) -> (r: bool)
        ensures
            r == (find_spec(self@, *id) matches Some(e) && e.is_controller()),
    {
        match self.find(id) {
            Some(e) => e.is_controller(),
            None => false,
        }
    }

    /// Whether `id` is a controller or a custodian.
    pub fn is_controller_or_custodian(&self, id: &Identity) -> (r: bool)
        ensures
            r == (find_spec(self@, *id) matches Some(e) && e.is_controller_or_custodian()),
    {
        match self.find(id) {
            Some(e) => e.is_controller_or_custodian(),
            None => false,
        }
    }

    /// The entries whose role is exactly `Custodian`.
    pub fn custodians(&self) -> (r: Vec<AddressEntry>)
        ensures
            r@ == custodians_of(self@),
    {
        let mut out: Vec<AddressEntry> = Vec::new();
        let mut i: usize = 0;
        while i < self.0.len()
            invariant
                i <= self.0.len(),
                out@ == custodians_of(self.0@.subrange(0, i as int)),
            decreases self.0.len() - i,
        {
            assert(self.0@.subrange(0, i + 1).drop_last() =~= self.0@.subrange(0, i as int));
            if self.0[i].is_custodian() {
                out.push(self.0[i].clone());
            }
            i += 1;
        }
        assert(self.0@.subrange(0, self.0.len() as int) =~= self.0@);
        out
    }

    /// The entries whose role is `Controller`.
    pub fn controllers(&self) -> (r: Vec<AddressEntry>)
        ensures
            r@ == controllers_of(self@),
    {
        let mut out: Vec<AddressEntry> = Vec::new();
        let mut i: usize = 0;
        while i < self.0.len()
            invariant
                i <= self.0.len(),
                out@ == controllers_of(self.0@.subrange(0, i as int)),
            decreases self.0.len() - i,
        {
            assert(self.0@.subrange(0, i + 1).drop_last() =~= self.0@.subrange(0, i as int));
            if self.0[i].is_controller() {
                out.push(self.0[i].clone());
            }
            i += 1;
        }
        assert(self.0@.subrange(0, self.0.len() as int) =~= self.0@);
        out
    }

    /// How many controllers the book holds.
    pub fn controller_count(&self) -> (n: usize)
        ensures
            n == controllers_of(self@).len(),
    {
        let mut n: usize = 0;
        let mut i: usize = 0;
        while i < self.0.len()
            invariant
                i <= self.0.len(),
                n <= i,
                n == controllers_of(self.0@.subrange(0, i as int)).len(),
            decreases self.0.len() - i,
        {
            assert(self.0@.subrange(0, i + 1).drop_last() =~= self.0@.subrange(0, i as int));
            if self.0[i].is_controller() {
                n += 1;
            }
            i += 1;
        }
        assert(self.0@.subrange(0, self.0.len() as int) =~= self.0@);
        n
    }

    /// All entries, in identity order.
    pub fn iter(&self) -> (r: Vec<AddressEntry>)
        ensures
            r@ == self@,
    {
        clone_entries(&self.0)
    }
}

} // verus!
