//! What can be asked of a wallet: its events, its targets and their events,
//! and its chart. Events can be had with their amounts as they are recorded,
//! 128-bit numbers, or narrowed to the 64-bit numbers of the first layout.

use vstd::prelude::*;
use vstd::string::StringExecFns;
use crate::address::clone_name;
use crate::chart::{chart_spec, get_chart};
use crate::events::{
    get_events, get_managed_canister_events, get_managed_canisters, ledger_page, ledger_rename,
    set_short_name, Event, EventKind, ManagedCanisterEvent, ManagedCanisterEventKind,
    ManagedCanisterInfo,
};
use crate::identity::Identity;
use crate::migrations::v1::{
    V1Event, V1EventKind, V1ManagedCanisterEvent, V1ManagedCanisterEventKind,
};
use crate::ordered_map::key_index;
use crate::wallet::{Wallet, WalletView};

verus! {

/// Which events are asked for.
#[derive(Clone, Copy, Debug, PartialEq, Eq, Structural)]
pub struct GetEventsArgs {
    pub from: Option<u32>,
    pub to: Option<u32>,
}

/// Which targets are asked for.
#[derive(Clone, Copy, Debug, PartialEq, Eq, Structural)]
pub struct ListCanistersArgs {
    pub from: Option<u32>,
    pub to: Option<u32>,
}

/// Which events of which target are asked for.
#[derive(Clone, Copy, Debug)]
pub struct GetManagedCanisterEventArgs {
    pub canister: Identity,
    pub from: Option<u32>,
    pub to: Option<u32>,
}

/// How the chart is asked for.
#[derive(Clone, Copy, Debug, PartialEq, Eq, Structural)]
pub struct GetChartArgs {
    pub count: Option<u32>,
    pub precision: Option<u64>,
}

/// Whether an amount of cycles is a 64-bit number.
pub open spec fn fits(amount: u128) -> bool {
    amount <= u64::MAX
}

/// What is said when an amount of an event of the global log is no 64-bit number.
pub open spec fn unfit_event_message(kind: EventKind) -> Seq<char> {
    match kind {
        EventKind::CanisterCalled { .. } => {
            "`CanisterCalled` event exceeded a 64-bit cycle count; call `get_events128`"@
        },
        EventKind::CanisterCreated { .. } => {
            "`CanisterCreated` event exceeded a 64-bit cycle count; call `get_events128`"@
        },
        EventKind::CyclesReceived { .. } => {
            "`CyclesReceived` event exceeded a 64-bit cycle count; call `get_events128`"@
        },
        EventKind::CyclesSent { amount, .. } => if !fits(amount) {
            "`CyclesSent` event exceeded a 64-bit `amount` cycle count; call `get_events128`"@
        } else {
            "`CyclesSent` event exceeded a 64-bit `refund` cycle count; call `get_events128`"@
        },
        _ => Seq::empty(),
    }
}

/// A kind of event with its amounts as 64-bit numbers, if they are such.
pub open spec fn narrow_kind_spec(kind: EventKind) -> Result<V1EventKind, Seq<char>> {
    match kind {
        EventKind::AddressAdded { id, name, role } => Ok(
            V1EventKind::AddressAdded { id, name, role },
        ),
        EventKind::AddressRemoved { id } => Ok(V1EventKind::AddressRemoved { id }),
        EventKind::CanisterCalled { canister, cycles, method_name } => if fits(cycles) {
            Ok(V1EventKind::CanisterCalled { canister, cycles: cycles as u64, method_name })
        } else {
            Err(unfit_event_message(kind))
        },
        EventKind::CanisterCreated { canister, cycles } => if fits(cycles) {
            Ok(V1EventKind::CanisterCreated { canister, cycles: cycles as u64 })
        } else {
            Err(unfit_event_message(kind))
        },
        EventKind::CyclesReceived { amount, from, memo } => if fits(amount) {
            Ok(V1EventKind::CyclesReceived { amount: amount as u64, from, memo })
        } else {
            Err(unfit_event_message(kind))
        },
        EventKind::CyclesSent { amount, refund, to } => if fits(amount) && fits(refund) {
            Ok(V1EventKind::CyclesSent { amount: amount as u64, refund: refund as u64, to })
        } else {
            Err(unfit_event_message(kind))
        },
        EventKind::WalletDeployed { canister } => Ok(V1EventKind::WalletDeployed { canister }),
    }
}

/// The first `n` events with their amounts as 64-bit numbers, or what is said
/// of the first among them that has an amount that is none.
pub open spec fn narrow_events_spec(events: Seq<Event>, n: int) -> Result<Seq<V1Event>, Seq<char>>
    decreases n,
{
    if n <= 0 {
        Ok(Seq::empty())
    } else {
        match narrow_events_spec(events, n - 1) {
            Err(message) => Err(message),
            Ok(narrowed) => match narrow_kind_spec(events[n - 1].kind) {
                Ok(kind) => Ok(
                    narrowed.push(
                        V1Event { id: events[n - 1].id, timestamp: events[n - 1].timestamp, kind },
                    ),
                ),
                Err(message) => Err(message),
            },
        }
    }
}

/// What is said when an amount of an event of a target is no 64-bit number.
pub open spec fn unfit_target_event_message(kind: ManagedCanisterEventKind) -> Seq<char> {
    match kind {
        ManagedCanisterEventKind::Called { .. } => {
            "`Called` event exceeded a 64-bit cycle count; call `get_managed_canister_events128`"@
        },
        ManagedCanisterEventKind::Created { .. } => {
            "`Created` event exceeded a 64-bit cycle count; call `get_managed_canister_events128`"@
        },
        ManagedCanisterEventKind::CyclesSent { amount, .. } => if !fits(amount) {
            "`CyclesSent` event exceeded a 64-bit `amount` cycle count; call `get_managed_canister_events128`"@
        } else {
            "`CyclesSent` event exceeded a 64-bit `refund` cycle count; call `get_managed_canister_events128`"@
        },
    }
}

/// A kind of target event with its amounts as 64-bit numbers, if they are such.
pub open spec fn narrow_target_kind_spec(kind: ManagedCanisterEventKind) -> Result<
    V1ManagedCanisterEventKind,
    Seq<char>,
> {
    match kind {
        ManagedCanisterEventKind::Called { cycles, method_name } => if fits(cycles) {
            Ok(V1ManagedCanisterEventKind::Called { cycles: cycles as u64, method_name })
        } else {
            Err(unfit_target_event_message(kind))
        },
        ManagedCanisterEventKind::Created { cycles } => if fits(cycles) {
            Ok(V1ManagedCanisterEventKind::Created { cycles: cycles as u64 })
        } else {
            Err(unfit_target_event_message(kind))
        },
        ManagedCanisterEventKind::CyclesSent { amount, refund } => if fits(amount) && fits(
            refund,
        ) {
            Ok(
                V1ManagedCanisterEventKind::CyclesSent {
                    amount: amount as u64,
                    refund: refund as u64,
                },
            )
        } else {
            Err(unfit_target_event_message(kind))
        },
    }
}

/// The first `n` events of a target with their amounts as 64-bit numbers, or
/// what is said of the first among them that has an amount that is none.
pub open spec fn narrow_target_events_spec(events: Seq<ManagedCanisterEvent>, n: int) -> Result<
    Seq<V1ManagedCanisterEvent>,
    Seq<char>,
>
    decreases n,
{
    if n <= 0 {
        Ok(Seq::empty())
    } else {
        match narrow_target_events_spec(events, n - 1) {
            Err(message) => Err(message),
            Ok(narrowed) => match narrow_target_kind_spec(events[n - 1].kind) {
                Ok(kind) => Ok(
                    narrowed.push(
                        V1ManagedCanisterEvent {
                            id: events[n - 1].id,
                            timestamp: events[n - 1].timestamp,
                            kind,
                        },
                    ),
                ),
                Err(message) => Err(message),
            },
        }
    }
}

/// Whether a result of the library is the one that its specification names.
pub open spec fn names<T>(r: Result<T, String>, spec: Result<T, Seq<char>>) -> bool {
    match spec {
        Ok(v) => r == Ok::<T, String>(v),
        Err(e) => r matches Err(message) && message@ == e,
    }
}

/// A kind of event with its amounts as 64-bit numbers, if they are such.
pub fn narrow_kind(kind: &EventKind) -> (r: Result<V1EventKind, String>)
    ensures
        names(r, narrow_kind_spec(*kind)),
{
    match kind {
        EventKind::AddressAdded { id, name, role } => Ok(
            V1EventKind::AddressAdded { id: *id, name: clone_name(name), role: *role },
        ),
        EventKind::AddressRemoved { id } => Ok(V1EventKind::AddressRemoved { id: *id }),
        EventKind::CanisterCalled { canister, cycles, method_name } => {
            if *cycles <= 0xffff_ffff_ffff_ffff {
                Ok(
                    V1EventKind::CanisterCalled {
                        canister: *canister,
                        cycles: *cycles as u64,
                        method_name: method_name.clone(),
                    },
                )
            } else {
                Err(
                    String::from_str(
                        "`CanisterCalled` event exceeded a 64-bit cycle count; call `get_events128`",
                    ),
                )
            }
        },
        EventKind::CanisterCreated { canister, cycles } => {
            if *cycles <= 0xffff_ffff_ffff_ffff {
                Ok(V1EventKind::CanisterCreated { canister: *canister, cycles: *cycles as u64 })
            } else {
                Err(
                    String::from_str(
                        "`CanisterCreated` event exceeded a 64-bit cycle count; call `get_events128`",
                    ),
                )
            }
        },
        EventKind::CyclesReceived { amount, from, memo } => {
            if *amount <= 0xffff_ffff_ffff_ffff {
                Ok(
                    V1EventKind::CyclesReceived {
                        amount: *amount as u64,
                        from: *from,
                        memo: clone_name(memo),
                    },
                )
            } else {
                Err(
                    String::from_str(
                        "`CyclesReceived` event exceeded a 64-bit cycle count; call `get_events128`",
                    ),
                )
            }
        },
        EventKind::CyclesSent { amount, refund, to } => {
            if *amount > 0xffff_ffff_ffff_ffff {
                Err(
                    String::from_str(
                        "`CyclesSent` event exceeded a 64-bit `amount` cycle count; call `get_events128`",
                    ),
                )
            } else if *refund > 0xffff_ffff_ffff_ffff {
                Err(
                    String::from_str(
                        "`CyclesSent` event exceeded a 64-bit `refund` cycle count; call `get_events128`",
                    ),
                )
            } else {
                Ok(
                    V1EventKind::CyclesSent {
                        amount: *amount as u64,
                        refund: *refund as u64,
                        to: *to,
                    },
                )
            }
        },
        EventKind::WalletDeployed { canister } => Ok(
            V1EventKind::WalletDeployed { canister: *canister },
        ),
    }
}

/// A kind of target event with its amounts as 64-bit numbers, if they are such.
pub fn narrow_target_kind(kind: &ManagedCanisterEventKind) -> (r: Result<
    V1ManagedCanisterEventKind,
    String,
>)
    ensures
        names(r, narrow_target_kind_spec(*kind)),
{
    match kind {
        ManagedCanisterEventKind::Called { cycles, method_name } => {
            if *cycles <= 0xffff_ffff_ffff_ffff {
                Ok(
                    V1ManagedCanisterEventKind::Called {
                        cycles: *cycles as u64,
                        method_name: method_name.clone(),
                    },
                )
            } else {
                Err(
                    String::from_str(
                        "`Called` event exceeded a 64-bit cycle count; call `get_managed_canister_events128`",
                    ),
                )
            }
        },
        ManagedCanisterEventKind::Created { cycles } => {
            if *cycles <= 0xffff_ffff_ffff_ffff {
                Ok(V1ManagedCanisterEventKind::Created { cycles: *cycles as u64 })
            } else {
                Err(
                    String::from_str(
                        "`Created` event exceeded a 64-bit cycle count; call `get_managed_canister_events128`",
                    ),
                )
            }
        },
        ManagedCanisterEventKind::CyclesSent { amount, refund } => {
            if *amount > 0xffff_ffff_ffff_ffff {
                Err(
                    String::from_str(
                        "`CyclesSent` event exceeded a 64-bit `amount` cycle count; call `get_managed_canister_events128`",
                    ),
                )
            } else if *refund > 0xffff_ffff_ffff_ffff {
                Err(
                    String::from_str(
                        "`CyclesSent` event exceeded a 64-bit `refund` cycle count; call `get_managed_canister_events128`",
                    ),
                )
            } else {
                Ok(
                    V1ManagedCanisterEventKind::CyclesSent {
                        amount: *amount as u64,
                        refund: *refund as u64,
                    },
                )
            }
        },
    }
}

/// Events with their amounts as 64-bit numbers, or what is said of the
/// first event that has an amount that is none.
pub fn narrow_events(events: &Vec<Event>) -> (r: Result<Vec<V1Event>, String>)
    ensures
        match narrow_events_spec(events@, events@.len() as int) {
            Ok(narrowed) => r matches Ok(v) && v@ == narrowed,
            Err(e) => r matches Err(message) && message@ == e,
        },
{
    let mut out: Vec<V1Event> = Vec::new();
    let mut i: usize = 0;
    while i < events.len()
        invariant
            i <= events@.len(),
            narrow_events_spec(events@, i as int) == Ok::<Seq<V1Event>, Seq<char>>(out@),
        decreases events@.len() - i,
    {
        match narrow_kind(&events[i].kind) {
            Ok(kind) => {
                out.push(V1Event { id: events[i].id, timestamp: events[i].timestamp, kind });
            },
            Err(message) => {
                proof {
                    lemma_narrow_events_error(events@, i + 1, events@.len() as int);
                }
                return Err(message);
            },
        }
        i += 1;
    }
    Ok(out)
}

/// Once a beginning of the events cannot be narrowed, no longer one can, and
/// what is said stays the same.
pub proof fn lemma_narrow_events_error(events: Seq<Event>, n: int, m: int)
    requires
        0 <= n <= m,
        narrow_events_spec(events, n) is Err,
    ensures
        narrow_events_spec(events, m) == narrow_events_spec(events, n),
    decreases m - n,
{
    if n < m {
        lemma_narrow_events_error(events, n, m - 1);
    }
}

/// Events of a target with their amounts as 64-bit numbers, or what is said
/// of the first event that has an amount that is none.
pub fn narrow_target_events(events: &Vec<ManagedCanisterEvent>) -> (r: Result<
    Vec<V1ManagedCanisterEvent>,
    String,
>)
    ensures
        match narrow_target_events_spec(events@, events@.len() as int) {
            Ok(narrowed) => r matches Ok(v) && v@ == narrowed,
            Err(e) => r matches Err(message) && message@ == e,
        },
{
    let mut out: Vec<V1ManagedCanisterEvent> = Vec::new();
    let mut i: usize = 0;
    while i < events.len()
        invariant
            i <= events@.len(),
            narrow_target_events_spec(events@, i as int) == Ok::<
                Seq<V1ManagedCanisterEvent>,
                Seq<char>,
            >(out@),
        decreases events@.len() - i,
    {
        match narrow_target_kind(&events[i].kind) {
            Ok(kind) => {
                out.push(
                    V1ManagedCanisterEvent {
                        id: events[i].id,
                        timestamp: events[i].timestamp,
                        kind,
                    },
                );
            },
            Err(message) => {
                proof {
                    lemma_narrow_target_events_error(events@, i + 1, events@.len() as int);
                }
                return Err(message);
            },
        }
        i += 1;
    }
    Ok(out)
}

/// Once a beginning of the events of a target cannot be narrowed, no longer
/// one can, and what is said stays the same.
pub proof fn lemma_narrow_target_events_error(events: Seq<ManagedCanisterEvent>, n: int, m: int)
    requires
        0 <= n <= m,
        narrow_target_events_spec(events, n) is Err,
    ensures
        narrow_target_events_spec(events, m) == narrow_target_events_spec(events, n),
    decreases m - n,
{
    if n < m {
        lemma_narrow_target_events_error(events, n, m - 1);
    }
}

impl WalletView {
    /// The events that a read with these arguments returns.
    pub open spec fn read_events(self, args: Option<GetEventsArgs>) -> Seq<Event> {
        match args {
            Some(a) => self.events.read(a.from, a.to),
            None => self.events.read(None, None),
        }
    }
}

impl Wallet {
    /// The recent events of the wallet: those whose identifiers lie in the
    /// range asked for, by default the last 20.
    pub fn get_events128(&self, args: Option<GetEventsArgs>) -> (r: Vec<Event>)
        ensures
            r@ == self@.read_events(args),
    {
        if let Some(GetEventsArgs { from, to }) = args {
            get_events(&self.events, from, to)
        } else {
            get_events(&self.events, None, None)
        }
    }

    /// The recent events of the wallet with their amounts as 64-bit numbers.
    /// Fails if one of them has an amount that is no 64-bit number.
    pub fn get_events(&self, args: Option<GetEventsArgs>) -> (r: Result<Vec<V1Event>, String>)
        ensures
            match narrow_events_spec(
                self@.read_events(args),
                self@.read_events(args).len() as int,
            ) {
                Ok(narrowed) => r matches Ok(v) && v@ == narrowed,
                Err(e) => r matches Err(message) && message@ == e,
            },
    {
        let events = self.get_events128(args);
        narrow_events(&events)
    }

    /// Info about the targets in the range asked for, and the number of all targets.
    pub fn list_managed_canisters(&self, args: ListCanistersArgs) -> (r: (
        Vec<ManagedCanisterInfo>,
        u32,
    ))
        ensures
            r.0@ == ledger_page(
                self@.managed,
                match args.from {
                    Some(f) => f as int,
                    None => 0,
                },
                match args.to {
                    Some(t) => t as int,
                    None => u32::MAX as int,
                },
            ),
            r.1 == self@.managed.len() as u32,
    {
        get_managed_canisters(&self.managed, args.from, args.to)
    }

    /// The recent events of one target, `None` if the target is unknown.
    pub fn get_managed_canister_events128(&self, args: GetManagedCanisterEventArgs) -> (r: Option<
        Vec<ManagedCanisterEvent>,
    >)
        ensures
            match key_index(self@.managed, args.canister) {
                Some(i) => r matches Some(events) && events@ == self@.managed[i].1.read(
                    args.from,
                    args.to,
                ),
                None => r is None,
            },
    {
        get_managed_canister_events(&self.managed, &args.canister, args.from, args.to)
    }

    /// The recent events of one target with their amounts as 64-bit numbers,
    /// `None` if the target is unknown. Fails if one of the events has an
    /// amount that is no 64-bit number.
    pub fn get_managed_canister_events(&self, args: GetManagedCanisterEventArgs) -> (r: Result<
        Option<Vec<V1ManagedCanisterEvent>>,
        String,
    >)
        ensures
            match key_index(self@.managed, args.canister) {
                Some(i) => match narrow_target_events_spec(
                    self@.managed[i].1.read(args.from, args.to),
                    self@.managed[i].1.read(args.from, args.to).len() as int,
                ) {
                    Ok(narrowed) => r matches Ok(Some(v)) && v@ == narrowed,
                    Err(e) => r matches Err(message) && message@ == e,
                },
                None => r matches Ok(None),
            },
    {
        match self.get_managed_canister_events128(args) {
            Some(events) => match narrow_target_events(&events) {
                Ok(narrowed) => Ok(Some(narrowed)),
                Err(message) => Err(message),
            },
            None => Ok(None),
        }
    }

    /// Changes the recorded short name of a target. Returns the updated info,
    /// or `None` if the target isn't known.
    pub fn set_short_name(&mut self, canister: Identity, name: Option<String>) -> (r: Option<
        ManagedCanisterInfo,
    >)
        ensures
            final(self)@ == (WalletView {
                managed: ledger_rename(old(self)@.managed, canister, name),
                ..old(self)@
            }),
            match key_index(old(self)@.managed, canister) {
                Some(i) => r == Some(final(self)@.managed[i].1.info),
                None => r is None,
            },
            old(self)@.wf() ==> final(self)@.wf(),
    {
        set_short_name(&mut self.managed, &canister, name)
    }

    /// The chart of the balance: points of time and balance, newest first.
    pub fn get_chart(&self, args: Option<GetChartArgs>) -> (r: Vec<(u64, u64)>)
        ensures
            r@ == match args {
                Some(a) => chart_spec(self@.chart, a.count, a.precision),
                None => chart_spec(self@.chart, None, None),
            },
    {
        match args {
            Some(a) => get_chart(&self.chart, a.count, a.precision),
            None => get_chart(&self.chart, None, None),
        }
    }
}

} // verus!
