//! Moving cycles and managing other canisters: what the wallet decides before
//! it calls out, and what it records once a call has come back.
//!
//! The calls themselves are made by the wallet's host. An operation that has
//! to wait for a call is split in two: what is decided before the call, and
//! what is recorded after it, given the outcome.

use vstd::prelude::*;
use vstd::string::StringExecFns;
use crate::events::EventKind;
use crate::identity::Identity;
use crate::storage::bytes_view;
use crate::text::{call_error, call_error_spec, send_error, send_error_spec};
use crate::wallet::{Moment, Wallet};

verus! {

/// Why a call to another canister failed.
#[derive(Debug)]
pub struct CallFailure {
    /// The code of the rejection.
    pub code: u8,
    /// The message that came with it.
    pub message: String,
}

/// What may come with cycles that the wallet receives.
#[derive(Debug)]
pub struct ReceiveOptions {
    pub memo: Option<String>,
}

/// Who controls a canister, as its settings say it. Older callers name one
/// controller in `controller`, newer ones any number in `controllers`.
#[derive(Debug)]
pub struct CanisterSettings {
    pub controller: Option<Identity>,
    pub controllers: Option<Vec<Identity>>,
}

/// The controllers of settings, with the list as a sequence.
pub struct SettingsView {
    pub controller: Option<Identity>,
    pub controllers: Option<Seq<Identity>>,
}

impl View for CanisterSettings {
    type V = SettingsView;

    open spec fn view(&self) -> SettingsView {
        SettingsView {
            controller: self.controller,
            controllers: match self.controllers {
                Some(list) => Some(list@),
                None => None,
            },
        }
    }
}

/// One call that changes who controls a canister.
#[derive(Clone, Copy, Debug)]
pub enum SettingsStep {
    /// Ask the canister to add a controller.
    AddController(Identity),
    /// Ask the canister to remove a controller.
    RemoveController(Identity),
    /// Ask the management canister to update the settings.
    UpdateSettings,
}

pub open spec fn both_controllers_message() -> Seq<char> {
    "CanisterSettings cannot have both controller and controllers set."@
}

pub open spec fn forward_on_self_message() -> Seq<char> {
    "Attempted to call forward on self. This is not allowed. Call this method via a different custodian."@
}

/// Settings with the controller or controllers in `controllers` only; there
/// are no such settings where both fields are set.
pub open spec fn normalize_spec(settings: SettingsView) -> Result<SettingsView, Seq<char>> {
    match (settings.controller, settings.controllers) {
        (Some(_), Some(_)) => Err(both_controllers_message()),
        (Some(controller), None) => Ok(
            SettingsView { controller: None, controllers: Some(seq![controller]) },
        ),
        _ => Ok(settings),
    }
}

/// The settings with which a canister is created: normalized, and with the
/// caller and the wallet as controllers where none is named.
pub open spec fn creation_settings_spec(settings: SettingsView, caller: Identity, own_id: Identity) -> Result<
    SettingsView,
    Seq<char>,
> {
    match normalize_spec(settings) {
        Err(message) => Err(message),
        Ok(normal) => Ok(
            SettingsView {
                controller: normal.controller,
                controllers: match normal.controllers {
                    Some(list) => if list.len() == 0 {
                        Some(seq![caller, own_id])
                    } else {
                        Some(list)
                    },
                    None => Some(seq![caller, own_id]),
                },
            },
        ),
    }
}

/// The calls that bring the settings of a canister about, in their order:
/// where the canister keeps its own list of controllers, each controller is
/// first added there and the wallet removed; then the settings are updated.
pub open spec fn settings_plan_spec(settings: SettingsView, own_id: Identity, update_acl: bool) -> Seq<
    SettingsStep,
> {
    if update_acl {
        (match settings.controllers {
            Some(list) => Seq::new(list.len(), |i: int| SettingsStep::AddController(list[i])),
            None => Seq::empty(),
        }) + seq![SettingsStep::RemoveController(own_id), SettingsStep::UpdateSettings]
    } else {
        seq![SettingsStep::UpdateSettings]
    }
}

/// Makes it so the controller or controllers are stored only in the
/// `controllers` field. Fails if both fields are set.
pub fn normalize_canister_settings(settings: CanisterSettings) -> (r: Result<
    CanisterSettings,
    String,
>)
    ensures
        match normalize_spec(settings@) {
            Ok(normal) => r matches Ok(s) && s@ == normal,
            Err(e) => r matches Err(message) && message@ == e,
        },
{
    let CanisterSettings { controller, controllers } = settings;
    match (controller, controllers) {
        (Some(_), Some(_)) => Err(
            String::from_str("CanisterSettings cannot have both controller and controllers set."),
        ),
        (Some(controller), None) => {
            let mut list: Vec<Identity> = Vec::new();
            list.push(controller);
            Ok(CanisterSettings { controller: None, controllers: Some(list) })
        },
        (None, controllers) => Ok(CanisterSettings { controller: None, controllers }),
    }
}

/// The settings with which a canister is created.
pub fn creation_settings(settings: CanisterSettings, caller: Identity, own_id: Identity) -> (r:
    Result<CanisterSettings, String>)
    ensures
        match creation_settings_spec(settings@, caller, own_id) {
            Ok(made) => r matches Ok(s) && s@ == made,
            Err(e) => r matches Err(message) && message@ == e,
        },
{
    match normalize_canister_settings(settings) {
        Err(message) => Err(message),
        Ok(normal) => {
            let CanisterSettings { controller, controllers } = normal;
            let mut list: Vec<Identity> = match controllers {
                Some(list) => list,
                None => Vec::new(),
            };
            if list.len() == 0 {
                list.push(caller);
                list.push(own_id);
                assert(list@ =~= seq![caller, own_id]);
            }
            Ok(CanisterSettings { controller, controllers: Some(list) })
        },
    }
}

/// The settings of a canister that is created as a wallet: no controller is
/// named until the wallet's code is installed.
pub fn without_controllers() -> (r: CanisterSettings)
    ensures
        r@ == (SettingsView { controller: None, controllers: None }),
{
    CanisterSettings { controller: None, controllers: None }
}

/// Whether settings name a controller, so that the controllers of a new
/// wallet have to be set.
pub fn names_controller(settings: &CanisterSettings) -> (r: bool)
    ensures
        r == (settings@.controller is Some || settings@.controllers is Some),
{
    settings.controller.is_some() || settings.controllers.is_some()
}

/// The calls that bring the settings of a canister about, in their order.
pub fn settings_plan(settings: &CanisterSettings, own_id: Identity, update_acl: bool) -> (r: Vec<
    SettingsStep,
>)
    ensures
        r@ == settings_plan_spec(settings@, own_id, update_acl),
{
    let mut plan: Vec<SettingsStep> = Vec::new();
    if update_acl {
        if let Some(list) = &settings.controllers {
            let mut i: usize = 0;
            while i < list.len()
                invariant
                    i <= list@.len(),
                    plan@ == Seq::new(i as nat, |k: int| SettingsStep::AddController(list@[k])),
                decreases list@.len() - i,
            {
                plan.push(SettingsStep::AddController(list[i]));
                i += 1;
            }
        }
        plan.push(SettingsStep::RemoveController(own_id));
    }
    plan.push(SettingsStep::UpdateSettings);
    plan
}

/// What is said of a failed step of a plan: what is said of the failed call.
pub fn step_failed(failure: &CallFailure) -> (r: String)
    ensures
        r@ == call_error_spec(failure.code, failure.message@),
{
    call_error(failure.code, failure.message.as_str())
}

/// How many of the cycles that come with a call the wallet accepts: all of
/// them, and none if none have come.
pub fn acceptable(available: u128) -> (r: Option<u128>)
    ensures
        r == (if available > 0 {
            Some(available)
        } else {
            None::<u128>
        }),
{
    if available > 0 {
        Some(available)
    } else {
        None
    }
}

/// Whether a call may be forwarded for `caller`: the wallet forwards no call
/// for itself.
pub fn forward_allowed(own_id: &Identity, caller: &Identity) -> (r: Result<(), String>)
    ensures
        match r {
            Ok(_) => *own_id != *caller,
            Err(message) => *own_id == *caller && message@ == forward_on_self_message(),
        },
{
    if *own_id == *caller {
        Err(
            String::from_str(
                "Attempted to call forward on self. This is not allowed. Call this method via a different custodian.",
            ),
        )
    } else {
        Ok(())
    }
}

/// The memo that comes with received cycles, if any.
pub open spec fn memo_of(options: Option<ReceiveOptions>) -> Option<String> {
    match options {
        Some(o) => o.memo,
        None => None,
    }
}

impl Wallet {
    /// Records that cycles were sent to `canister`, whether the call that
    /// carried them succeeded or not: `refund` is what came back. After a
    /// failed call the failure is reported with both amounts.
    pub fn send128(
        &mut self,
        canister: Identity,
        amount: u128,
        refund: u128,
        outcome: Result<(), CallFailure>,
        moment: Moment,
    ) -> (r: Result<(), String>)
        requires
            old(self)@.can_record(EventKind::CyclesSent { to: canister, amount, refund }),
        ensures
            match outcome {
                Ok(_) => r is Ok && final(self)@ == old(self)@.recorded(
                    EventKind::CyclesSent { to: canister, amount, refund },
                    moment.time,
                ).ticked(moment),
                Err(failure) => {
                    &&& r matches Err(message) && message@ == send_error_spec(
                        amount,
                        refund,
                        failure.code,
                        failure.message@,
                    )
                    &&& final(self)@ == old(self)@.recorded(
                        EventKind::CyclesSent { to: canister, amount, refund },
                        moment.time,
                    )
                },
            },
            old(self)@.wf() ==> final(self)@.wf(),
    {
        self.record(EventKind::CyclesSent { to: canister, amount, refund }, moment.time);
        match outcome {
            Ok(_) => {
                self.update_chart(moment);
                Ok(())
            },
            Err(failure) => Err(send_error(amount, refund, failure.code, failure.message.as_str())),
        }
    }

    /// Records that cycles, a 64-bit amount, were sent to `canister`.
    pub fn send(
        &mut self,
        canister: Identity,
        amount: u64,
        refund: u128,
        outcome: Result<(), CallFailure>,
        moment: Moment,
    ) -> (r: Result<(), String>)
        requires
            old(self)@.can_record(
                EventKind::CyclesSent { to: canister, amount: amount as u128, refund },
            ),
        ensures
            match outcome {
                Ok(_) => r is Ok && final(self)@ == old(self)@.recorded(
                    EventKind::CyclesSent { to: canister, amount: amount as u128, refund },
                    moment.time,
                ).ticked(moment),
                Err(failure) => {
                    &&& r matches Err(message) && message@ == send_error_spec(
                        amount as u128,
                        refund,
                        failure.code,
                        failure.message@,
                    )
                    &&& final(self)@ == old(self)@.recorded(
                        EventKind::CyclesSent { to: canister, amount: amount as u128, refund },
                        moment.time,
                    )
                },
            },
            old(self)@.wf() ==> final(self)@.wf(),
    {
        self.send128(canister, amount as u128, refund, outcome, moment)
    }

    /// Records that `accepted` cycles were received from `from`.
    pub fn receive(
        &mut self,
        from: Identity,
        accepted: u128,
        options: Option<ReceiveOptions>,
        moment: Moment,
    )
        requires
            old(self)@.can_record(
                EventKind::CyclesReceived { from, amount: accepted, memo: memo_of(options) },
            ),
        ensures
            final(self)@ == old(self)@.recorded(
                EventKind::CyclesReceived { from, amount: accepted, memo: memo_of(options) },
                moment.time,
            ).ticked(moment),
            old(self)@.wf() ==> final(self)@.wf(),
    {
        let memo = match options {
            Some(o) => o.memo,
            None => None,
        };
        self.record(EventKind::CyclesReceived { from, amount: accepted, memo }, moment.time);
        self.update_chart(moment);
    }

    /// Records that a canister was created with `cycles`, if it was: after a
    /// failed call nothing is recorded and the failure is reported.
    pub fn create_canister_call(
        &mut self,
        cycles: u128,
        outcome: Result<Identity, CallFailure>,
        time: u64,
    ) -> (r: Result<Identity, String>)
        requires
            outcome matches Ok(canister) ==> old(self)@.can_record(
                EventKind::CanisterCreated { canister, cycles },
            ),
        ensures
            match outcome {
                Ok(canister) => r == Ok::<Identity, String>(canister) && final(self)@ == old(
                    self,
                )@.recorded(EventKind::CanisterCreated { canister, cycles }, time),
                Err(failure) => {
                    &&& r matches Err(message) && message@ == call_error_spec(
                        failure.code,
                        failure.message@,
                    )
                    &&& final(self)@ == old(self)@
                },
            },
            old(self)@.wf() ==> final(self)@.wf(),
    {
        match outcome {
            Ok(canister) => {
                self.record(EventKind::CanisterCreated { canister, cycles }, time);
                Ok(canister)
            },
            Err(failure) => Err(call_error(failure.code, failure.message.as_str())),
        }
    }

    /// Records that a canister was created with `cycles`, if it was, and
    /// samples the balance.
    pub fn create_canister128(
        &mut self,
        cycles: u128,
        outcome: Result<Identity, CallFailure>,
        moment: Moment,
    ) -> (r: Result<Identity, String>)
        requires
            outcome matches Ok(canister) ==> old(self)@.can_record(
                EventKind::CanisterCreated { canister, cycles },
            ),
        ensures
            match outcome {
                Ok(canister) => r == Ok::<Identity, String>(canister) && final(self)@ == old(
                    self,
                )@.recorded(EventKind::CanisterCreated { canister, cycles }, moment.time).ticked(
                    moment,
                ),
                Err(failure) => {
                    &&& r matches Err(message) && message@ == call_error_spec(
                        failure.code,
                        failure.message@,
                    )
                    &&& final(self)@ == old(self)@
                },
            },
            old(self)@.wf() ==> final(self)@.wf(),
    {
        match self.create_canister_call(cycles, outcome, moment.time) {
            Ok(canister) => {
                self.update_chart(moment);
                Ok(canister)
            },
            Err(message) => Err(message),
        }
    }

    /// Records that a canister was created with `cycles`, a 64-bit amount.
    pub fn create_canister(
        &mut self,
        cycles: u64,
        outcome: Result<Identity, CallFailure>,
        moment: Moment,
    ) -> (r: Result<Identity, String>)
        requires
            outcome matches Ok(canister) ==> old(self)@.can_record(
                EventKind::CanisterCreated { canister, cycles: cycles as u128 },
            ),
        ensures
            match outcome {
                Ok(canister) => r == Ok::<Identity, String>(canister) && final(self)@ == old(
                    self,
                )@.recorded(
                    EventKind::CanisterCreated { canister, cycles: cycles as u128 },
                    moment.time,
                ).ticked(moment),
                Err(failure) => {
                    &&& r matches Err(message) && message@ == call_error_spec(
                        failure.code,
                        failure.message@,
                    )
                    &&& final(self)@ == old(self)@
                },
            },
            old(self)@.wf() ==> final(self)@.wf(),
    {
        self.create_canister128(cycles as u128, outcome, moment)
    }

    /// Records that the wallet's code was installed on `canister`, if it
    /// was: after a failed call nothing is recorded and the failure is reported.
    pub fn install_wallet(
        &mut self,
        canister: Identity,
        outcome: Result<(), CallFailure>,
        time: u64,
    ) -> (r: Result<(), String>)
        requires
            outcome is Ok ==> old(self)@.can_record(EventKind::WalletDeployed { canister }),
        ensures
            match outcome {
                Ok(_) => r is Ok && final(self)@ == old(self)@.recorded(
                    EventKind::WalletDeployed { canister },
                    time,
                ),
                Err(failure) => {
                    &&& r matches Err(message) && message@ == call_error_spec(
                        failure.code,
                        failure.message@,
                    )
                    &&& final(self)@ == old(self)@
                },
            },
            old(self)@.wf() ==> final(self)@.wf(),
    {
        match outcome {
            Ok(_) => {
                self.record(EventKind::WalletDeployed { canister }, time);
                Ok(())
            },
            Err(failure) => Err(call_error(failure.code, failure.message.as_str())),
        }
    }

    /// The code that a new wallet is made of, if any is stored.
    pub fn wallet_wasm(&self) -> (r: Option<Vec<u8>>)
        ensures
            bytes_view(r) == self@.wasm_module,
    {
        match &self.wasm_module {
            Some(bytes) => Some(bytes.clone()),
            None => None,
        }
    }

    /// Ends the creation of a wallet: samples the balance.
    pub fn create_wallet128(&mut self, moment: Moment)
        ensures
            final(self)@ == old(self)@.ticked(moment),
            old(self)@.wf() ==> final(self)@.wf(),
    {
        self.update_chart(moment);
    }

    /// Records that a call with `cycles` was forwarded to the method
    /// `method_name` of `canister`, if it was, and hands on what the call
    /// returned: after a failed call nothing is recorded and the failure is
    /// reported.
    pub fn call128(
        &mut self,
        canister: Identity,
        method_name: String,
        cycles: u128,
        outcome: Result<Vec<u8>, CallFailure>,
        moment: Moment,
    ) -> (r: Result<Vec<u8>, String>)
        requires
            outcome is Ok ==> old(self)@.can_record(
                EventKind::CanisterCalled { canister, method_name, cycles },
            ),
        ensures
            match outcome {
                Ok(returned) => r == Ok::<Vec<u8>, String>(returned) && final(self)@ == old(
                    self,
                )@.recorded(
                    EventKind::CanisterCalled { canister, method_name, cycles },
                    moment.time,
                ).ticked(moment),
                Err(failure) => {
                    &&& r matches Err(message) && message@ == call_error_spec(
                        failure.code,
                        failure.message@,
                    )
                    &&& final(self)@ == old(self)@
                },
            },
            old(self)@.wf() ==> final(self)@.wf(),
    {
        match outcome {
            Ok(returned) => {
                self.record(
                    EventKind::CanisterCalled { canister, method_name, cycles },
                    moment.time,
                );
                self.update_chart(moment);
                Ok(returned)
            },
            Err(failure) => Err(call_error(failure.code, failure.message.as_str())),
        }
    }

    /// Records that a call with `cycles`, a 64-bit amount, was forwarded.
    pub fn call(
        &mut self,
        canister: Identity,
        method_name: String,
        cycles: u64,
        outcome: Result<Vec<u8>, CallFailure>,
        moment: Moment,
    ) -> (r: Result<Vec<u8>, String>)
        requires
            outcome is Ok ==> old(self)@.can_record(
                EventKind::CanisterCalled { canister, method_name, cycles: cycles as u128 },
            ),
        ensures
            match outcome {
                Ok(returned) => r == Ok::<Vec<u8>, String>(returned) && final(self)@ == old(
                    self,
                )@.recorded(
                    EventKind::CanisterCalled { canister, method_name, cycles: cycles as u128 },
                    moment.time,
                ).ticked(moment),
                Err(failure) => {
                    &&& r matches Err(message) && message@ == call_error_spec(
                        failure.code,
                        failure.message@,
                    )
                    &&& final(self)@ == old(self)@
                },
            },
            old(self)@.wf() ==> final(self)@.wf(),
    {
        self.call128(canister, method_name, cycles as u128, outcome, moment)
    }
}

} // verus!
