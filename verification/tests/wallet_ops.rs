use wallet::address::{AddressEntry, Role};
use wallet::chart::{get_chart, ChartTick};
use wallet::cycles::{
    acceptable, creation_settings, forward_allowed, names_controller, normalize_canister_settings,
    settings_plan, step_failed, without_controllers, CallFailure, CanisterSettings,
    ReceiveOptions, SettingsStep,
};
use wallet::events::{EventKind, ManagedCanisterEventKind};
use wallet::identity::Identity;
use wallet::queries::{
    narrow_kind, narrow_target_kind, GetChartArgs, GetEventsArgs, GetManagedCanisterEventArgs,
    ListCanistersArgs,
};
use wallet::storage::StableStorage;
use wallet::text::{call_error, decimal, send_error};
use wallet::wallet::{Moment, Wallet};

fn id(bytes: &[u8]) -> Identity {
    Identity::from_slice(bytes).unwrap()
}

fn at(time: u64) -> Moment {
    Moment { time, balance: 1000 + time }
}

fn wallet_of(controller: Identity) -> Wallet {
    let mut w = Wallet::default();
    w.init(controller, at(1));
    w
}

fn book(w: &Wallet) -> Vec<(Identity, Option<String>, Role)> {
    w.list_addresses().into_iter().map(|e| (e.id, e.name, e.role)).collect()
}

#[test]
fn init_makes_the_caller_a_controller() {
    let a = id(&[1]);
    let w = wallet_of(a);
    assert_eq!(w.get_controllers(), vec![a]);
    assert_eq!(w.get_custodians(), Vec::<Identity>::new());
    assert_eq!(book(&w), vec![(a, None, Role::Controller)]);
    let events = w.get_events128(None);
    assert_eq!(events.len(), 1);
    assert_eq!(events[0].id, 0);
    assert_eq!(events[0].timestamp, 1);
    assert!(matches!(
        events[0].kind,
        EventKind::AddressAdded { id: x, name: None, role: Role::Controller } if x == a
    ));
    assert_eq!(w.chart, vec![ChartTick { timestamp: 1, cycles: 1001 }]);
}

#[test]
fn the_sole_controller_cannot_be_removed() {
    let a = id(&[1]);
    let mut w = wallet_of(a);
    w.authorize(id(&[2]), at(2));
    let before_book = book(&w);
    let before_events = w.events.events.len();
    let before_chart = w.chart.clone();

    assert_eq!(
        w.remove_controller(a, at(3)),
        Err("The wallet must have at least one controller.".to_string())
    );
    assert_eq!(
        w.remove_address(a, at(3)),
        Err("The wallet must have at least one controller.".to_string())
    );
    assert_eq!(
        w.deauthorize(a, at(3)),
        Err("The wallet must have at least one controller.".to_string())
    );
    assert_eq!(book(&w), before_book);
    assert_eq!(w.events.events.len(), before_events);
    assert_eq!(w.chart, before_chart);
    assert_eq!(w.get_controllers(), vec![a]);
}

#[test]
fn one_of_two_controllers_can_be_removed_but_not_the_last() {
    let a = id(&[1]);
    let b = id(&[2]);
    let mut w = wallet_of(a);
    w.add_controller(b, at(2));
    assert_eq!(w.get_controllers(), vec![a, b]);
    let events_before = w.events.events.len();
    assert_eq!(w.remove_controller(a, at(3)), Ok(()));
    assert_eq!(w.get_controllers(), vec![b]);
    assert_eq!(book(&w), vec![(a, None, Role::Contact), (b, None, Role::Controller)]);
    assert_eq!(w.events.events.len(), events_before);
    assert_eq!(w.chart.last(), Some(&ChartTick { timestamp: 3, cycles: 1003 }));
    assert_eq!(
        w.remove_controller(b, at(4)),
        Err("The wallet must have at least one controller.".to_string())
    );
    assert_eq!(w.get_controllers(), vec![b]);
}

#[test]
fn removing_a_controller_that_is_none() {
    let a = id(&[1]);
    let mut w = wallet_of(a);
    assert_eq!(
        w.remove_controller(Identity::anonymous(), at(2)),
        Err("Cannot remove 2vxsx-fae because it is not a controller.".to_string())
    );
    w.authorize(Identity::anonymous(), at(2));
    assert_eq!(
        w.remove_controller(Identity::anonymous(), at(3)),
        Err("Cannot remove 2vxsx-fae because it is not a controller.".to_string())
    );
    assert_eq!(w.get_custodians(), vec![Identity::anonymous()]);
}

#[test]
fn addresses_are_added_and_removed_with_an_event_each() {
    let a = id(&[1]);
    let c = id(&[3]);
    let mut w = wallet_of(a);
    w.add_address(AddressEntry::new(c, Some("carol".to_string()), Role::Contact), at(5));
    assert_eq!(
        book(&w),
        vec![(a, None, Role::Controller), (c, Some("carol".to_string()), Role::Contact)]
    );
    assert_eq!(w.events.events.len(), 2);
    assert!(matches!(
        w.events.events[1].kind,
        EventKind::AddressAdded { id: x, ref name, role: Role::Contact }
            if x == c && name.as_deref() == Some("carol")
    ));
    assert_eq!(w.events.events[1].id, 1);
    assert_eq!(w.events.events[1].timestamp, 5);
    assert_eq!(w.remove_address(c, at(6)), Ok(()));
    assert_eq!(book(&w), vec![(a, None, Role::Controller)]);
    assert_eq!(w.events.events.len(), 3);
    assert!(matches!(w.events.events[2].kind, EventKind::AddressRemoved { id: x } if x == c));
    assert_eq!(w.remove_address(id(&[9]), at(7)), Ok(()));
    assert_eq!(w.events.events.len(), 4);
    assert_eq!(w.chart.len(), 4);
    assert_eq!(w.managed.len(), 0);
}

#[test]
fn custodians_are_authorized_and_deauthorized() {
    let a = id(&[1]);
    let c = id(&[3]);
    let mut w = wallet_of(a);
    w.authorize(c, at(2));
    assert_eq!(w.get_custodians(), vec![c]);
    assert_eq!(w.chart.len(), 3);
    w.authorize(a, at(3));
    assert_eq!(w.get_controllers(), vec![a]);
    assert_eq!(w.deauthorize(c, at(4)), Ok(()));
    assert_eq!(w.get_custodians(), Vec::<Identity>::new());
    assert_eq!(w.chart.len(), 7);
    assert_eq!(
        w.deauthorize(Identity::anonymous(), at(5)),
        Err("Cannot deauthorize 2vxsx-fae as it is not a custodian.".to_string())
    );
    w.add_address(AddressEntry::new(c, None, Role::Contact), at(6));
    let text = candid::Principal::from_slice(&[3]).to_text();
    assert_eq!(
        w.deauthorize(c, at(7)),
        Err(format!("Cannot deauthorize {} as it is not a custodian.", text))
    );
}

#[test]
fn a_second_controller_can_be_deauthorized() {
    let a = id(&[1]);
    let b = id(&[2]);
    let mut w = wallet_of(a);
    w.add_controller(b, at(2));
    assert_eq!(w.deauthorize(b, at(3)), Ok(()));
    assert_eq!(w.get_controllers(), vec![a]);
    assert_eq!(book(&w), vec![(a, None, Role::Controller)]);
}

#[test]
fn guards() {
    let a = id(&[1]);
    let c = id(&[3]);
    let own = id(&[8]);
    let mut w = wallet_of(a);
    w.authorize(c, at(2));
    assert_eq!(w.is_controller(&a), Ok(()));
    assert_eq!(w.is_controller(&c), Err("Only the controller can call this method.".to_string()));
    assert_eq!(w.is_custodian_or_controller(&a, &own), Ok(()));
    assert_eq!(w.is_custodian_or_controller(&c, &own), Ok(()));
    assert_eq!(w.is_custodian_or_controller(&own, &own), Ok(()));
    assert_eq!(
        w.is_custodian_or_controller(&id(&[9]), &own),
        Err("Only a controller or custodian can call this method.".to_string())
    );
}

#[test]
fn name_and_module() {
    let mut w = wallet_of(id(&[1]));
    assert_eq!(w.name(), None);
    w.set_name("mine".to_string(), at(2));
    assert_eq!(w.name(), Some("mine".to_string()));
    assert_eq!(w.wallet_wasm(), None);
    w.store_wallet_wasm(vec![1, 2, 3], at(3));
    assert_eq!(w.wallet_wasm(), Some(vec![1, 2, 3]));
    assert_eq!(w.chart.len(), 3);
}

#[test]
fn numbers_in_decimal() {
    assert_eq!(decimal(0), "0");
    assert_eq!(decimal(7), "7");
    assert_eq!(decimal(10), "10");
    assert_eq!(decimal(1234567890), "1234567890");
    assert_eq!(decimal(u128::MAX), "340282366920938463463374607431768211455");
}

#[test]
fn messages_of_failed_calls() {
    assert_eq!(call_error(4, "no route"), "An error happened during the call: 4: no route");
    assert_eq!(
        send_error(100, 10, 5, "trapped"),
        "Cycles sent: 100\nCycles refunded: 10\nAn error happened during the call: 5: trapped"
    );
    assert_eq!(
        step_failed(&CallFailure { code: 3, message: "m".to_string() }),
        "An error happened during the call: 3: m"
    );
}

#[test]
fn cycles_sent_are_recorded_whatever_the_outcome() {
    let t = id(&[7]);
    let mut w = wallet_of(id(&[1]));
    assert_eq!(w.send128(t, 100, 10, Ok(()), at(2)), Ok(()));
    assert_eq!(w.chart.len(), 2);
    let failed = w.send(t, 50, 50, Err(CallFailure { code: 5, message: "trapped".to_string() }), at(3));
    assert_eq!(
        failed,
        Err("Cycles sent: 50\nCycles refunded: 50\nAn error happened during the call: 5: trapped"
            .to_string())
    );
    assert_eq!(w.chart.len(), 2);
    assert_eq!(w.events.events.len(), 3);
    assert!(matches!(
        w.events.events[2].kind,
        EventKind::CyclesSent { to, amount: 50, refund: 50 } if to == t
    ));
    let events = w
        .get_managed_canister_events128(GetManagedCanisterEventArgs { canister: t, from: None, to: None })
        .unwrap();
    assert_eq!(events.len(), 2);
    assert_eq!(events[0].kind, ManagedCanisterEventKind::CyclesSent { amount: 100, refund: 10 });
    assert_eq!(events[0].timestamp, 2);
    assert_eq!(events[1].kind, ManagedCanisterEventKind::CyclesSent { amount: 50, refund: 50 });
    assert_eq!(events[1].id, 1);
}

#[test]
fn cycles_received_are_recorded() {
    let from = id(&[7]);
    let mut w = wallet_of(id(&[1]));
    assert_eq!(acceptable(0), None);
    assert_eq!(acceptable(12), Some(12));
    w.receive(from, 12, Some(ReceiveOptions { memo: Some("thanks".to_string()) }), at(2));
    w.receive(from, 13, None, at(3));
    assert!(matches!(
        w.events.events[1].kind,
        EventKind::CyclesReceived { from: f, amount: 12, ref memo }
            if f == from && memo.as_deref() == Some("thanks")
    ));
    assert!(matches!(
        w.events.events[2].kind,
        EventKind::CyclesReceived { from: f, amount: 13, memo: None } if f == from
    ));
    assert_eq!(w.managed.len(), 0);
    assert_eq!(w.chart.len(), 3);
}

#[test]
fn created_and_called_canisters_are_recorded() {
    let t = id(&[7]);
    let mut w = wallet_of(id(&[1]));
    assert_eq!(w.create_canister128(500, Ok(t), at(2)), Ok(t));
    assert_eq!(
        w.create_canister(500, Err(CallFailure { code: 2, message: "full".to_string() }), at(3)),
        Err("An error happened during the call: 2: full".to_string())
    );
    assert_eq!(w.events.events.len(), 2);
    assert_eq!(w.call128(t, "greet".to_string(), 7, Ok(vec![1, 2]), at(4)), Ok(vec![1, 2]));
    assert_eq!(
        w.call(t, "greet".to_string(), 7, Err(CallFailure { code: 4, message: "no".to_string() }), at(5)),
        Err("An error happened during the call: 4: no".to_string())
    );
    assert_eq!(w.install_wallet(t, Ok(()), 6), Ok(()));
    assert_eq!(
        w.install_wallet(t, Err(CallFailure { code: 1, message: "x".to_string() }), 7),
        Err("An error happened during the call: 1: x".to_string())
    );
    w.create_wallet128(at(8));
    assert_eq!(w.events.events.len(), 4);
    assert!(matches!(
        w.events.events[3].kind,
        EventKind::WalletDeployed { canister } if canister == t
    ));
    let (infos, total) = w.list_managed_canisters(ListCanistersArgs { from: None, to: None });
    assert_eq!(total, 1);
    assert_eq!(infos[0].id, t);
    assert_eq!(infos[0].created_at, 2);
    let events = w
        .get_managed_canister_events128(GetManagedCanisterEventArgs { canister: t, from: None, to: None })
        .unwrap();
    assert_eq!(events.len(), 2);
    assert_eq!(events[0].kind, ManagedCanisterEventKind::Created { cycles: 500 });
    assert_eq!(
        events[1].kind,
        ManagedCanisterEventKind::Called { method_name: "greet".to_string(), cycles: 7 }
    );
    assert_eq!(w.chart.len(), 4);
    let renamed = w.set_short_name(t, Some("t".to_string())).unwrap();
    assert_eq!(renamed.name, Some("t".to_string()));
    assert_eq!(w.set_short_name(id(&[9]), None), None);
}

#[test]
fn the_wallet_forwards_no_call_for_itself() {
    let own = id(&[8]);
    assert_eq!(forward_allowed(&own, &id(&[1])), Ok(()));
    assert_eq!(
        forward_allowed(&own, &own),
        Err("Attempted to call forward on self. This is not allowed. Call this method via a different custodian."
            .to_string())
    );
}

fn controllers_of(r: Result<CanisterSettings, String>) -> Result<(Option<Identity>, Option<Vec<Identity>>), String> {
    r.map(|s| (s.controller, s.controllers))
}

#[test]
fn settings_are_normalized() {
    let a = id(&[1]);
    let b = id(&[2]);
    assert_eq!(
        controllers_of(normalize_canister_settings(CanisterSettings {
            controller: Some(a),
            controllers: Some(vec![b]),
        })),
        Err("CanisterSettings cannot have both controller and controllers set.".to_string())
    );
    assert_eq!(
        controllers_of(normalize_canister_settings(CanisterSettings {
            controller: Some(a),
            controllers: None,
        })),
        Ok((None, Some(vec![a])))
    );
    assert_eq!(
        controllers_of(normalize_canister_settings(CanisterSettings {
            controller: None,
            controllers: Some(vec![a, b]),
        })),
        Ok((None, Some(vec![a, b])))
    );
    assert_eq!(
        controllers_of(normalize_canister_settings(CanisterSettings {
            controller: None,
            controllers: None,
        })),
        Ok((None, None))
    );
}

#[test]
fn a_canister_is_created_with_controllers() {
    let caller = id(&[1]);
    let own = id(&[8]);
    let b = id(&[2]);
    assert_eq!(
        controllers_of(creation_settings(without_controllers(), caller, own)),
        Ok((None, Some(vec![caller, own])))
    );
    assert_eq!(
        controllers_of(creation_settings(
            CanisterSettings { controller: None, controllers: Some(vec![]) },
            caller,
            own
        )),
        Ok((None, Some(vec![caller, own])))
    );
    assert_eq!(
        controllers_of(creation_settings(
            CanisterSettings { controller: Some(b), controllers: None },
            caller,
            own
        )),
        Ok((None, Some(vec![b])))
    );
    assert_eq!(
        controllers_of(creation_settings(
            CanisterSettings { controller: Some(b), controllers: Some(vec![b]) },
            caller,
            own
        )),
        Err("CanisterSettings cannot have both controller and controllers set.".to_string())
    );
    assert!(!names_controller(&without_controllers()));
    assert!(names_controller(&CanisterSettings { controller: Some(b), controllers: None }));
    assert!(names_controller(&CanisterSettings { controller: None, controllers: Some(vec![]) }));
}

#[test]
fn settings_are_brought_about_step_by_step() {
    let own = id(&[8]);
    let a = id(&[1]);
    let b = id(&[2]);
    let settings = CanisterSettings { controller: None, controllers: Some(vec![a, b]) };
    let plan = settings_plan(&settings, own, true);
    assert_eq!(plan.len(), 4);
    assert!(matches!(plan[0], SettingsStep::AddController(x) if x == a));
    assert!(matches!(plan[1], SettingsStep::AddController(x) if x == b));
    assert!(matches!(plan[2], SettingsStep::RemoveController(x) if x == own));
    assert!(matches!(plan[3], SettingsStep::UpdateSettings));
    let plan = settings_plan(&settings, own, false);
    assert_eq!(plan.len(), 1);
    assert!(matches!(plan[0], SettingsStep::UpdateSettings));
    let plan = settings_plan(&without_controllers(), own, true);
    assert_eq!(plan.len(), 2);
    assert!(matches!(plan[0], SettingsStep::RemoveController(x) if x == own));
}

#[test]
fn events_are_narrowed_to_64_bits_where_they_fit() {
    let t = id(&[7]);
    let mut w = wallet_of(id(&[1]));
    w.send128(t, 100, 10, Ok(()), at(2)).unwrap();
    let narrow = w.get_events(None).unwrap();
    assert_eq!(narrow.len(), 2);
    assert_eq!(narrow[1].id, 1);
    assert_eq!(narrow[1].timestamp, 2);
    assert!(matches!(
        narrow[1].kind,
        wallet::migrations::v1::V1EventKind::CyclesSent { to, amount: 100, refund: 10 } if to == t
    ));
    let narrow_target = w
        .get_managed_canister_events(GetManagedCanisterEventArgs { canister: t, from: None, to: None })
        .unwrap()
        .unwrap();
    assert_eq!(narrow_target.len(), 1);
    assert!(matches!(
        narrow_target[0].kind,
        wallet::migrations::v1::V1ManagedCanisterEventKind::CyclesSent { amount: 100, refund: 10 }
    ));
    assert!(w
        .get_managed_canister_events(GetManagedCanisterEventArgs {
            canister: id(&[9]),
            from: None,
            to: None
        })
        .unwrap()
        .is_none());

    w.send128(t, u64::MAX as u128 + 1, 0, Ok(()), at(3)).unwrap();
    assert_eq!(
        w.get_events(None).map(|v| v.len()),
        Err("`CyclesSent` event exceeded a 64-bit `amount` cycle count; call `get_events128`"
            .to_string())
    );
    assert_eq!(w.get_events(Some(GetEventsArgs { from: Some(0), to: Some(2) })).unwrap().len(), 2);
    assert_eq!(
        w.get_managed_canister_events(GetManagedCanisterEventArgs { canister: t, from: None, to: None })
            .map(|v| v.map(|v| v.len())),
        Err("`CyclesSent` event exceeded a 64-bit `amount` cycle count; call `get_managed_canister_events128`"
            .to_string())
    );
}

#[test]
fn each_kind_says_which_amount_is_too_large() {
    let t = id(&[7]);
    let big = u64::MAX as u128 + 1;
    let said = |kind: EventKind| narrow_kind(&kind).err().unwrap();
    assert_eq!(
        said(EventKind::CanisterCalled { canister: t, method_name: "m".to_string(), cycles: big }),
        "`CanisterCalled` event exceeded a 64-bit cycle count; call `get_events128`"
    );
    assert_eq!(
        said(EventKind::CanisterCreated { canister: t, cycles: big }),
        "`CanisterCreated` event exceeded a 64-bit cycle count; call `get_events128`"
    );
    assert_eq!(
        said(EventKind::CyclesReceived { from: t, amount: big, memo: None }),
        "`CyclesReceived` event exceeded a 64-bit cycle count; call `get_events128`"
    );
    assert_eq!(
        said(EventKind::CyclesSent { to: t, amount: 1, refund: big }),
        "`CyclesSent` event exceeded a 64-bit `refund` cycle count; call `get_events128`"
    );
    assert_eq!(
        said(EventKind::CyclesSent { to: t, amount: big, refund: big }),
        "`CyclesSent` event exceeded a 64-bit `amount` cycle count; call `get_events128`"
    );
    assert!(narrow_kind(&EventKind::CanisterCreated { canister: t, cycles: u64::MAX as u128 }).is_ok());
}

#[test]
fn the_chart_thins_out_the_samples() {
    let ticks: Vec<ChartTick> =
        [10u64, 20, 25, 30, 45, 50].iter().map(|t| ChartTick { timestamp: *t, cycles: t * 2 }).collect();
    assert_eq!(get_chart(&ticks, None, Some(10)), vec![(50, 100), (30, 60), (10, 20)]);
    assert_eq!(get_chart(&ticks, None, Some(5)), vec![(50, 100), (30, 60), (20, 40), (10, 20)]);
    assert_eq!(get_chart(&ticks, None, Some(1)).len(), 6);
    assert_eq!(
        get_chart(&ticks, None, Some(0)),
        vec![(50, 100), (45, 90), (30, 60), (25, 50), (20, 40), (10, 20)]
    );
    assert_eq!(get_chart(&ticks, Some(1), Some(50)), vec![(50, 100)]);
    assert_eq!(get_chart(&ticks, Some(1), Some(51)).len(), 6);
    assert_eq!(get_chart(&ticks, Some(1), None).len(), 6);
    assert_eq!(get_chart(&[].to_vec(), None, None), vec![]);
    let late = vec![ChartTick { timestamp: u64::MAX, cycles: 1 }, ChartTick { timestamp: 5, cycles: 2 }];
    assert_eq!(get_chart(&late, None, Some(1)), vec![(5, 2)]);
}

#[test]
fn the_chart_is_cut_to_a_thousand_points_at_least() {
    let hour: u64 = 3_600_000_000;
    let ticks: Vec<ChartTick> =
        (0..1200u64).map(|n| ChartTick { timestamp: (n + 1) * 2 * hour, cycles: n }).collect();
    let chart = get_chart(&ticks, Some(5), None);
    assert_eq!(chart.len(), 1000);
    assert_eq!(chart[0], (2400 * hour, 1199));
    assert_eq!(chart[999], (402 * hour, 200));
    assert_eq!(get_chart(&ticks, Some(1100), None).len(), 1100);
    assert_eq!(get_chart(&ticks, None, None).len(), 1000);
    let mut w = wallet_of(id(&[1]));
    w.chart = ticks;
    assert_eq!(w.get_chart(None).len(), 1000);
    assert_eq!(w.get_chart(Some(GetChartArgs { count: Some(2000), precision: Some(2 * hour) })).len(), 600);
    assert_eq!(w.get_chart(Some(GetChartArgs { count: Some(2000), precision: Some(hour) })).len(), 1200);
}

#[test]
fn the_state_is_saved_and_restored() {
    let a = id(&[1]);
    let t = id(&[7]);
    let mut w = wallet_of(a);
    w.set_name("mine".to_string(), at(2));
    w.store_wallet_wasm(vec![9], at(3));
    w.send128(t, 100, 10, Ok(()), at(4)).unwrap();
    let (stored, version) = w.pre_upgrade();
    assert_eq!(version, Some(2));
    assert_eq!(w.list_addresses().len(), 0);
    assert_eq!(w.events.events.len(), 0);
    assert_eq!(w.managed.len(), 0);
    assert_eq!(w.name(), None);
    assert_eq!(w.chart.len(), 0);
    assert_eq!(w.wallet_wasm(), None);
    assert_eq!(stored.address_book.len(), 1);
    assert_eq!(stored.events.events.len(), 2);
    assert_eq!(stored.chart.len(), 4);

    let upgrader = id(&[5]);
    let mut fresh = Wallet::default();
    fresh.post_upgrade(upgrader, Some(stored), at(9));
    assert_eq!(fresh.get_controllers(), vec![a, upgrader]);
    assert_eq!(fresh.events.events.len(), 2);
    assert_eq!(fresh.name(), Some("mine".to_string()));
    assert_eq!(fresh.wallet_wasm(), Some(vec![9]));
    assert_eq!(fresh.chart.len(), 4);
    assert_eq!(fresh.managed.len(), 1);
    assert_eq!(fresh.managed.get(&t).unwrap().events.len(), 1);
}

#[test]
fn nothing_stored_leaves_a_fresh_wallet_with_its_controller() {
    let upgrader = id(&[5]);
    let mut fresh = Wallet::default();
    fresh.post_upgrade(upgrader, None, at(9));
    assert_eq!(fresh.get_controllers(), vec![upgrader]);
    assert_eq!(fresh.events.events.len(), 1);
    assert_eq!(fresh.chart, vec![ChartTick { timestamp: 9, cycles: 1009 }]);
}

#[test]
fn a_ledger_that_was_not_stored_is_made_from_the_events() {
    let t = id(&[7]);
    let mut w = wallet_of(id(&[1]));
    w.send128(t, 100, 10, Ok(()), at(4)).unwrap();
    let (stored, _) = w.pre_upgrade();
    let stored = StableStorage { managed: None, ..stored };
    let mut fresh = Wallet::default();
    fresh.restore(stored);
    let target = fresh.managed.get(&t).unwrap();
    assert_eq!(target.info.created_at, 4);
    assert_eq!(target.events.len(), 1);
    assert_eq!(target.events[0].kind, ManagedCanisterEventKind::CyclesSent { amount: 100, refund: 10 });
    assert_eq!(target.events[0].timestamp, 4);
}

#[test]
fn each_kind_of_target_event_says_which_amount_is_too_large() {
    let big = u64::MAX as u128 + 1;
    let said = |kind: ManagedCanisterEventKind| narrow_target_kind(&kind).err().unwrap();
    assert_eq!(
        said(ManagedCanisterEventKind::Called { method_name: "m".to_string(), cycles: big }),
        "`Called` event exceeded a 64-bit cycle count; call `get_managed_canister_events128`"
    );
    assert_eq!(
        said(ManagedCanisterEventKind::Created { cycles: big }),
        "`Created` event exceeded a 64-bit cycle count; call `get_managed_canister_events128`"
    );
    assert_eq!(
        said(ManagedCanisterEventKind::CyclesSent { amount: big, refund: 0 }),
        "`CyclesSent` event exceeded a 64-bit `amount` cycle count; call `get_managed_canister_events128`"
    );
    assert_eq!(
        said(ManagedCanisterEventKind::CyclesSent { amount: 0, refund: big }),
        "`CyclesSent` event exceeded a 64-bit `refund` cycle count; call `get_managed_canister_events128`"
    );
    assert!(narrow_target_kind(&ManagedCanisterEventKind::Created { cycles: u64::MAX as u128 }).is_ok());
}
