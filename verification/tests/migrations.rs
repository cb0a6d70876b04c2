use wallet::address::{AddressEntry, Role};
use wallet::chart::ChartTick;
use wallet::events::{EventKind, ManagedCanisterEventKind, ManagedList};
use wallet::identity::Identity;
use wallet::migrations::v1::{
    V1Event, V1EventBuffer, V1EventKind, V1ManagedCanister, V1ManagedCanisterEventKind,
    V1ManagedList, V1StableStorage,
};
use wallet::migrations::{
    _1_create_managed_canister_list, _2_convert_nat64_to_nat, layout_for, migrate_from, Layout,
    Persisted,
};
use wallet::storage::{StableStorage, STABLE_VERSION};
use wallet::upgrade::{current_snapshot, migrated_or_fresh};

fn id(bytes: &[u8]) -> Identity {
    Identity::from_slice(bytes).unwrap()
}

fn v1_events() -> Vec<V1Event> {
    let a = id(&[1]);
    let b = id(&[2]);
    let kinds = vec![
        V1EventKind::AddressAdded { id: a, name: Some("a".to_string()), role: Role::Controller },
        V1EventKind::CanisterCreated { canister: b, cycles: 500 },
        V1EventKind::CyclesSent { to: a, amount: u64::MAX, refund: 10 },
        V1EventKind::CyclesReceived { from: b, amount: 9, memo: Some("memo".to_string()) },
        V1EventKind::CanisterCalled { canister: b, method_name: "greet".to_string(), cycles: 7 },
        V1EventKind::WalletDeployed { canister: b },
        V1EventKind::AddressRemoved { id: a },
    ];
    kinds
        .into_iter()
        .enumerate()
        .map(|(i, kind)| V1Event { id: i as u32, timestamp: 100 + i as u64, kind })
        .collect()
}

fn v1_store(managed: Option<V1ManagedList>) -> V1StableStorage {
    V1StableStorage {
        address_book: vec![AddressEntry::new(id(&[1]), Some("a".to_string()), Role::Controller)],
        events: V1EventBuffer { events: v1_events() },
        name: Some("wallet".to_string()),
        chart: vec![ChartTick { timestamp: 1, cycles: 2 }],
        wasm_module: Some(vec![0, 97, 115, 109]),
        managed,
    }
}

fn check_converted(v2: &StableStorage) {
    assert_eq!(v2.address_book.len(), 1);
    assert_eq!(v2.address_book[0].id, id(&[1]));
    assert_eq!(v2.address_book[0].name, Some("a".to_string()));
    assert_eq!(v2.address_book[0].role, Role::Controller);
    assert_eq!(v2.name, Some("wallet".to_string()));
    assert_eq!(v2.chart, vec![ChartTick { timestamp: 1, cycles: 2 }]);
    assert_eq!(v2.wasm_module, Some(vec![0, 97, 115, 109]));
    assert_eq!(v2.events.culled, None);
    assert_eq!(v2.events.events.len(), 7);
    for (i, e) in v2.events.events.iter().enumerate() {
        assert_eq!(e.id, i as u32);
        assert_eq!(e.timestamp, 100 + i as u64);
    }
    assert!(matches!(
        v2.events.events[0].kind,
        EventKind::AddressAdded { id: a, ref name, role: Role::Controller }
            if a == id(&[1]) && name.as_deref() == Some("a")
    ));
    assert!(matches!(
        v2.events.events[1].kind,
        EventKind::CanisterCreated { canister, cycles: 500 } if canister == id(&[2])
    ));
    assert!(matches!(
        v2.events.events[2].kind,
        EventKind::CyclesSent { to, amount: 18446744073709551615, refund: 10 } if to == id(&[1])
    ));
    assert!(matches!(
        v2.events.events[3].kind,
        EventKind::CyclesReceived { from, amount: 9, ref memo }
            if from == id(&[2]) && memo.as_deref() == Some("memo")
    ));
    assert!(matches!(
        v2.events.events[4].kind,
        EventKind::CanisterCalled { canister, ref method_name, cycles: 7 }
            if canister == id(&[2]) && method_name == "greet"
    ));
    assert!(matches!(
        v2.events.events[5].kind,
        EventKind::WalletDeployed { canister } if canister == id(&[2])
    ));
    assert!(matches!(
        v2.events.events[6].kind,
        EventKind::AddressRemoved { id: a } if a == id(&[1])
    ));
}

fn check_ledger(managed: &ManagedList) {
    let records = managed.to_records();
    assert_eq!(records.len(), 2);
    assert_eq!(records[0].info.id, id(&[2]));
    assert_eq!(records[0].info.created_at, 101);
    assert_eq!(records[0].info.name, None);
    assert_eq!(records[0].culled, Some(0));
    assert_eq!(records[0].events.len(), 2);
    assert_eq!(records[0].events[0].id, 0);
    assert_eq!(records[0].events[0].timestamp, 101);
    assert_eq!(records[0].events[0].kind, ManagedCanisterEventKind::Created { cycles: 500 });
    assert_eq!(records[0].events[1].id, 1);
    assert_eq!(records[0].events[1].timestamp, 104);
    assert_eq!(
        records[0].events[1].kind,
        ManagedCanisterEventKind::Called { method_name: "greet".to_string(), cycles: 7 }
    );
    assert_eq!(records[1].info.id, id(&[1]));
    assert_eq!(records[1].info.created_at, 102);
    assert_eq!(records[1].events.len(), 1);
    assert_eq!(
        records[1].events[0].kind,
        ManagedCanisterEventKind::CyclesSent { amount: 18446744073709551615, refund: 10 }
    );
}

#[test]
fn layouts_by_version() {
    assert_eq!(layout_for(None), Layout::V1);
    assert_eq!(layout_for(Some(1)), Layout::V1);
    assert_eq!(layout_for(Some(2)), Layout::V2);
    assert_eq!(layout_for(Some(0)), Layout::V1);
    assert_eq!(layout_for(Some(3)), Layout::V1);
    assert_eq!(STABLE_VERSION, 2);
}

#[test]
fn the_ledger_is_made_from_the_events() {
    let mut store = v1_store(None);
    _1_create_managed_canister_list(&mut store);
    let list = store.managed.as_ref().unwrap();
    assert_eq!(list.len(), 2);
    assert_eq!(list.key_at(0), id(&[2]));
    assert_eq!(list.key_at(1), id(&[1]));
    let first = list.record_at(0);
    assert_eq!(first.info.id, id(&[2]));
    assert_eq!(first.info.created_at, 101);
    assert_eq!(first.events.len(), 2);
    assert_eq!(first.events[0].id, 0);
    assert_eq!(first.events[1].id, 1);
    assert_eq!(first.events[1].timestamp, 104);
    assert!(matches!(
        first.events[1].kind,
        V1ManagedCanisterEventKind::Called { ref method_name, cycles: 7 } if method_name == "greet"
    ));
    let second = list.record_at(1);
    assert_eq!(second.events.len(), 1);
    assert!(matches!(
        second.events[0].kind,
        V1ManagedCanisterEventKind::CyclesSent { amount: u64::MAX, refund: 10 }
    ));
    assert_eq!(store.events.events.len(), 7);
    assert_eq!(store.name, Some("wallet".to_string()));
}

#[test]
fn amounts_are_widened_and_records_kept() {
    let mut store = v1_store(None);
    _1_create_managed_canister_list(&mut store);
    let v2 = _2_convert_nat64_to_nat(store);
    check_converted(&v2);
    check_ledger(v2.managed.as_ref().unwrap());
}

#[test]
fn a_state_without_a_ledger_is_converted_with_an_empty_one() {
    let v2 = _2_convert_nat64_to_nat(v1_store(None));
    check_converted(&v2);
    assert_eq!(v2.managed.unwrap().len(), 0);
}

#[test]
fn migrating_directly_and_by_way_of_the_ledger_give_the_same() {
    let direct = migrate_from(Persisted::V1(v1_store(None)));
    let mut with_ledger = v1_store(None);
    _1_create_managed_canister_list(&mut with_ledger);
    let by_way = migrate_from(Persisted::V1(with_ledger));
    check_converted(&direct);
    check_converted(&by_way);
    check_ledger(direct.managed.as_ref().unwrap());
    check_ledger(by_way.managed.as_ref().unwrap());
    let again = migrate_from(Persisted::V2(direct));
    check_converted(&again);
    check_ledger(again.managed.as_ref().unwrap());
}

#[test]
fn a_stored_ledger_is_kept_as_it_is() {
    let mut list = V1ManagedList::default();
    list.push_with_timestamp(id(&[7]), V1ManagedCanisterEventKind::Created { cycles: 3 }, 9);
    list.push_with_timestamp(id(&[7]), V1ManagedCanisterEventKind::Created { cycles: 4 }, 10);
    let v2 = migrate_from(Persisted::V1(v1_store(Some(list))));
    let records = v2.managed.unwrap().to_records();
    assert_eq!(records.len(), 1);
    assert_eq!(records[0].info.id, id(&[7]));
    assert_eq!(records[0].info.created_at, 9);
    assert_eq!(records[0].events.len(), 2);
    assert_eq!(records[0].events[1].id, 1);
    assert_eq!(records[0].events[1].kind, ManagedCanisterEventKind::Created { cycles: 4 });
}

#[test]
fn version_one_records_go_to_a_list_and_back() {
    let mut a = V1ManagedCanister::new(id(&[1]), 5);
    a.info.name = Some("a".to_string());
    let b = V1ManagedCanister::new(id(&[2]), 6);
    let again = V1ManagedCanister::new(id(&[1]), 7);
    let list = V1ManagedList::from_records(vec![a, b, again]);
    assert_eq!(list.len(), 2);
    assert_eq!(list.key_at(0), id(&[1]));
    assert_eq!(list.record_at(0).info.created_at, 7);
    assert_eq!(list.record_at(0).info.name, None);
    assert_eq!(list.key_at(1), id(&[2]));
    assert_eq!(list.record_at(1).info.created_at, 6);
}

#[test]
fn version_one_kinds_concern_their_target() {
    let t = id(&[1]);
    assert!(matches!(
        V1EventKind::CyclesSent { to: t, amount: 100, refund: 10 }.to_managed(),
        Some((to, V1ManagedCanisterEventKind::CyclesSent { amount: 100, refund: 10 })) if to == t
    ));
    assert!(matches!(
        V1EventKind::CanisterCreated { canister: t, cycles: 4 }.to_managed(),
        Some((to, V1ManagedCanisterEventKind::Created { cycles: 4 })) if to == t
    ));
    assert!(V1EventKind::AddressRemoved { id: t }.to_managed().is_none());
    assert!(V1EventKind::WalletDeployed { canister: t }.to_managed().is_none());
    assert!(V1EventKind::CyclesReceived { from: t, amount: 1, memo: None }.to_managed().is_none());
    assert!(V1EventKind::AddressAdded { id: t, name: None, role: Role::Contact }
        .to_managed()
        .is_none());
}

#[test]
fn only_a_snapshot_tagged_current_is_taken_as_it_is() {
    assert!(current_snapshot(StableStorage::default(), Some(2)).is_some());
    assert!(current_snapshot(StableStorage::default(), Some(1)).is_none());
    assert!(current_snapshot(StableStorage::default(), None).is_none());
}

#[test]
fn what_cannot_be_read_gives_a_fresh_state() {
    let fresh = migrated_or_fresh(None);
    assert_eq!(fresh.address_book.len(), 0);
    assert_eq!(fresh.events.events.len(), 0);
    assert_eq!(fresh.events.culled, None);
    assert_eq!(fresh.name, None);
    assert_eq!(fresh.chart.len(), 0);
    assert_eq!(fresh.wasm_module, None);
    assert_eq!(fresh.managed.unwrap().len(), 0);
    let migrated = migrated_or_fresh(Some(Persisted::V1(v1_store(None))));
    check_converted(&migrated);
}
