use std::collections::VecDeque;
use wallet::address::Role;
use wallet::events::{
    get_events, get_managed_canister_events, get_managed_canisters, has_room_to_record, rebuild_managed,
    record, set_short_name, Event, EventBuffer, EventKind, ManagedCanister, ManagedCanisterEvent,
    ManagedCanisterEventKind, ManagedCanisterInfo, ManagedList,
};
use wallet::identity::Identity;
use wallet::retention::{
    has_room, next_id, offsets, window, DEFAULT_WINDOW, EVENT_CAPACITY, TARGET_CAPACITY,
};

fn id(bytes: &[u8]) -> Identity {
    Identity::from_slice(bytes).unwrap()
}

fn removed(n: u8) -> EventKind {
    EventKind::AddressRemoved { id: id(&[n]) }
}

fn ids(events: &[Event]) -> Vec<u32> {
    events.iter().map(|e| e.id).collect()
}

fn target_ids(events: &[ManagedCanisterEvent]) -> Vec<u32> {
    events.iter().map(|e| e.id).collect()
}

#[test]
fn capacities() {
    assert_eq!(EVENT_CAPACITY, 5000);
    assert_eq!(TARGET_CAPACITY, 1000);
    assert_eq!(DEFAULT_WINDOW, 20);
}

#[test]
fn a_target_log_keeps_the_last_thousand() {
    let t = id(&[1]);
    let mut target = ManagedCanister::new(t, 7);
    for n in 0..1005u64 {
        target.push(ManagedCanisterEventKind::Created { cycles: n as u128 }, n);
    }
    assert_eq!(target.events.len(), 1000);
    assert_eq!(target.culled, Some(5));
    assert_eq!(target.events[0].id, 5);
    assert_eq!(target.events[0].timestamp, 5);
    assert_eq!(target.events[999].id, 1004);
    for (i, e) in target.events.iter().enumerate() {
        assert_eq!(e.id as usize, 5 + i);
    }
    assert_eq!(target.info.created_at, 7);
}

#[test]
fn the_global_log_keeps_the_last_five_thousand() {
    let mut buffer = EventBuffer::default();
    for n in 0..5005u64 {
        buffer.append(removed(1), n);
    }
    assert_eq!(buffer.events.len(), 5000);
    assert_eq!(buffer.len(), 5000);
    assert_eq!(buffer.culled, Some(5));
    assert_eq!(buffer.events[0].id, 5);
    assert_eq!(buffer.events[4999].id, 5004);
    buffer.append(removed(1), 9);
    assert_eq!(buffer.culled, Some(6));
    assert_eq!(buffer.events[4999].id, 5005);
    assert_eq!(buffer.events[0].id, 6);
}

#[test]
fn a_log_within_capacity_drops_nothing() {
    let mut buffer = EventBuffer::default();
    for n in 0..5000u64 {
        buffer.append(removed(1), n);
    }
    assert_eq!(buffer.events.len(), 5000);
    assert_eq!(buffer.culled, None);
    assert_eq!(buffer.events[0].id, 0);
}

#[test]
fn default_read_returns_the_last_twenty() {
    let mut buffer = EventBuffer::default();
    assert_eq!(ids(&get_events(&buffer, None, None)), Vec::<u32>::new());
    for n in 0..20u64 {
        buffer.append(removed(1), n);
    }
    assert_eq!(ids(&get_events(&buffer, None, None)), (0..20).collect::<Vec<u32>>());
    buffer.append(removed(1), 20);
    assert_eq!(ids(&get_events(&buffer, None, None)), (1..21).collect::<Vec<u32>>());
    for n in 21..50u64 {
        buffer.append(removed(1), n);
    }
    assert_eq!(ids(&get_events(&buffer, None, None)), (30..50).collect::<Vec<u32>>());
}

#[test]
fn default_read_after_culling_returns_the_last_twenty() {
    let mut buffer = EventBuffer::default();
    for n in 0..5010u64 {
        buffer.append(removed(1), n);
    }
    assert_eq!(ids(&get_events(&buffer, None, None)), (4990..5010).collect::<Vec<u32>>());
}

#[test]
fn reads_by_identifier() {
    let mut buffer = EventBuffer::default();
    for n in 0..30u64 {
        buffer.append(removed(1), n);
    }
    assert_eq!(ids(&get_events(&buffer, Some(3), Some(6))), vec![3, 4, 5]);
    assert_eq!(ids(&get_events(&buffer, Some(28), Some(100))), vec![28, 29]);
    assert_eq!(ids(&get_events(&buffer, Some(28), None)), vec![28, 29]);
    assert_eq!(ids(&get_events(&buffer, None, Some(12))), vec![10, 11]);
    assert_eq!(ids(&get_events(&buffer, Some(6), Some(3))), Vec::<u32>::new());
    assert_eq!(ids(&get_events(&buffer, Some(40), Some(50))), Vec::<u32>::new());
    assert_eq!(ids(&buffer.between(3..6)), vec![3, 4, 5]);
    assert_eq!(ids(&buffer.between(25..1000)), vec![25, 26, 27, 28, 29]);
    assert_eq!(ids(&buffer.between(7..2)), Vec::<u32>::new());
}

#[test]
fn reads_that_start_before_the_floor_return_what_is_kept() {
    let mut buffer = EventBuffer::default();
    for n in 0..5005u64 {
        buffer.append(removed(1), n);
    }
    assert_eq!(ids(&get_events(&buffer, Some(0), Some(8))), vec![5, 6, 7]);
    assert_eq!(ids(&get_events(&buffer, Some(0), Some(5))), Vec::<u32>::new());
    assert_eq!(ids(&buffer.between(0..7)), vec![5, 6]);
    assert_eq!(ids(&get_events(&buffer, Some(5003), Some(9000))), vec![5003, 5004]);
}

#[test]
fn plain_push_gives_no_identifier_and_drops_nothing() {
    let mut buffer = EventBuffer::default();
    buffer.push(Event { id: 42, timestamp: 1, kind: removed(1) });
    assert_eq!(buffer.events.len(), 1);
    assert_eq!(buffer.events[0].id, 42);
    assert_eq!(buffer.culled, None);
}

#[test]
fn index_arithmetic() {
    assert_eq!(next_id(None, 0), 0);
    assert_eq!(next_id(None, 7), 7);
    assert_eq!(next_id(Some(5), 1000), 1005);
    assert!(has_room(Some(5), 1000));
    assert!(has_room(None, u32::MAX as usize));
    assert!(!has_room(Some(1), u32::MAX as usize));
    assert_eq!(offsets(None, 10, 2, 5), (2, 5));
    assert_eq!(offsets(Some(5), 10, 2, 8), (0, 3));
    assert_eq!(offsets(Some(5), 10, 7, 100), (2, 10));
    assert_eq!(offsets(Some(5), 10, 9, 6), (4, 4));
    assert_eq!(window(None, 30, None, None), (10, 30));
    assert_eq!(window(None, 3, None, None), (0, 3));
    assert_eq!(window(Some(100), 30, None, Some(125)), (10, 25));
    assert_eq!(window(Some(100), 30, Some(90), Some(101)), (0, 1));
}

#[test]
fn only_events_about_a_target_go_to_its_log() {
    let t = id(&[1]);
    let sent = EventKind::CyclesSent { to: t, amount: 100, refund: 10 };
    assert_eq!(
        sent.to_managed(),
        Some((t, ManagedCanisterEventKind::CyclesSent { amount: 100, refund: 10 }))
    );
    let called =
        EventKind::CanisterCalled { canister: t, method_name: "m".to_string(), cycles: 3 };
    assert_eq!(
        called.to_managed(),
        Some((t, ManagedCanisterEventKind::Called { method_name: "m".to_string(), cycles: 3 }))
    );
    let created = EventKind::CanisterCreated { canister: t, cycles: 4 };
    assert_eq!(created.to_managed(), Some((t, ManagedCanisterEventKind::Created { cycles: 4 })));
    assert_eq!(EventKind::AddressAdded { id: t, name: None, role: Role::Contact }.to_managed(), None);
    assert_eq!(EventKind::AddressRemoved { id: t }.to_managed(), None);
    assert_eq!(EventKind::CyclesReceived { from: t, amount: 1, memo: None }.to_managed(), None);
    assert_eq!(EventKind::WalletDeployed { canister: t }.to_managed(), None);
}

#[test]
fn recording_cycles_sent_adds_one_record_for_the_target() {
    let t = id(&[1]);
    let mut buffer = EventBuffer::default();
    let mut managed = ManagedList::default();
    record(&mut buffer, &mut managed, EventKind::CyclesSent { to: t, amount: 100, refund: 10 }, 55);
    let events = get_managed_canister_events(&managed, &t, None, None).unwrap();
    assert_eq!(events.len(), 1);
    assert_eq!(
        events[0],
        ManagedCanisterEvent {
            id: 0,
            timestamp: 55,
            kind: ManagedCanisterEventKind::CyclesSent { amount: 100, refund: 10 },
        }
    );
    record(
        &mut buffer,
        &mut managed,
        EventKind::AddressAdded { id: t, name: None, role: Role::Custodian },
        56,
    );
    let events = get_managed_canister_events(&managed, &t, None, None).unwrap();
    assert_eq!(events.len(), 1);
    assert_eq!(buffer.events.len(), 2);
    assert_eq!(ids(&get_events(&buffer, None, None)), vec![0, 1]);
    assert_eq!(buffer.events[1].timestamp, 56);
    let (infos, total) = get_managed_canisters(&managed, None, None);
    assert_eq!(total, 1);
    assert_eq!(infos[0].id, t);
    assert_eq!(infos[0].created_at, 55);
    assert_eq!(infos[0].name, None);
}

#[test]
fn an_unknown_target_has_no_events() {
    let managed = ManagedList::default();
    assert_eq!(get_managed_canister_events(&managed, &id(&[1]), None, None), None);
}

#[test]
fn targets_are_listed_in_the_order_of_first_reference() {
    let mut managed = ManagedList::default();
    let a = id(&[3]);
    let b = id(&[1]);
    let c = id(&[2]);
    managed.push_with_timestamp(a, ManagedCanisterEventKind::Created { cycles: 1 }, 10);
    managed.push_with_timestamp(b, ManagedCanisterEventKind::Created { cycles: 1 }, 11);
    managed.push(a, ManagedCanisterEventKind::Created { cycles: 2 }, 12);
    managed.push_with_timestamp(c, ManagedCanisterEventKind::Created { cycles: 1 }, 13);
    assert_eq!(managed.len(), 3);
    let page = |from, to| {
        let (infos, total) = get_managed_canisters(&managed, from, to);
        assert_eq!(total, 3);
        infos.iter().map(|i| (i.id, i.created_at)).collect::<Vec<_>>()
    };
    assert_eq!(page(None, None), vec![(a, 10), (b, 11), (c, 13)]);
    assert_eq!(page(Some(1), None), vec![(b, 11), (c, 13)]);
    assert_eq!(page(Some(1), Some(2)), vec![(b, 11)]);
    assert_eq!(page(None, Some(100)), vec![(a, 10), (b, 11), (c, 13)]);
    assert_eq!(page(Some(2), Some(1)), vec![]);
    assert_eq!(page(Some(7), None), vec![]);
    assert_eq!(
        target_ids(&get_managed_canister_events(&managed, &a, None, None).unwrap()),
        vec![0, 1]
    );
    assert_eq!(managed.get(&a).unwrap().events[1].timestamp, 12);
    assert!(managed.get(&id(&[9])).is_none());
}

#[test]
fn target_reads_are_windowed_like_global_reads() {
    let t = id(&[1]);
    let mut managed = ManagedList::default();
    for n in 0..1030u64 {
        managed.push_with_timestamp(t, ManagedCanisterEventKind::Created { cycles: 1 }, n);
    }
    let read = |from, to| target_ids(&get_managed_canister_events(&managed, &t, from, to).unwrap());
    assert_eq!(read(None, None), (1010..1030).collect::<Vec<u32>>());
    assert_eq!(read(Some(0), Some(32)), vec![30, 31]);
    assert_eq!(read(Some(1028), None), vec![1028, 1029]);
    assert_eq!(read(Some(50), Some(40)), Vec::<u32>::new());
    assert_eq!(managed.get(&t).unwrap().culled, Some(30));
}

#[test]
fn a_target_is_renamed() {
    let t = id(&[1]);
    let mut managed = ManagedList::default();
    managed.push_with_timestamp(t, ManagedCanisterEventKind::Created { cycles: 1 }, 10);
    let info = set_short_name(&mut managed, &t, Some("short".to_string())).unwrap();
    assert_eq!(info.id, t);
    assert_eq!(info.name, Some("short".to_string()));
    assert_eq!(info.created_at, 10);
    assert_eq!(get_managed_canisters(&managed, None, None).0[0].name, Some("short".to_string()));
    assert_eq!(managed.get(&t).unwrap().events.len(), 1);
    assert_eq!(set_short_name(&mut managed, &t, None).unwrap().name, None);
    assert_eq!(set_short_name(&mut managed, &id(&[2]), Some("x".to_string())), None);
    assert_eq!(managed.len(), 1);
}

fn fixture() -> Vec<(EventKind, u64)> {
    let a = id(&[1]);
    let b = id(&[2]);
    vec![
        (EventKind::AddressAdded { id: a, name: Some("a".to_string()), role: Role::Controller }, 1),
        (EventKind::CanisterCreated { canister: b, cycles: 500 }, 2),
        (EventKind::CyclesSent { to: a, amount: 100, refund: 10 }, 3),
        (EventKind::CyclesReceived { from: b, amount: 9, memo: Some("memo".to_string()) }, 4),
        (EventKind::CanisterCalled { canister: b, method_name: "greet".to_string(), cycles: 7 }, 5),
        (EventKind::WalletDeployed { canister: b }, 6),
        (EventKind::CyclesSent { to: b, amount: 1, refund: 0 }, 7),
        (EventKind::AddressRemoved { id: a }, 8),
    ]
}

fn same_ledger(x: &ManagedList, y: &ManagedList) {
    let xs = x.to_records();
    let ys = y.to_records();
    assert_eq!(xs.len(), ys.len());
    for (a, b) in xs.iter().zip(ys.iter()) {
        assert_eq!(a.info.id, b.info.id);
        assert_eq!(a.info.name, b.info.name);
        assert_eq!(a.info.created_at, b.info.created_at);
        assert_eq!(a.culled, b.culled);
        assert_eq!(a.events, b.events);
    }
}

#[test]
fn replaying_the_global_log_gives_the_ledger_built_record_by_record() {
    let mut buffer = EventBuffer::default();
    let mut managed = ManagedList::default();
    for (kind, time) in fixture() {
        assert!(has_room_to_record(&buffer, &managed, &kind));
        record(&mut buffer, &mut managed, kind, time);
    }
    let replayed = rebuild_managed(&buffer);
    same_ledger(&replayed, &managed);
    let records = managed.to_records();
    assert_eq!(records.len(), 2);
    assert_eq!(records[0].info.id, id(&[2]));
    assert_eq!(records[0].info.created_at, 2);
    assert_eq!(records[0].events.len(), 3);
    assert_eq!(records[1].info.id, id(&[1]));
    assert_eq!(records[1].info.created_at, 3);
    assert_eq!(
        records[1].events,
        VecDeque::from(vec![ManagedCanisterEvent {
            id: 0,
            timestamp: 3,
            kind: ManagedCanisterEventKind::CyclesSent { amount: 100, refund: 10 },
        }])
    );
}

#[test]
fn a_ledger_goes_to_records_and_back() {
    let mut buffer = EventBuffer::default();
    let mut managed = ManagedList::default();
    for (kind, time) in fixture() {
        record(&mut buffer, &mut managed, kind, time);
    }
    let back = ManagedList::from_records(managed.to_records());
    same_ledger(&back, &managed);
}

#[test]
fn of_two_records_about_one_identity_the_later_stays() {
    let t = id(&[1]);
    let u = id(&[2]);
    let first = ManagedCanister::new(t, 1);
    let other = ManagedCanister::new(u, 2);
    let mut second = ManagedCanister::new(t, 3);
    second.push(ManagedCanisterEventKind::Created { cycles: 1 }, 3);
    let list = ManagedList::from_records(vec![first, other, second]);
    let records = list.to_records();
    assert_eq!(records.len(), 2);
    assert_eq!(records[0].info.id, t);
    assert_eq!(records[0].info.created_at, 3);
    assert_eq!(records[0].events.len(), 1);
    assert_eq!(records[1].info.id, u);
}

#[test]
fn infos_and_records_are_the_same_when_about_the_same_target() {
    let a = ManagedCanisterInfo { id: id(&[1]), name: None, created_at: 1 };
    let b = ManagedCanisterInfo { id: id(&[1]), name: Some("b".to_string()), created_at: 2 };
    let c = ManagedCanisterInfo { id: id(&[2]), name: None, created_at: 1 };
    assert!(a == b);
    assert!(a != c);
    assert!(ManagedCanister::new(id(&[1]), 1) == ManagedCanister::new(id(&[1]), 2));
    assert!(ManagedCanister::new(id(&[1]), 1) != ManagedCanister::new(id(&[2]), 1));
}

#[test]
fn copies_are_equal() {
    let e = Event { id: 3, timestamp: 4, kind: fixture().remove(4).0 };
    let c = e.clone();
    assert_eq!(c.id, 3);
    assert_eq!(c.timestamp, 4);
    assert!(matches!(
        c.kind,
        EventKind::CanisterCalled { canister, ref method_name, cycles: 7 }
            if canister == id(&[2]) && method_name == "greet"
    ));
    let mut buffer = EventBuffer::default();
    buffer.append(removed(1), 1);
    let copy = buffer.clone();
    assert_eq!(copy.events.len(), 1);
    assert_eq!(copy.culled, None);
}
