use wallet::address::{AddressBook, AddressEntry, Kind, Role};
use wallet::identity::Identity;

fn id(bytes: &[u8]) -> Identity {
    Identity::from_slice(bytes).unwrap()
}

#[test]
fn can_update_existing() {
    let mut book: AddressBook = Default::default();
    book.insert(AddressEntry::new(Identity::anonymous(), None, Role::Contact));
    book.insert(AddressEntry::new(Identity::anonymous(), None, Role::Controller));
    assert!(book.is_controller(&Identity::anonymous()));
}

#[test]
fn reinserting_as_contact_keeps_controller() {
    let a = id(&[1, 2, 3]);
    let mut book = AddressBook::default();
    book.insert(AddressEntry::new(a, Some("alice".to_string()), Role::Controller));
    book.insert(AddressEntry::new(a, None, Role::Contact));
    let found = book.find(&a).unwrap();
    assert_eq!(found.role, Role::Controller);
    assert_eq!(found.name, Some("alice".to_string()));
    assert_eq!(found.kind, Kind::Unknown);
    assert_eq!(book.iter().len(), 1);
}

#[test]
fn role_is_the_highest_ever_inserted_in_any_order() {
    let a = id(&[9]);
    let orders: [[Role; 3]; 6] = [
        [Role::Contact, Role::Custodian, Role::Controller],
        [Role::Contact, Role::Controller, Role::Custodian],
        [Role::Custodian, Role::Contact, Role::Controller],
        [Role::Custodian, Role::Controller, Role::Contact],
        [Role::Controller, Role::Contact, Role::Custodian],
        [Role::Controller, Role::Custodian, Role::Contact],
    ];
    for order in orders.iter() {
        let mut book = AddressBook::default();
        for role in order.iter() {
            book.insert(AddressEntry::new(a, None, *role));
        }
        assert_eq!(book.find(&a).unwrap().role, Role::Controller);
    }
    let mut book = AddressBook::default();
    book.insert(AddressEntry::new(a, None, Role::Custodian));
    book.insert(AddressEntry::new(a, None, Role::Contact));
    assert_eq!(book.find(&a).unwrap().role, Role::Custodian);
}

#[test]
fn name_is_the_most_recently_supplied_one() {
    let a = id(&[9]);
    let mut book = AddressBook::default();
    book.insert(AddressEntry::new(a, Some("first".to_string()), Role::Contact));
    book.insert(AddressEntry::new(a, None, Role::Contact));
    assert_eq!(book.find(&a).unwrap().name, Some("first".to_string()));
    book.insert(AddressEntry::new(a, Some("second".to_string()), Role::Contact));
    book.insert(AddressEntry::new(a, None, Role::Custodian));
    assert_eq!(book.find(&a).unwrap().name, Some("second".to_string()));
}

#[test]
fn kind_is_kept_unless_a_known_one_is_given() {
    let a = id(&[9]);
    let mut book = AddressBook::default();
    book.insert(AddressEntry { id: a, name: None, kind: Kind::Canister, role: Role::Contact });
    book.insert(AddressEntry::new(a, None, Role::Contact));
    assert_eq!(book.find(&a).unwrap().kind, Kind::Canister);
    book.insert(AddressEntry { id: a, name: None, kind: Kind::User, role: Role::Contact });
    assert_eq!(book.find(&a).unwrap().kind, Kind::User);
}

#[test]
fn entries_are_kept_in_identity_order() {
    let mut book = AddressBook::default();
    let long = id(&[0, 0]);
    let high = id(&[7]);
    let low = id(&[3]);
    let none = Identity::management_canister();
    for i in [long, high, low, none].iter() {
        book.insert(AddressEntry::new(*i, None, Role::Contact));
    }
    let ids: Vec<Identity> = book.iter().iter().map(|e| e.id).collect();
    assert_eq!(ids, vec![none, low, high, long]);
}

#[test]
fn remove_and_take() {
    let a = id(&[1]);
    let b = id(&[2]);
    let mut book = AddressBook::default();
    book.insert(AddressEntry::new(a, Some("a".to_string()), Role::Custodian));
    book.insert(AddressEntry::new(b, None, Role::Controller));
    book.remove(&id(&[3]));
    assert_eq!(book.iter().len(), 2);
    let taken = book.take(&a).unwrap();
    assert_eq!(taken.id, a);
    assert_eq!(taken.name, Some("a".to_string()));
    assert_eq!(taken.role, Role::Custodian);
    assert!(book.find(&a).is_none());
    assert!(book.take(&a).is_none());
    book.remove(&b);
    assert_eq!(book.iter().len(), 0);
}

#[test]
fn queries_by_role() {
    let contact = id(&[1]);
    let custodian = id(&[2]);
    let controller = id(&[3]);
    let stranger = id(&[4]);
    let mut book = AddressBook::default();
    book.insert(AddressEntry::new(contact, None, Role::Contact));
    book.insert(AddressEntry::new(custodian, None, Role::Custodian));
    book.insert(AddressEntry::new(controller, None, Role::Controller));

    assert!(book.is_controller(&controller));
    assert!(!book.is_controller(&custodian));
    assert!(!book.is_controller(&contact));
    assert!(!book.is_controller(&stranger));

    assert!(book.is_custodian(&controller));
    assert!(book.is_custodian(&custodian));
    assert!(!book.is_custodian(&contact));
    assert!(!book.is_custodian(&stranger));

    assert!(book.is_controller_or_custodian(&controller));
    assert!(book.is_controller_or_custodian(&custodian));
    assert!(!book.is_controller_or_custodian(&contact));

    let controllers: Vec<Identity> = book.controllers().iter().map(|e| e.id).collect();
    assert_eq!(controllers, vec![controller]);
    let custodians: Vec<Identity> = book.custodians().iter().map(|e| e.id).collect();
    assert_eq!(custodians, vec![custodian]);
    assert_eq!(book.controller_count(), 1);
}

#[test]
fn entry_predicates() {
    let a = id(&[1]);
    let e = AddressEntry::new(a, None, Role::Custodian);
    assert!(e.is_custodian());
    assert!(!e.is_controller());
    assert!(e.is_controller_or_custodian());
    let c = AddressEntry::new(a, None, Role::Controller);
    assert!(!c.is_custodian());
    assert!(c.is_controller());
    assert!(c.is_controller_or_custodian());
    let k = AddressEntry::new(a, Some("x".to_string()), Role::Contact);
    assert!(!k.is_controller_or_custodian());
    assert_eq!(k.kind, Kind::Unknown);
    assert_eq!(k, c);
    assert_eq!(Role::Contact.rank(), 0);
    assert_eq!(Role::Custodian.rank(), 1);
    assert_eq!(Role::Controller.rank(), 2);
    assert!(Role::Contact < Role::Custodian && Role::Custodian < Role::Controller);
}

#[test]
fn clone_keeps_the_entries() {
    let mut book = AddressBook::default();
    book.insert(AddressEntry::new(id(&[1]), Some("n".to_string()), Role::Custodian));
    let copy = book.clone();
    book.remove(&id(&[1]));
    assert_eq!(copy.iter().len(), 1);
    assert_eq!(copy.find(&id(&[1])).unwrap().name, Some("n".to_string()));
}
