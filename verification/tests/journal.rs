use pda_ledger::addresses::{program_id_vec, seeds2};
use pda_ledger::errors::StoreError;
use pda_ledger::journal::{create_entry, delete_entry, update_entry};
use pda_ledger::records::Record;
use pda_ledger::store::Store;

fn id(b: u8) -> Vec<u8> {
    vec![b; 32]
}

#[test]
fn a_created_entry_reads_back_at_its_derived_address() {
    let mut store = Store::new();
    let owner = id(1);
    store.fund(&owner, 1_000).unwrap();
    let addr = create_entry(&mut store, owner.clone(), b"Day1".to_vec(), b"Hello".to_vec(), 100)
        .unwrap();

    let ns = program_id_vec();
    let expected = pda_ledger::addresses::derive(&ns, &seeds2(b"Day1".to_vec(), owner.clone())).unwrap().0;
    assert_eq!(addr, expected);

    match store.read(&addr) {
        Some(Record::Journal(j)) => {
            assert_eq!(j.owner, owner);
            assert_eq!(j.title, b"Day1".to_vec());
            assert_eq!(j.message, b"Hello".to_vec());
        }
        _ => panic!("expected the journal entry back"),
    }
}

#[test]
fn entries_with_the_same_title_and_owner_collide() {
    let mut store = Store::new();
    let owner = id(1);
    store.fund(&owner, 1_000).unwrap();
    create_entry(&mut store, owner.clone(), b"Day1".to_vec(), b"Hello".to_vec(), 10).unwrap();
    let err = create_entry(&mut store, owner.clone(), b"Day1".to_vec(), b"Other".to_vec(), 10)
        .unwrap_err();
    assert_eq!(err, StoreError::AlreadyExists);
}

#[test]
fn update_entry_replaces_only_the_message() {
    let mut store = Store::new();
    let owner = id(1);
    store.fund(&owner, 1_000).unwrap();
    let addr = create_entry(&mut store, owner.clone(), b"Day1".to_vec(), b"Hello".to_vec(), 10)
        .unwrap();
    update_entry(&mut store, &owner, &b"Day1".to_vec(), b"Changed".to_vec()).unwrap();
    match store.read(&addr) {
        Some(Record::Journal(j)) => {
            assert_eq!(j.title, b"Day1".to_vec());
            assert_eq!(j.message, b"Changed".to_vec());
        }
        _ => panic!("record vanished"),
    }
}

#[test]
fn update_entry_under_an_unknown_title_is_not_found() {
    let mut store = Store::new();
    let err = update_entry(&mut store, &id(1), &b"Day1".to_vec(), b"Hello".to_vec()).unwrap_err();
    assert_eq!(err, StoreError::NotFound);
}

#[test]
fn update_entry_refuses_an_oversized_message() {
    let mut store = Store::new();
    let owner = id(1);
    store.fund(&owner, 1_000).unwrap();
    create_entry(&mut store, owner.clone(), b"Day1".to_vec(), b"Hello".to_vec(), 10).unwrap();
    let err = update_entry(&mut store, &owner, &b"Day1".to_vec(), vec![7u8; 1001]).unwrap_err();
    assert_eq!(err, StoreError::PayloadTooLarge);
}

#[test]
fn delete_entry_refunds_and_removes() {
    let mut store = Store::new();
    let owner = id(1);
    store.fund(&owner, 1_000).unwrap();
    let addr = create_entry(&mut store, owner.clone(), b"Day1".to_vec(), b"Hello".to_vec(), 100)
        .unwrap();
    assert_eq!(store.balance_of(&owner), 900);
    delete_entry(&mut store, &owner, &b"Day1".to_vec()).unwrap();
    assert!(store.read(&addr).is_none());
    assert_eq!(store.balance_of(&owner), 1_000);
}

#[test]
fn each_signer_reaches_only_their_own_entry() {
    let mut store = Store::new();
    let owner = id(1);
    store.fund(&owner, 1_000).unwrap();
    create_entry(&mut store, owner.clone(), b"Day1".to_vec(), b"Hello".to_vec(), 10).unwrap();
    // A different signer derives a different address, so the entry is
    // simply not there for them.
    let err = delete_entry(&mut store, &id(2), &b"Day1".to_vec()).unwrap_err();
    assert_eq!(err, StoreError::NotFound);
}
