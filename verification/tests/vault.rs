use pda_ledger::addresses::{program_id_vec, seeds2};
use pda_ledger::errors::StoreError;
use pda_ledger::records::{Record, Vault};
use pda_ledger::store::Store;
use pda_ledger::vault::{deposit, toggle_lock, vault_tag_vec, withdraw};

fn id(b: u8) -> Vec<u8> {
    vec![b; 32]
}

/// A funded authority with a vault at its derived address.
fn vault_setup(authority: u8, funds: u64) -> (Store, Vec<u8>, Vec<u8>) {
    let mut store = Store::new();
    let auth = id(authority);
    store.fund(&auth, funds).unwrap();
    let ns = program_id_vec();
    let seeds = seeds2(vault_tag_vec(), auth.clone());
    let (addr, _bump) = pda_ledger::addresses::derive(&ns, &seeds).unwrap();
    store
        .create(
            &addr,
            &auth,
            Record::Vault(Vault { vault_authority: auth.clone(), locked: false }),
            0,
        )
        .unwrap();
    (store, addr, auth)
}

#[test]
fn deposit_fills_the_vault_and_reports_the_event() {
    let (mut store, addr, auth) = vault_setup(1, 1_000);
    assert_eq!(store.balance_of(&addr), 0);
    let ev = deposit(&mut store, &addr, &auth, 100).unwrap();
    assert_eq!(store.balance_of(&addr), 100);
    assert_eq!(store.balance_of(&auth), 900);
    assert_eq!(ev.user, auth);
    assert_eq!(ev.vault, addr);
    assert_eq!(ev.amount, 100);
}

#[test]
fn deposit_into_a_locked_vault_is_refused() {
    let (mut store, addr, auth) = vault_setup(1, 1_000);
    toggle_lock(&mut store, &addr, &auth).unwrap();
    let err = deposit(&mut store, &addr, &auth, 100).unwrap_err();
    assert_eq!(err, StoreError::VaultLocked);
    assert_eq!(store.balance_of(&addr), 0);
    assert_eq!(store.balance_of(&auth), 1_000);
}

#[test]
fn deposit_beyond_the_payer_balance_is_refused() {
    let (mut store, addr, auth) = vault_setup(1, 50);
    let err = deposit(&mut store, &addr, &auth, 100).unwrap_err();
    assert_eq!(err, StoreError::InsufficientBalance);
    assert_eq!(store.balance_of(&addr), 0);
}

#[test]
fn withdraw_beyond_the_held_balance_is_refused() {
    let (mut store, addr, auth) = vault_setup(1, 1_000);
    deposit(&mut store, &addr, &auth, 100).unwrap();
    let err = withdraw(&mut store, &addr, &auth, 150).unwrap_err();
    assert_eq!(err, StoreError::InsufficientBalance);
    assert_eq!(store.balance_of(&addr), 100);
}

#[test]
fn withdraw_moves_value_back_to_the_authority() {
    let (mut store, addr, auth) = vault_setup(1, 1_000);
    deposit(&mut store, &addr, &auth, 100).unwrap();
    let ev = withdraw(&mut store, &addr, &auth, 60).unwrap();
    assert_eq!(store.balance_of(&addr), 40);
    assert_eq!(store.balance_of(&auth), 960);
    assert_eq!(ev.authority, auth);
    assert_eq!(ev.vault, addr);
    assert_eq!(ev.amount, 60);
}

#[test]
fn withdraw_by_a_stranger_is_unauthorized() {
    let (mut store, addr, auth) = vault_setup(1, 1_000);
    deposit(&mut store, &addr, &auth, 100).unwrap();
    let err = withdraw(&mut store, &addr, &id(2), 10).unwrap_err();
    assert_eq!(err, StoreError::Unauthorized);
    assert_eq!(store.balance_of(&addr), 100);
}

#[test]
fn withdraw_from_a_locked_vault_is_refused() {
    let (mut store, addr, auth) = vault_setup(1, 1_000);
    deposit(&mut store, &addr, &auth, 100).unwrap();
    toggle_lock(&mut store, &addr, &auth).unwrap();
    let err = withdraw(&mut store, &addr, &auth, 10).unwrap_err();
    assert_eq!(err, StoreError::VaultLocked);
    assert_eq!(store.balance_of(&addr), 100);
}

#[test]
fn withdraw_needs_a_reproducible_address() {
    let mut store = Store::new();
    let auth = id(1);
    let addr = id(77);
    store.fund(&auth, 100).unwrap();
    store
        .create(
            &addr,
            &auth,
            Record::Vault(Vault { vault_authority: auth.clone(), locked: false }),
            0,
        )
        .unwrap();
    let err = withdraw(&mut store, &addr, &auth, 0).unwrap_err();
    assert_eq!(err, StoreError::InvalidReference);
}

#[test]
fn toggle_lock_by_a_stranger_is_unauthorized() {
    let (mut store, addr, auth) = vault_setup(1, 1_000);
    let err = toggle_lock(&mut store, &addr, &id(2)).unwrap_err();
    assert_eq!(err, StoreError::Unauthorized);
    let ev = deposit(&mut store, &addr, &auth, 1).unwrap();
    assert_eq!(ev.amount, 1);
}

#[test]
fn toggle_lock_twice_restores_the_flag() {
    let (mut store, addr, auth) = vault_setup(1, 1_000);
    let ev1 = toggle_lock(&mut store, &addr, &auth).unwrap();
    assert!(ev1.locked);
    assert_eq!(ev1.vault, addr);
    let ev2 = toggle_lock(&mut store, &addr, &auth).unwrap();
    assert!(!ev2.locked);
    deposit(&mut store, &addr, &auth, 5).unwrap();
    assert_eq!(store.balance_of(&addr), 5);
}

#[test]
fn vault_operations_on_an_absent_address_are_not_found() {
    let mut store = Store::new();
    assert_eq!(
        deposit(&mut store, &id(77), &id(1), 10).unwrap_err(),
        StoreError::NotFound
    );
    assert_eq!(
        withdraw(&mut store, &id(77), &id(1), 10).unwrap_err(),
        StoreError::NotFound
    );
    assert_eq!(
        toggle_lock(&mut store, &id(77), &id(1)).unwrap_err(),
        StoreError::NotFound
    );
}
