//! The value vault: a record holding a lock flag, whose address derives
//! from a fixed tag and its authority, and whose held balance moves through
//! authorized deposits and withdrawals.
//!
//! A withdrawal is self-authorizing: the ledger re-derives the vault's own
//! address from its stored seeds, and only a vault whose address the ledger
//! can reproduce gives up value. No external credential is involved.

use vstd::prelude::*;

use crate::addresses::{bytes_eq, copy_bytes, pda_of, program_id, program_id_vec, seeds2};
use crate::errors::StoreError;
use crate::records::{Record, Vault};
use crate::store::{
    balance_at, credit_map, debit_map, lemma_map_of_update, record_at, store_model, Slot, Store,
};

verus! {

/// The fixed leading seed of every vault address: the bytes of "vault".
pub open spec fn vault_tag() -> Seq<u8> {
    seq![118u8, 97u8, 117u8, 108u8, 116u8]
}

/// The vault tag as a byte vector.
pub fn vault_tag_vec() -> (r: Vec<u8>)
    ensures
        r@ == vault_tag(),
{
    let mut v: Vec<u8> = Vec::new();
    v.push(118);
    v.push(97);
    v.push(117);
    v.push(108);
    v.push(116);
    proof {
        assert(v@ =~= vault_tag());
    }
    v
}

/// The vault stored at `a`, if the record there is one.
pub open spec fn vault_at(m: Map<Seq<u8>, Slot>, a: Seq<u8>) -> Option<Vault> {
    match record_at(m, a) {
        Some(Record::Vault(v)) => Some(v),
        _ => None,
    }
}

/// Whether the ledger can reproduce `a` from the vault's known seeds: the
/// self-authorizing transfer capability for the address.
pub open spec fn vault_capability(v: Vault, a: Seq<u8>) -> bool {
    match pda_of(seq![vault_tag(), v.vault_authority@], program_id()) {
        Some(p) => p.0 == a,
        None => false,
    }
}

/// Published after a successful deposit.
#[derive(Debug)]
pub struct DepositEvent {
    pub user: Vec<u8>,
    pub vault: Vec<u8>,
    pub amount: u64,
}

/// Published after a successful withdrawal.
#[derive(Debug)]
pub struct WithdrawEvent {
    pub authority: Vec<u8>,
    pub vault: Vec<u8>,
    pub amount: u64,
}

/// Published after a successful lock toggle.
#[derive(Debug)]
pub struct ToggleLockEvent {
    pub vault: Vec<u8>,
    pub locked: bool,
}

/// Why `deposit` refuses, or `None` when it commits.
pub open spec fn deposit_err(
    m: Map<Seq<u8>, Slot>,
    vault_a: Seq<u8>,
    payer: Seq<u8>,
    amount: u64,
) -> Option<StoreError> {
    match record_at(m, vault_a) {
        None => Some(StoreError::NotFound),
        Some(rec) => match rec {
            Record::Vault(v) => if v.locked {
                Some(StoreError::VaultLocked)
            } else if balance_at(m, payer) < amount {
                Some(StoreError::InsufficientBalance)
            } else if balance_at(debit_map(m, payer, amount), vault_a) + amount > u64::MAX {
                Some(StoreError::Overflow)
            } else {
                None
            },
            _ => Some(StoreError::InvalidReference),
        },
    }
}

/// The store after a committed `deposit`.
pub open spec fn deposit_post(
    m: Map<Seq<u8>, Slot>,
    vault_a: Seq<u8>,
    payer: Seq<u8>,
    amount: u64,
) -> Map<Seq<u8>, Slot> {
    credit_map(debit_map(m, payer, amount), vault_a, amount)
}

/// Move `amount` from the payer's balance into the vault's held balance.
/// No authorization beyond the payer's funds: a locked vault refuses.
pub fn deposit(
    store: &mut Store,
    vault_address: &Vec<u8>,
    payer: &Vec<u8>,
    amount: u64,
) -> (r: Result<DepositEvent, StoreError>)
    requires
        old(store).wf(),
    ensures
        final(store).wf(),
        match r {
            Ok(ev) => deposit_err(old(store)@, vault_address@, payer@, amount) is None
                && final(store)@ == deposit_post(old(store)@, vault_address@, payer@, amount)
                && ev.user@ == payer@ && ev.vault@ == vault_address@ && ev.amount == amount,
            Err(e) => Some(e) == deposit_err(old(store)@, vault_address@, payer@, amount)
                && final(store)@ == old(store)@,
        },
{
    let locked: bool = match store.read(vault_address) {
        Some(Record::Vault(v)) => v.locked,
        Some(_) => {
            return Err(StoreError::InvalidReference);
        },
        None => {
            return Err(StoreError::NotFound);
        },
    };
    if locked {
        return Err(StoreError::VaultLocked);
    }
    let payer_bal = store.balance_of(payer);
    if payer_bal < amount {
        return Err(StoreError::InsufficientBalance);
    }
    let vault_bal = store.balance_of(vault_address);
    let vault_bal_after: u64 = if bytes_eq(payer, vault_address) {
        vault_bal - amount
    } else {
        vault_bal
    };
    if amount > u64::MAX - vault_bal_after {
        return Err(StoreError::Overflow);
    }
    store.debit(payer, amount);
    store.credit(vault_address, amount);
    Ok(DepositEvent { user: copy_bytes(payer), vault: copy_bytes(vault_address), amount })
}

/// Why `withdraw` refuses, or `None` when it commits.
pub open spec fn withdraw_err(
    m: Map<Seq<u8>, Slot>,
    vault_a: Seq<u8>,
    signer: Seq<u8>,
    amount: u64,
) -> Option<StoreError> {
    match record_at(m, vault_a) {
        None => Some(StoreError::NotFound),
        Some(rec) => match rec {
            Record::Vault(v) => if !vault_capability(v, vault_a) {
                Some(StoreError::InvalidReference)
            } else if signer != v.vault_authority@ {
                Some(StoreError::Unauthorized)
            } else if v.locked {
                Some(StoreError::VaultLocked)
            } else if balance_at(m, vault_a) < amount {
                Some(StoreError::InsufficientBalance)
            } else if balance_at(debit_map(m, vault_a, amount), signer) + amount > u64::MAX {
                Some(StoreError::Overflow)
            } else {
                None
            },
            _ => Some(StoreError::InvalidReference),
        },
    }
}

/// The store after a committed `withdraw`.
pub open spec fn withdraw_post(
    m: Map<Seq<u8>, Slot>,
    vault_a: Seq<u8>,
    signer: Seq<u8>,
    amount: u64,
) -> Map<Seq<u8>, Slot> {
    credit_map(debit_map(m, vault_a, amount), signer, amount)
}

/// Move `amount` from the vault's held balance out to its authority. Only
/// the authority may withdraw, only while unlocked, and only up to the held
/// balance; the transfer itself is authorized by re-deriving the vault's
/// address from its stored seeds.
pub fn withdraw(
    store: &mut Store,
    vault_address: &Vec<u8>,
    signer: &Vec<u8>,
    amount: u64,
) -> (r: Result<WithdrawEvent, StoreError>)
    requires
        old(store).wf(),
    ensures
        final(store).wf(),
        match r {
            Ok(ev) => withdraw_err(old(store)@, vault_address@, signer@, amount) is None
                && final(store)@ == withdraw_post(old(store)@, vault_address@, signer@, amount)
                && ev.authority@ == signer@ && ev.vault@ == vault_address@ && ev.amount
                == amount,
            Err(e) => Some(e) == withdraw_err(old(store)@, vault_address@, signer@, amount)
                && final(store)@ == old(store)@,
        },
{
    let (locked, authority): (bool, Vec<u8>) = match store.read(vault_address) {
        Some(Record::Vault(v)) => (v.locked, copy_bytes(&v.vault_authority)),
        Some(_) => {
            return Err(StoreError::InvalidReference);
        },
        None => {
            return Err(StoreError::NotFound);
        },
    };
    let namespace = program_id_vec();
    let seeds = seeds2(vault_tag_vec(), copy_bytes(&authority));
    let capable: bool = match crate::addresses::derive(&namespace, &seeds) {
        Ok(p) => bytes_eq(&p.0, vault_address),
        Err(_) => false,
    };
    if !capable {
        return Err(StoreError::InvalidReference);
    }
    match crate::auth::require_identity(signer, &authority) {
        Ok(_) => {},
        Err(e) => {
            return Err(e);
        },
    }
    if locked {
        return Err(StoreError::VaultLocked);
    }
    let vault_bal = store.balance_of(vault_address);
    if vault_bal < amount {
        return Err(StoreError::InsufficientBalance);
    }
    let signer_bal = store.balance_of(signer);
    let signer_bal_after: u64 = if bytes_eq(vault_address, signer) {
        signer_bal - amount
    } else {
        signer_bal
    };
    if amount > u64::MAX - signer_bal_after {
        return Err(StoreError::Overflow);
    }
    store.debit(vault_address, amount);
    store.credit(signer, amount);
    Ok(WithdrawEvent { authority: copy_bytes(signer), vault: copy_bytes(vault_address), amount })
}

/// Why `toggle_lock` refuses, or `None` when it commits.
pub open spec fn toggle_err(m: Map<Seq<u8>, Slot>, vault_a: Seq<u8>, signer: Seq<u8>) -> Option<
    StoreError,
> {
    match record_at(m, vault_a) {
        None => Some(StoreError::NotFound),
        Some(rec) => match rec {
            Record::Vault(v) => if signer != v.vault_authority@ {
                Some(StoreError::Unauthorized)
            } else {
                None
            },
            _ => Some(StoreError::InvalidReference),
        },
    }
}

/// The store after a committed `toggle_lock`: the lock flag flips, nothing
/// else changes.
pub open spec fn toggle_post(m: Map<Seq<u8>, Slot>, vault_a: Seq<u8>) -> Map<Seq<u8>, Slot> {
    match record_at(m, vault_a) {
        Some(Record::Vault(v)) => m.insert(
            vault_a,
            Slot {
                deposit: m[vault_a].deposit,
                held: m[vault_a].held,
                data: Some(
                    Record::Vault(Vault { vault_authority: v.vault_authority, locked: !v.locked }),
                ),
            },
        ),
        _ => m,
    }
}

/// Flip the vault's lock flag. Only the authority may do so.
pub fn toggle_lock(store: &mut Store, vault_address: &Vec<u8>, signer: &Vec<u8>) -> (r: Result<
    ToggleLockEvent,
    StoreError,
>)
    requires
        old(store).wf(),
    ensures
        final(store).wf(),
        match r {
            Ok(ev) => toggle_err(old(store)@, vault_address@, signer@) is None
                && final(store)@ == toggle_post(old(store)@, vault_address@)
                && ev.vault@ == vault_address@
                && (match vault_at(old(store)@, vault_address@) {
                    Some(v) => ev.locked == !v.locked,
                    None => false,
                }),
            Err(e) => Some(e) == toggle_err(old(store)@, vault_address@, signer@)
                && final(store)@ == old(store)@,
        },
{
    let i = match store.idx_of(vault_address) {
        Some(i) => i,
        None => {
            return Err(StoreError::NotFound);
        },
    };
    let auth = match &store.slots[i].slot.data {
        Some(Record::Vault(v)) => crate::auth::require_identity(signer, &v.vault_authority),
        Some(_) => {
            return Err(StoreError::InvalidReference);
        },
        None => {
            return Err(StoreError::NotFound);
        },
    };
    match auth {
        Ok(_) => {},
        Err(e) => {
            return Err(e);
        },
    }
    let ghost s0 = store.slots@;
    let mut new_locked: bool = false;
    match &mut store.slots[i].slot.data {
        Some(Record::Vault(v)) => {
            v.locked = !v.locked;
            new_locked = v.locked;
        },
        _ => {},
    }
    proof {
        store_model(*old(store));
        store_model(*store);
        assert(store.slots@ == s0.update(i as int, store.slots@[i as int]));
        lemma_map_of_update(s0, i as int, store.slots@[i as int]);
        assert(store@ =~= toggle_post(old(store)@, vault_address@));
    }
    Ok(ToggleLockEvent { vault: copy_bytes(vault_address), locked: new_locked })
}

/// Toggling the lock twice returns the vault, and the whole store, to
/// exactly the state it started from.
pub proof fn lemma_toggle_toggle(m: Map<Seq<u8>, Slot>, vault_a: Seq<u8>, signer: Seq<u8>)
    requires
        toggle_err(m, vault_a, signer) is None,
    ensures
        toggle_err(toggle_post(m, vault_a), vault_a, signer) is None,
        toggle_post(toggle_post(m, vault_a), vault_a) == m,
{
    let m1 = toggle_post(m, vault_a);
    let m2 = toggle_post(m1, vault_a);
    match record_at(m, vault_a) {
        Some(Record::Vault(v)) => {
            assert(record_at(m1, vault_a) == Some(
                Record::Vault(Vault { vault_authority: v.vault_authority, locked: !v.locked }),
            ));
            assert(m[vault_a] == Slot {
                deposit: m[vault_a].deposit,
                held: m[vault_a].held,
                data: Some(Record::Vault(Vault { vault_authority: v.vault_authority, locked: v.locked })),
            });
            assert(m2 =~= m);
        },
        _ => {
            assert(false);
        },
    }
}

} // verus!
