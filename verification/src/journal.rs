//! The journal: dated notes addressed by their title and their owner.
//!
//! An entry's address derives from the seeds `[title, owner]`, so each
//! owner has at most one entry per title. The title seeds the address and
//! therefore never changes in place; the message may.

use vstd::prelude::*;

use crate::addresses::{copy_bytes, pda_of, program_id, program_id_vec, seeds2};
use crate::errors::StoreError;
use crate::records::{JournalEntry, Record, ID_LEN, MESSAGE_MAX, TITLE_MAX};
use crate::store::{
    close_err, close_post, create_err, create_post, lemma_map_of_update, record_at, store_model,
    Slot, Store,
};

verus! {

/// The address of a journal entry: derived from its title and its owner.
pub open spec fn journal_addr(title: Seq<u8>, owner: Seq<u8>) -> Option<(Seq<u8>, u8)> {
    pda_of(seq![title, owner], program_id())
}

/// Why `create_entry` refuses, or `None` when it commits.
pub open spec fn create_entry_err(
    m: Map<Seq<u8>, Slot>,
    owner: Vec<u8>,
    title: Vec<u8>,
    message: Vec<u8>,
    dep: u64,
) -> Option<StoreError> {
    let rec = Record::Journal(JournalEntry { owner, title, message });
    if !rec.wf() {
        Some(StoreError::PayloadTooLarge)
    } else {
        match journal_addr(title@, owner@) {
            None => Some(StoreError::PayloadTooLarge),
            Some(p) => create_err(m, p.0, owner@, rec, dep),
        }
    }
}

/// The store after a committed `create_entry`.
pub open spec fn create_entry_post(
    m: Map<Seq<u8>, Slot>,
    owner: Vec<u8>,
    title: Vec<u8>,
    message: Vec<u8>,
    dep: u64,
) -> Map<Seq<u8>, Slot> {
    let rec = Record::Journal(JournalEntry { owner, title, message });
    match journal_addr(title@, owner@) {
        None => m,
        Some(p) => create_post(m, p.0, owner@, rec, dep),
    }
}

/// Create a journal entry; the owner pays the storage deposit. Returns the
/// derived address.
pub fn create_entry(
    store: &mut Store,
    owner: Vec<u8>,
    title: Vec<u8>,
    message: Vec<u8>,
    deposit: u64,
) -> (r: Result<Vec<u8>, StoreError>)
    requires
        old(store).wf(),
    ensures
        final(store).wf(),
        match r {
            Ok(a) => create_entry_err(old(store)@, owner, title, message, deposit) is None
                && final(store)@ == create_entry_post(old(store)@, owner, title, message, deposit)
                && (match journal_addr(title@, owner@) {
                    Some(p) => a@ == p.0,
                    None => false,
                }),
            Err(e) => Some(e) == create_entry_err(old(store)@, owner, title, message, deposit)
                && final(store)@ == old(store)@,
        },
{
    if !(owner.len() == ID_LEN && title.len() <= TITLE_MAX && message.len() <= MESSAGE_MAX) {
        return Err(StoreError::PayloadTooLarge);
    }
    let namespace = program_id_vec();
    let seeds = seeds2(copy_bytes(&title), copy_bytes(&owner));
    let addr = match crate::addresses::derive(&namespace, &seeds) {
        Ok(p) => p.0,
        Err(_) => {
            return Err(StoreError::PayloadTooLarge);
        },
    };
    let payer = copy_bytes(&owner);
    let rec = Record::Journal(JournalEntry { owner, title, message });
    match store.create(&addr, &payer, rec, deposit) {
        Ok(_) => Ok(addr),
        Err(e) => Err(e),
    }
}

/// Why `update_entry` refuses, or `None` when it commits.
pub open spec fn update_entry_err(
    m: Map<Seq<u8>, Slot>,
    signer: Seq<u8>,
    title: Seq<u8>,
    message: Vec<u8>,
) -> Option<StoreError> {
    match journal_addr(title, signer) {
        None => Some(StoreError::PayloadTooLarge),
        Some(p) => match record_at(m, p.0) {
            None => Some(StoreError::NotFound),
            Some(rec) => match rec {
                Record::Journal(j) => if signer != j.owner@ {
                    Some(StoreError::Unauthorized)
                } else if message@.len() > MESSAGE_MAX {
                    Some(StoreError::PayloadTooLarge)
                } else {
                    None
                },
                _ => Some(StoreError::InvalidReference),
            },
        },
    }
}

/// The store after a committed `update_entry`: only the message changes.
pub open spec fn update_entry_post(
    m: Map<Seq<u8>, Slot>,
    signer: Seq<u8>,
    title: Seq<u8>,
    message: Vec<u8>,
) -> Map<Seq<u8>, Slot> {
    match journal_addr(title, signer) {
        None => m,
        Some(p) => match record_at(m, p.0) {
            Some(Record::Journal(j)) => m.insert(
                p.0,
                Slot {
                    deposit: m[p.0].deposit,
                    held: m[p.0].held,
                    data: Some(
                        Record::Journal(JournalEntry { owner: j.owner, title: j.title, message }),
                    ),
                },
            ),
            _ => m,
        },
    }
}

/// Replace the message of the signer's entry under `title`. The owner and
/// the title stay as they are.
pub fn update_entry(
    store: &mut Store,
    signer: &Vec<u8>,
    title: &Vec<u8>,
    message: Vec<u8>,
) -> (r: Result<(), StoreError>)
    requires
        old(store).wf(),
    ensures
        final(store).wf(),
        match r {
            Ok(_) => update_entry_err(old(store)@, signer@, title@, message) is None
                && final(store)@ == update_entry_post(old(store)@, signer@, title@, message),
            Err(e) => Some(e) == update_entry_err(old(store)@, signer@, title@, message)
                && final(store)@ == old(store)@,
        },
{
    let namespace = program_id_vec();
    let seeds = seeds2(copy_bytes(title), copy_bytes(signer));
    let addr = match crate::addresses::derive(&namespace, &seeds) {
        Ok(p) => p.0,
        Err(_) => {
            return Err(StoreError::PayloadTooLarge);
        },
    };
    let i = match store.idx_of(&addr) {
        Some(i) => i,
        None => {
            return Err(StoreError::NotFound);
        },
    };
    let auth = match &store.slots[i].slot.data {
        Some(Record::Journal(j)) => crate::auth::require_identity(signer, &j.owner),
        Some(_) => {
            return Err(StoreError::InvalidReference);
        },
        None => {
            return Err(StoreError::NotFound);
        },
    };
    match auth {
        Ok(_) => {},
        Err(e) => {
            return Err(e);
        },
    }
    if message.len() > MESSAGE_MAX {
        return Err(StoreError::PayloadTooLarge);
    }
    let ghost s0 = store.slots@;
    match &mut store.slots[i].slot.data {
        Some(Record::Journal(j)) => {
            j.message = message;
        },
        _ => {},
    }
    proof {
        store_model(*old(store));
        store_model(*store);
        assert(store.slots@ == s0.update(i as int, store.slots@[i as int]));
        lemma_map_of_update(s0, i as int, store.slots@[i as int]);
        assert(store@ =~= update_entry_post(old(store)@, signer@, title@, message));
    }
    Ok(())
}

/// Why `delete_entry` refuses, or `None` when it commits.
pub open spec fn delete_entry_err(m: Map<Seq<u8>, Slot>, signer: Seq<u8>, title: Seq<u8>) -> Option<
    StoreError,
> {
    match journal_addr(title, signer) {
        None => Some(StoreError::PayloadTooLarge),
        Some(p) => match record_at(m, p.0) {
            None => Some(StoreError::NotFound),
            Some(Record::Journal(_)) => close_err(m, p.0, signer),
            Some(_) => Some(StoreError::InvalidReference),
        },
    }
}

/// The store after a committed `delete_entry`.
pub open spec fn delete_entry_post(
    m: Map<Seq<u8>, Slot>,
    signer: Seq<u8>,
    title: Seq<u8>,
) -> Map<Seq<u8>, Slot> {
    match journal_addr(title, signer) {
        None => m,
        Some(p) => close_post(m, p.0, signer),
    }
}

/// Close the signer's entry under `title`, refunding its storage deposit.
pub fn delete_entry(store: &mut Store, signer: &Vec<u8>, title: &Vec<u8>) -> (r: Result<
    (),
    StoreError,
>)
    requires
        old(store).wf(),
    ensures
        final(store).wf(),
        match r {
            Ok(_) => delete_entry_err(old(store)@, signer@, title@) is None
                && final(store)@ == delete_entry_post(old(store)@, signer@, title@),
            Err(e) => Some(e) == delete_entry_err(old(store)@, signer@, title@)
                && final(store)@ == old(store)@,
        },
{
    let namespace = program_id_vec();
    let seeds = seeds2(copy_bytes(title), copy_bytes(signer));
    let addr = match crate::addresses::derive(&namespace, &seeds) {
        Ok(p) => p.0,
        Err(_) => {
            return Err(StoreError::PayloadTooLarge);
        },
    };
    match store.read(&addr) {
        Some(Record::Journal(_)) => {},
        Some(_) => {
            return Err(StoreError::InvalidReference);
        },
        None => {
            return Err(StoreError::NotFound);
        },
    }
    store.close(&addr, signer)
}

} // verus!
