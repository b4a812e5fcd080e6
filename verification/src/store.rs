//! The keyed account store.
//!
//! Every address owns at most one slot. A slot carries the storage deposit
//! that its creator paid, the balance held at the address, and the record's
//! payload, if one lives there. A plain wallet is a slot without a payload.
//!
//! The store is modelled as a map from addresses (byte strings) to slots.
//! Every operation is atomic: it either commits all of its effects, or
//! returns an error and leaves the map exactly as it was. Closing a record
//! keeps the address known to the store (with an empty, zero-valued slot),
//! and a later creation at that address is allowed.

use vstd::prelude::*;

use crate::addresses::{bytes_eq, copy_bytes};
use crate::errors::StoreError;
use crate::records::Record;

verus! {

/// What one address holds: the creator's storage deposit, the balance held
/// at the address, and the record living there, if any.
pub struct Slot {
    pub deposit: u64,
    pub held: u64,
    pub data: Option<Record>,
}

/// One address together with its slot.
pub struct SlotEntry {
    pub address: Vec<u8>,
    pub slot: Slot,
}

/// The keyed account store.
pub struct Store {
    pub(crate) slots: Vec<SlotEntry>,
}

/// The map that a list of slot entries denotes; a later entry for the same
/// address would win, but well-formed stores keep addresses unique.
pub(crate) open spec fn map_of(s: Seq<SlotEntry>) -> Map<Seq<u8>, Slot>
    decreases s.len(),
{
    if s.len() == 0 {
        Map::empty()
    } else {
        map_of(s.drop_last()).insert(s.last().address@, s.last().slot)
    }
}

/// No two entries share an address.
pub(crate) open spec fn unique_addrs(s: Seq<SlotEntry>) -> bool {
    forall|i: int, j: int|
        0 <= i < j < s.len() ==> #[trigger] s[i].address@ != #[trigger] s[j].address@
}

impl View for Store {
    type V = Map<Seq<u8>, Slot>;

    closed spec fn view(&self) -> Map<Seq<u8>, Slot> {
        map_of(self.slots@)
    }
}

/// The record stored at `a`, if any.
pub open spec fn record_at(m: Map<Seq<u8>, Slot>, a: Seq<u8>) -> Option<Record> {
    if m.contains_key(a) {
        m[a].data
    } else {
        None
    }
}

/// The balance held at `a`; an unknown address holds nothing.
pub open spec fn balance_at(m: Map<Seq<u8>, Slot>, a: Seq<u8>) -> u64 {
    if m.contains_key(a) {
        m[a].held
    } else {
        0
    }
}

/// The storage deposit recorded at `a`.
pub open spec fn deposit_at(m: Map<Seq<u8>, Slot>, a: Seq<u8>) -> u64 {
    if m.contains_key(a) {
        m[a].deposit
    } else {
        0
    }
}

/// The map after taking `amount` out of the balance held at `a`.
/// Meaningful only when `balance_at(m, a) >= amount`.
pub open spec fn debit_map(m: Map<Seq<u8>, Slot>, a: Seq<u8>, amount: u64) -> Map<Seq<u8>, Slot> {
    if m.contains_key(a) {
        m.insert(
            a,
            Slot {
                deposit: m[a].deposit,
                held: (m[a].held - amount) as u64,
                data: m[a].data,
            },
        )
    } else {
        m
    }
}

/// The map after adding `amount` to the balance held at `a`, opening a
/// plain wallet slot when the address is new. Meaningful only when
/// `balance_at(m, a) + amount` fits the balance range.
pub open spec fn credit_map(m: Map<Seq<u8>, Slot>, a: Seq<u8>, amount: u64) -> Map<Seq<u8>, Slot> {
    if m.contains_key(a) {
        m.insert(
            a,
            Slot {
                deposit: m[a].deposit,
                held: (m[a].held + amount) as u64,
                data: m[a].data,
            },
        )
    } else {
        m.insert(a, Slot { deposit: 0, held: amount, data: None })
    }
}

/// Why `create` refuses, or `None` when it commits.
pub open spec fn create_err(
    m: Map<Seq<u8>, Slot>,
    a: Seq<u8>,
    payer: Seq<u8>,
    rec: Record,
    dep: u64,
) -> Option<StoreError> {
    if record_at(m, a) is Some {
        Some(StoreError::AlreadyExists)
    } else if !rec.wf() {
        Some(StoreError::PayloadTooLarge)
    } else if balance_at(m, payer) < dep {
        Some(StoreError::InsufficientBalance)
    } else {
        None
    }
}

/// The store after a committed `create`: the deposit moves from the payer's
/// balance to the new record's slot, which keeps any balance already held
/// at the address.
pub open spec fn create_post(
    m: Map<Seq<u8>, Slot>,
    a: Seq<u8>,
    payer: Seq<u8>,
    rec: Record,
    dep: u64,
) -> Map<Seq<u8>, Slot> {
    let m1 = debit_map(m, payer, dep);
    m1.insert(a, Slot { deposit: dep, held: balance_at(m1, a), data: Some(rec) })
}

/// Why `update` refuses, or `None` when it commits.
pub open spec fn update_err(
    m: Map<Seq<u8>, Slot>,
    a: Seq<u8>,
    signer: Seq<u8>,
    new_rec: Record,
) -> Option<StoreError> {
    match record_at(m, a) {
        None => Some(StoreError::NotFound),
        Some(old_rec) => if signer != old_rec.owner_id() {
            Some(StoreError::Unauthorized)
        } else if !new_rec.wf() {
            Some(StoreError::PayloadTooLarge)
        } else if !old_rec.update_allowed(new_rec) {
            Some(StoreError::InvalidReference)
        } else {
            None
        },
    }
}

/// The store after a committed `update`: the payload is replaced, deposit
/// and held balance stay.
pub open spec fn update_post(
    m: Map<Seq<u8>, Slot>,
    a: Seq<u8>,
    new_rec: Record,
) -> Map<Seq<u8>, Slot> {
    m.insert(a, Slot { deposit: m[a].deposit, held: m[a].held, data: Some(new_rec) })
}

/// Why `close` refuses, or `None` when it commits.
pub open spec fn close_err(m: Map<Seq<u8>, Slot>, a: Seq<u8>, signer: Seq<u8>) -> Option<
    StoreError,
> {
    match record_at(m, a) {
        None => Some(StoreError::NotFound),
        Some(rec) => if signer != rec.owner_id() {
            Some(StoreError::Unauthorized)
        } else {
            let m1 = m.insert(a, Slot { deposit: 0, held: 0, data: None::<Record> });
            if m[a].deposit + m[a].held + balance_at(m1, signer) > u64::MAX {
                Some(StoreError::Overflow)
            } else {
                None
            }
        },
    }
}

/// The store after a committed `close`: the record's slot is emptied and
/// zeroed, and its deposit plus held balance moves to the signer's balance.
pub open spec fn close_post(m: Map<Seq<u8>, Slot>, a: Seq<u8>, signer: Seq<u8>) -> Map<
    Seq<u8>,
    Slot,
> {
    let refund = (m[a].deposit + m[a].held) as u64;
    let m1 = m.insert(a, Slot { deposit: 0, held: 0, data: None::<Record> });
    credit_map(m1, signer, refund)
}

/// The model of the store, spelled out for the ledger's own modules: a
/// well-formed store keeps addresses unique, and its view is the map its
/// entry list denotes.
pub(crate) proof fn store_model(s: Store)
    ensures
        s.wf() == unique_addrs(s.slots@),
        s@ == map_of(s.slots@),
{
}

/// Every index of a well-formed entry list is reflected in its map.
pub(crate) proof fn lemma_map_of_index(s: Seq<SlotEntry>, i: int)
    requires
        unique_addrs(s),
        0 <= i < s.len(),
    ensures
        map_of(s).contains_key(s[i].address@),
        map_of(s)[s[i].address@] == s[i].slot,
    decreases s.len(),
{
    if i < s.len() - 1 {
        assert(unique_addrs(s.drop_last()));
        lemma_map_of_index(s.drop_last(), i);
        assert(s[i].address@ != s.last().address@);
    }
}

/// Every key of the map comes from some index of the entry list.
pub(crate) proof fn lemma_map_of_contains(s: Seq<SlotEntry>, k: Seq<u8>)
    requires
        map_of(s).contains_key(k),
    ensures
        exists|i: int| 0 <= i < s.len() && #[trigger] s[i].address@ == k,
    decreases s.len(),
{
    if s.len() > 0 {
        if s.last().address@ == k {
            assert(s[s.len() - 1].address@ == k);
        } else {
            lemma_map_of_contains(s.drop_last(), k);
            let i = choose|i: int| 0 <= i < s.drop_last().len() && #[trigger] s.drop_last()[i].address@ == k;
            assert(s[i].address@ == k);
        }
    }
}

/// Replacing the slot at one index, address kept, is an insert on the map.
pub(crate) proof fn lemma_map_of_update(s: Seq<SlotEntry>, i: int, e: SlotEntry)
    requires
        unique_addrs(s),
        0 <= i < s.len(),
        e.address@ == s[i].address@,
    ensures
        map_of(s.update(i, e)) == map_of(s).insert(e.address@, e.slot),
        unique_addrs(s.update(i, e)),
    decreases s.len(),
{
    let s2 = s.update(i, e);
    assert(unique_addrs(s2));
    if i == s.len() - 1 {
        assert(s2.drop_last() =~= s.drop_last());
        assert(map_of(s2) =~= map_of(s).insert(e.address@, e.slot));
    } else {
        assert(s2.drop_last() =~= s.drop_last().update(i, e));
        assert(unique_addrs(s.drop_last()));
        lemma_map_of_update(s.drop_last(), i, e);
        assert(s2.last() == s.last());
        assert(e.address@ != s.last().address@);
        assert(map_of(s2) =~= map_of(s).insert(e.address@, e.slot));
    }
}

impl Store {
    /// Addresses are pairwise distinct, so the map model is faithful.
    pub closed spec fn wf(&self) -> bool {
        unique_addrs(self.slots@)
    }

    /// An empty store.
    pub fn new() -> (r: Store)
        ensures
            r.wf(),
            r@ == Map::<Seq<u8>, Slot>::empty(),
    {
        let slots: Vec<SlotEntry> = Vec::new();
        Store { slots }
    }

    /// Find the entry index of an address.
    pub(crate) fn idx_of(&self, address: &Vec<u8>) -> (r: Option<usize>)
        requires
            self.wf(),
        ensures
            match r {
                Some(i) => i < self.slots@.len() && self.slots@[i as int].address@ == address@
                    && self@.contains_key(address@)
                    && self@[address@] == self.slots@[i as int].slot,
                None => !self@.contains_key(address@),
            },
    {
        let mut i: usize = 0;
        while i < self.slots.len()
            invariant
                self.wf(),
                i <= self.slots@.len(),
                forall|j: int| 0 <= j < i ==> #[trigger] self.slots@[j].address@ != address@,
            decreases self.slots@.len() - i,
        {
            if bytes_eq(&self.slots[i].address, address) {
                proof {
                    lemma_map_of_index(self.slots@, i as int);
                }
                return Some(i);
            }
            i = i + 1;
        }
        proof {
            if self@.contains_key(address@) {
                lemma_map_of_contains(self.slots@, address@);
            }
        }
        None
    }

    /// Replace the slot at entry `i`, keeping its address.
    pub(crate) fn set_at(&mut self, i: usize, slot: Slot)
        requires
            old(self).wf(),
            i < old(self).slots@.len(),
        ensures
            final(self).wf(),
            final(self)@ == old(self)@.insert(old(self).slots@[i as int].address@, slot),
    {
        let ghost s0 = self.slots@;
        self.slots[i].slot = slot;
        proof {
            assert(self.slots@ == s0.update(i as int, self.slots@[i as int]));
            lemma_map_of_update(s0, i as int, self.slots@[i as int]);
        }
    }

    /// Add an entry for a fresh address.
    pub(crate) fn push_entry(&mut self, address: &Vec<u8>, slot: Slot)
        requires
            old(self).wf(),
            !old(self)@.contains_key(address@),
        ensures
            final(self).wf(),
            final(self)@ == old(self)@.insert(address@, slot),
    {
        let a = copy_bytes(address);
        let ghost s0 = self.slots@;
        self.slots.push(SlotEntry { address: a, slot });
        proof {
            let s1 = self.slots@;
            assert(s1.drop_last() =~= s0);
            assert(map_of(s1) == map_of(s0).insert(address@, slot));
            assert forall|j: int| 0 <= j < s0.len() implies #[trigger] s0[j].address@
                != address@ by {
                if s0[j].address@ == address@ {
                    lemma_map_of_index(s0, j);
                }
            }
            assert(unique_addrs(s1));
        }
    }

    /// The record stored at an address; absence is a normal empty result.
    pub fn read(&self, address: &Vec<u8>) -> (r: Option<&Record>)
        requires
            self.wf(),
        ensures
            match r {
                Some(rec) => record_at(self@, address@) == Some(*rec),
                None => record_at(self@, address@) is None,
            },
    {
        match self.idx_of(address) {
            Some(i) => {
                match &self.slots[i].slot.data {
                    Some(rec) => Some(rec),
                    None => None,
                }
            },
            None => None,
        }
    }

    /// The balance held at an address.
    pub fn balance_of(&self, address: &Vec<u8>) -> (r: u64)
        requires
            self.wf(),
        ensures
            r == balance_at(self@, address@),
    {
        match self.idx_of(address) {
            Some(i) => self.slots[i].slot.held,
            None => 0,
        }
    }

    /// Add `amount` to the balance held at an address.
    pub(crate) fn credit(&mut self, address: &Vec<u8>, amount: u64)
        requires
            old(self).wf(),
            balance_at(old(self)@, address@) + amount <= u64::MAX,
        ensures
            final(self).wf(),
            final(self)@ == credit_map(old(self)@, address@, amount),
    {
        let ghost s0 = self.slots@;
        match self.idx_of(address) {
            Some(i) => {
                let held = self.slots[i].slot.held;
                self.slots[i].slot.held = held + amount;
                proof {
                    assert(self.slots@ == s0.update(i as int, self.slots@[i as int]));
                    lemma_map_of_update(s0, i as int, self.slots@[i as int]);
                    assert(self@ =~= credit_map(old(self)@, address@, amount));
                }
            },
            None => {
                self.push_entry(address, Slot { deposit: 0, held: amount, data: None });
            },
        }
    }

    /// Take `amount` out of the balance held at an address.
    pub(crate) fn debit(&mut self, address: &Vec<u8>, amount: u64)
        requires
            old(self).wf(),
            balance_at(old(self)@, address@) >= amount,
        ensures
            final(self).wf(),
            final(self)@ == debit_map(old(self)@, address@, amount),
    {
        let ghost s0 = self.slots@;
        match self.idx_of(address) {
            Some(i) => {
                let held = self.slots[i].slot.held;
                self.slots[i].slot.held = held - amount;
                proof {
                    assert(self.slots@ == s0.update(i as int, self.slots@[i as int]));
                    lemma_map_of_update(s0, i as int, self.slots@[i as int]);
                    assert(self@ =~= debit_map(old(self)@, address@, amount));
                }
            },
            None => {
                // The balance of an unknown address is zero, so only a zero
                // debit reaches this arm, and the map is unchanged.
            },
        }
    }

    /// Grant external balance to an address, as the surrounding value
    /// substrate does for the callers of the ledger.
    pub fn fund(&mut self, address: &Vec<u8>, amount: u64) -> (r: Result<(), StoreError>)
        requires
            old(self).wf(),
        ensures
            final(self).wf(),
            match r {
                Ok(_) => balance_at(old(self)@, address@) + amount <= u64::MAX
                    && final(self)@ == credit_map(old(self)@, address@, amount),
                Err(e) => e == StoreError::Overflow
                    && balance_at(old(self)@, address@) + amount > u64::MAX
                    && final(self)@ == old(self)@,
            },
    {
        let bal = self.balance_of(address);
        if amount > u64::MAX - bal {
            return Err(StoreError::Overflow);
        }
        self.credit(address, amount);
        Ok(())
    }

    /// Create a record at an address, debiting the storage deposit from the
    /// payer's balance.
    pub fn create(
        &mut self,
        address: &Vec<u8>,
        payer: &Vec<u8>,
        record: Record,
        deposit: u64,
    ) -> (r: Result<(), StoreError>)
        requires
            old(self).wf(),
        ensures
            final(self).wf(),
            match r {
                Ok(_) => create_err(old(self)@, address@, payer@, record, deposit) is None
                    && final(self)@ == create_post(
                    old(self)@,
                    address@,
                    payer@,
                    record,
                    deposit,
                ),
                Err(e) => Some(e) == create_err(old(self)@, address@, payer@, record, deposit)
                    && final(self)@ == old(self)@,
            },
    {
        let occupied = match self.idx_of(address) {
            Some(i) => self.slots[i].slot.data.is_some(),
            None => false,
        };
        if occupied {
            return Err(StoreError::AlreadyExists);
        }
        if !record.wf_check() {
            return Err(StoreError::PayloadTooLarge);
        }
        if self.balance_of(payer) < deposit {
            return Err(StoreError::InsufficientBalance);
        }
        self.debit(payer, deposit);
        match self.idx_of(address) {
            Some(i) => {
                let held = self.slots[i].slot.held;
                self.set_at(i, Slot { deposit, held, data: Some(record) });
            },
            None => {
                self.push_entry(address, Slot { deposit, held: 0, data: Some(record) });
            },
        }
        proof {
            assert(self@ =~= create_post(old(self)@, address@, payer@, record, deposit));
        }
        Ok(())
    }

    /// Replace the payload of the record at an address. Only the record's
    /// owner may do so, and only where the kind allows a mutation at all:
    /// a journal entry's message may change, everything else is immutable
    /// in place (see `Record::update_allowed`).
    pub fn update(
        &mut self,
        address: &Vec<u8>,
        signer: &Vec<u8>,
        new_record: Record,
    ) -> (r: Result<(), StoreError>)
        requires
            old(self).wf(),
        ensures
            final(self).wf(),
            match r {
                Ok(_) => update_err(old(self)@, address@, signer@, new_record) is None
                    && final(self)@ == update_post(old(self)@, address@, new_record),
                Err(e) => Some(e) == update_err(old(self)@, address@, signer@, new_record)
                    && final(self)@ == old(self)@,
            },
    {
        let i = match self.idx_of(address) {
            Some(i) => i,
            None => {
                return Err(StoreError::NotFound);
            },
        };
        let auth = match &self.slots[i].slot.data {
            Some(old_rec) => crate::auth::require_identity(signer, old_rec.owner()),
            None => {
                return Err(StoreError::NotFound);
            },
        };
        match auth {
            Ok(_) => {},
            Err(e) => {
                return Err(e);
            },
        }
        if !new_record.wf_check() {
            return Err(StoreError::PayloadTooLarge);
        }
        let allowed: bool = match &self.slots[i].slot.data {
            Some(old_rec) => old_rec.update_allowed_check(&new_record),
            None => false,
        };
        if !allowed {
            return Err(StoreError::InvalidReference);
        }
        let deposit = self.slots[i].slot.deposit;
        let held = self.slots[i].slot.held;
        self.set_at(i, Slot { deposit, held, data: Some(new_record) });
        Ok(())
    }

    /// Remove the record at an address, refunding its storage deposit and
    /// held balance to the signer. Only the record's owner may close it.
    pub fn close(&mut self, address: &Vec<u8>, signer: &Vec<u8>) -> (r: Result<(), StoreError>)
        requires
            old(self).wf(),
        ensures
            final(self).wf(),
            match r {
                Ok(_) => close_err(old(self)@, address@, signer@) is None
                    && final(self)@ == close_post(old(self)@, address@, signer@),
                Err(e) => Some(e) == close_err(old(self)@, address@, signer@)
                    && final(self)@ == old(self)@,
            },
    {
        let i = match self.idx_of(address) {
            Some(i) => i,
            None => {
                return Err(StoreError::NotFound);
            },
        };
        let auth = match &self.slots[i].slot.data {
            Some(rec) => crate::auth::require_identity(signer, rec.owner()),
            None => {
                return Err(StoreError::NotFound);
            },
        };
        match auth {
            Ok(_) => {},
            Err(e) => {
                return Err(e);
            },
        }
        let dep = self.slots[i].slot.deposit;
        let held = self.slots[i].slot.held;
        let target_bal: u64 = if bytes_eq(signer, address) {
            0
        } else {
            self.balance_of(signer)
        };
        if (dep as u128) + (held as u128) + (target_bal as u128) > (u64::MAX as u128) {
            return Err(StoreError::Overflow);
        }
        self.set_at(i, Slot { deposit: 0, held: 0, data: None });
        let refund = dep + held;
        proof {
            assert(balance_at(self@, signer@) == target_bal);
        }
        self.credit(signer, refund);
        proof {
            assert(self@ =~= close_post(old(self)@, address@, signer@));
        }
        Ok(())
    }
}

/// Creating a record and then reading its address returns exactly the
/// payload that was created.
pub proof fn lemma_create_then_read(
    m: Map<Seq<u8>, Slot>,
    a: Seq<u8>,
    payer: Seq<u8>,
    rec: Record,
    dep: u64,
)
    requires
        create_err(m, a, payer, rec, dep) is None,
    ensures
        record_at(create_post(m, a, payer, rec, dep), a) == Some(rec),
{
}

/// A record's owning identity never changes after creation: whatever
/// payload a committed `update` writes, the owner it leaves behind is the
/// owner that was there before.
pub proof fn lemma_update_preserves_owner(
    m: Map<Seq<u8>, Slot>,
    a: Seq<u8>,
    signer: Seq<u8>,
    new_rec: Record,
)
    requires
        update_err(m, a, signer, new_rec) is None,
    ensures
        record_at(update_post(m, a, new_rec), a) == Some(new_rec),
        new_rec.owner_id() == record_at(m, a)->0.owner_id(),
{
}

/// Closing a record empties its address and refunds its storage deposit
/// (plus any balance its slot held) to the signer's external balance.
pub proof fn lemma_close_then_read(m: Map<Seq<u8>, Slot>, a: Seq<u8>, signer: Seq<u8>)
    requires
        close_err(m, a, signer) is None,
        signer != a,
    ensures
        record_at(close_post(m, a, signer), a) is None,
        balance_at(close_post(m, a, signer), signer) == balance_at(m, signer) + deposit_at(m, a)
            + balance_at(m, a),
{
    let m1 = m.insert(a, Slot { deposit: 0, held: 0, data: None::<Record> });
    assert(balance_at(m1, signer) == balance_at(m, signer));
}

} // verus!
