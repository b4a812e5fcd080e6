//! Deterministic address derivation.
//!
//! A record's store key is derived from a 32-byte namespace tag and an
//! ordered list of seed byte strings. The derivation is a pure function of
//! those inputs: identical inputs always give the identical 32-byte address
//! and disambiguation byte (the "bump"). A seed longer than the seed-length
//! budget of the underlying derivation makes the derivation fail; a caller
//! with an oversized payload first reduces it through [`content_digest`].

use vstd::prelude::*;

use crate::errors::StoreError;

verus! {

/// The address and bump that the program-address derivation yields for the
/// given seeds under the given namespace, or `None` when the seeds are over
/// the derivation's budget (or no bump works, which is statistically
/// improbable).
pub uninterp spec fn pda_of(seeds: Seq<Seq<u8>>, namespace: Seq<u8>) -> Option<(Seq<u8>, u8)>;

/// The SHA-256 digest of `data`.
pub uninterp spec fn sha_of(data: Seq<u8>) -> Seq<u8>;

/// The byte strings that a list of seed vectors holds.
pub open spec fn views_of(seeds: Seq<Vec<u8>>) -> Seq<Seq<u8>> {
    seeds.map_values(|s: Vec<u8>| s@)
}

/// Relies on `Pubkey::try_find_program_address` of anchor_lang's
/// solana_program: the result is a pure function of the seeds and the
/// program id, a returned address is always 32 bytes wide, and `None` comes
/// back when no valid address exists for these inputs.
#[verifier::external_body]
fn find_address(seeds: &Vec<Vec<u8>>, namespace: &Vec<u8>) -> (r: Option<(Vec<u8>, u8)>)
    requires
        namespace@.len() == 32,
    ensures
        match r {
            Some(p) => pda_of(views_of(seeds@), namespace@) == Some((p.0@, p.1))
                && p.0@.len() == 32,
            None => pda_of(views_of(seeds@), namespace@) is None,
        },
{
    let refs: Vec<&[u8]> = seeds.iter().map(|s| s.as_slice()).collect();
    let arr: [u8; 32] = namespace.as_slice().try_into().unwrap();
    let program = anchor_lang::solana_program::pubkey::Pubkey::new_from_array(arr);
    anchor_lang::solana_program::pubkey::Pubkey::try_find_program_address(&refs, &program)
        .map(|(pk, bump)| (pk.to_bytes().to_vec(), bump))
}

/// Relies on `hash` of anchor_lang's solana_program (SHA-256): the digest is
/// a pure function of the input bytes and is always 32 bytes wide.
#[verifier::external_body]
fn hash_bytes(data: &Vec<u8>) -> (r: Vec<u8>)
    ensures
        r@ == sha_of(data@),
        r@.len() == 32,
{
    anchor_lang::solana_program::hash::hash(data.as_slice())
        .to_bytes()
        .to_vec()
}

/// Derive the store address for `seeds` under `namespace`.
///
/// Pure: the result depends on the arguments alone, so repeated calls with
/// identical inputs return identical addresses. A seed over the derivation's
/// budget is refused with `PayloadTooLarge`.
pub fn derive(namespace: &Vec<u8>, seeds: &Vec<Vec<u8>>) -> (r: Result<(Vec<u8>, u8), StoreError>)
    requires
        namespace@.len() == 32,
    ensures
        match r {
            Ok(p) => pda_of(views_of(seeds@), namespace@) == Some((p.0@, p.1))
                && p.0@.len() == 32,
            Err(e) => e == StoreError::PayloadTooLarge
                && pda_of(views_of(seeds@), namespace@) is None,
        },
{
    match find_address(seeds, namespace) {
        Some(p) => Ok(p),
        None => Err(StoreError::PayloadTooLarge),
    }
}

/// Reduce a variable-length payload to a fixed-width seed.
pub fn content_digest(data: &Vec<u8>) -> (r: Vec<u8>)
    ensures
        r@ == sha_of(data@),
        r@.len() == 32,
{
    hash_bytes(data)
}

/// Build a two-seed list.
pub fn seeds2(a: Vec<u8>, b: Vec<u8>) -> (r: Vec<Vec<u8>>)
    ensures
        views_of(r@) == seq![a@, b@],
{
    let ghost ga = a@;
    let ghost gb = b@;
    let mut v: Vec<Vec<u8>> = Vec::new();
    v.push(a);
    v.push(b);
    proof {
        assert(views_of(v@) =~= seq![ga, gb]);
    }
    v
}

/// Build a three-seed list.
pub fn seeds3(a: Vec<u8>, b: Vec<u8>, c: Vec<u8>) -> (r: Vec<Vec<u8>>)
    ensures
        views_of(r@) == seq![a@, b@, c@],
{
    let ghost ga = a@;
    let ghost gb = b@;
    let ghost gc = c@;
    let mut v: Vec<Vec<u8>> = Vec::new();
    v.push(a);
    v.push(b);
    v.push(c);
    proof {
        assert(views_of(v@) =~= seq![ga, gb, gc]);
    }
    v
}

/// The process-wide namespace tag under which every record of this ledger
/// derives its address.
pub open spec fn program_id() -> Seq<u8> {
    Seq::new(32, |i: int| 29u8)
}

/// The namespace tag as a byte vector.
pub fn program_id_vec() -> (r: Vec<u8>)
    ensures
        r@ == program_id(),
{
    let mut v: Vec<u8> = Vec::new();
    let mut i: usize = 0;
    while i < 32
        invariant
            i <= 32,
            v@ =~= Seq::new(i as nat, |j: int| 29u8),
        decreases 32 - i,
    {
        v.push(29u8);
        i = i + 1;
    }
    proof {
        assert(v@ =~= program_id());
    }
    v
}

/// Address derivation is pure: equal namespaces and equal seed lists give
/// the identical address and bump, however often the derivation runs.
pub proof fn lemma_derive_deterministic(
    ns1: Seq<u8>,
    s1: Seq<Seq<u8>>,
    ns2: Seq<u8>,
    s2: Seq<Seq<u8>>,
)
    requires
        ns1 == ns2,
        s1 == s2,
    ensures
        pda_of(s1, ns1) == pda_of(s2, ns2),
{
}

/// Copy a byte vector.
pub fn copy_bytes(a: &Vec<u8>) -> (r: Vec<u8>)
    ensures
        r@ == a@,
{
    let mut v: Vec<u8> = Vec::new();
    let mut i: usize = 0;
    while i < a.len()
        invariant
            i <= a@.len(),
            v@ =~= a@.subrange(0, i as int),
        decreases a@.len() - i,
    {
        v.push(a[i]);
        i = i + 1;
    }
    proof {
        assert(v@ =~= a@);
    }
    v
}

/// Decide whether two byte vectors hold the same bytes.
pub fn bytes_eq(a: &Vec<u8>, b: &Vec<u8>) -> (r: bool)
    ensures
        r == (a@ == b@),
{
    if a.len() != b.len() {
        proof {
            assert(a@ != b@);
        }
        return false;
    }
    let mut i: usize = 0;
    while i < a.len()
        invariant
            i <= a@.len(),
            a@.len() == b@.len(),
            forall|j: int| 0 <= j < i ==> a@[j] == b@[j],
        decreases a@.len() - i,
    {
        if a[i] != b[i] {
            return false;
        }
        i = i + 1;
    }
    proof {
        assert(a@ =~= b@);
    }
    true
}

} // verus!
