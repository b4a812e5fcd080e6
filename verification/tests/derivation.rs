use anchor_lang::solana_program::pubkey::Pubkey;
use pda_ledger::addresses::{content_digest, program_id_vec, seeds2};

fn id(b: u8) -> Vec<u8> {
    vec![b; 32]
}

#[test]
fn derive_is_deterministic() {
    let ns = program_id_vec();
    let seeds = seeds2(b"Day1".to_vec(), id(1));
    let first = pda_ledger::addresses::derive(&ns, &seeds).unwrap();
    let second = pda_ledger::addresses::derive(&ns, &seeds).unwrap();
    assert_eq!(first.0, second.0);
    assert_eq!(first.1, second.1);
}

#[test]
fn distinct_seeds_give_distinct_addresses() {
    let ns = program_id_vec();
    let mut addresses: Vec<Vec<u8>> = Vec::new();
    for a in 0..10u8 {
        for b in 0..10u8 {
            let seeds = seeds2(vec![a, a, a], id(b));
            addresses.push(pda_ledger::addresses::derive(&ns, &seeds).unwrap().0);
        }
    }
    for i in 0..addresses.len() {
        for j in 0..i {
            assert_ne!(addresses[i], addresses[j]);
        }
    }
}

#[test]
fn derive_matches_the_program_address_search() {
    let ns = program_id_vec();
    let owner = id(9);
    let seeds = seeds2(b"Day1".to_vec(), owner.clone());
    let (addr, bump) = pda_ledger::addresses::derive(&ns, &seeds).unwrap();

    let pid = Pubkey::new_from_array([29u8; 32]);
    let (expected, expected_bump) = Pubkey::find_program_address(&[b"Day1", &owner], &pid);
    assert_eq!(addr, expected.to_bytes().to_vec());
    assert_eq!(bump, expected_bump);
    assert_eq!(addr.len(), 32);
}

#[test]
fn derive_refuses_an_oversized_seed() {
    let ns = program_id_vec();
    let seeds = seeds2(vec![7u8; 33], id(1));
    assert!(pda_ledger::addresses::derive(&ns, &seeds).is_err());
}

#[test]
fn content_digest_matches_sha256() {
    let digest = content_digest(&b"Hello".to_vec());
    let expected = anchor_lang::solana_program::hash::hash(b"Hello");
    assert_eq!(digest, expected.to_bytes().to_vec());
    assert_eq!(digest.len(), 32);
    let other = content_digest(&b"Hello!".to_vec());
    assert_ne!(digest, other);
}
