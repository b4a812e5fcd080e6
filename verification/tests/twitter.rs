use pda_ledger::addresses::{content_digest, program_id_vec, seeds3};
use pda_ledger::errors::StoreError;
use pda_ledger::records::{ReactionType, Record};
use pda_ledger::store::Store;
use pda_ledger::twitter::{
    add_comment, add_reaction, comment_tag_vec, initialize_tweet, reaction_tag_vec,
    remove_comment, remove_reaction,
};

fn id(b: u8) -> Vec<u8> {
    vec![b; 32]
}

/// A funded author with one tweet.
fn tweet_setup(author: u8) -> (Store, Vec<u8>, Vec<u8>) {
    let mut store = Store::new();
    let auth = id(author);
    store.fund(&auth, 10_000).unwrap();
    let addr = initialize_tweet(
        &mut store,
        auth.clone(),
        b"topic".to_vec(),
        b"first post".to_vec(),
        100,
    )
    .unwrap();
    (store, addr, auth)
}

fn tweet_counters(store: &Store, addr: &Vec<u8>) -> (u64, u64) {
    match store.read(addr) {
        Some(Record::Tweet(t)) => (t.likes, t.dislikes),
        _ => panic!("expected a tweet"),
    }
}

#[test]
fn a_new_tweet_starts_with_zero_counters() {
    let (store, addr, auth) = tweet_setup(1);
    match store.read(&addr) {
        Some(Record::Tweet(t)) => {
            assert_eq!(t.tweet_author, auth);
            assert_eq!(t.topic, b"topic".to_vec());
            assert_eq!(t.content, b"first post".to_vec());
            assert_eq!(t.likes, 0);
            assert_eq!(t.dislikes, 0);
        }
        _ => panic!("expected the tweet back"),
    }
}

#[test]
fn initialize_tweet_refuses_oversized_fields() {
    let mut store = Store::new();
    let auth = id(1);
    store.fund(&auth, 1_000).unwrap();
    let err = initialize_tweet(&mut store, auth.clone(), vec![7u8; 33], b"x".to_vec(), 0)
        .unwrap_err();
    assert_eq!(err, StoreError::PayloadTooLarge);
    let err = initialize_tweet(&mut store, auth.clone(), b"t".to_vec(), vec![7u8; 501], 0)
        .unwrap_err();
    assert_eq!(err, StoreError::PayloadTooLarge);
}

#[test]
fn a_reaction_counts_once_and_only_once() {
    let (mut store, taddr, _auth) = tweet_setup(1);
    let reader = id(2);
    store.fund(&reader, 1_000).unwrap();
    add_reaction(&mut store, taddr.clone(), reader.clone(), ReactionType::Like, 10).unwrap();
    assert_eq!(tweet_counters(&store, &taddr), (1, 0));

    let err = add_reaction(&mut store, taddr.clone(), reader.clone(), ReactionType::Like, 10)
        .unwrap_err();
    assert_eq!(err, StoreError::AlreadyExists);
    assert_eq!(tweet_counters(&store, &taddr), (1, 0));

    // Even a different kind by the same author lands on the same address.
    let err = add_reaction(&mut store, taddr.clone(), reader.clone(), ReactionType::Dislike, 10)
        .unwrap_err();
    assert_eq!(err, StoreError::AlreadyExists);
    assert_eq!(tweet_counters(&store, &taddr), (1, 0));
}

#[test]
fn reactions_by_different_authors_count_separately() {
    let (mut store, taddr, _auth) = tweet_setup(1);
    for reader in [2u8, 3, 4] {
        store.fund(&id(reader), 100).unwrap();
        add_reaction(&mut store, taddr.clone(), id(reader), ReactionType::Like, 10).unwrap();
    }
    store.fund(&id(5), 100).unwrap();
    add_reaction(&mut store, taddr.clone(), id(5), ReactionType::Dislike, 10).unwrap();
    assert_eq!(tweet_counters(&store, &taddr), (3, 1));
}

#[test]
fn the_reaction_address_follows_its_seeds() {
    let (mut store, taddr, _auth) = tweet_setup(1);
    let reader = id(2);
    store.fund(&reader, 100).unwrap();
    let raddr =
        add_reaction(&mut store, taddr.clone(), reader.clone(), ReactionType::Like, 10).unwrap();
    let ns = program_id_vec();
    let expected = pda_ledger::addresses::derive(&ns, &seeds3(reaction_tag_vec(), taddr.clone(), reader.clone()))
        .unwrap()
        .0;
    assert_eq!(raddr, expected);
    match store.read(&raddr) {
        Some(Record::Reaction(rx)) => {
            assert_eq!(rx.reaction_author, reader);
            assert_eq!(rx.parent_tweet, taddr);
            assert_eq!(rx.reaction, ReactionType::Like);
        }
        _ => panic!("expected the reaction back"),
    }
}

#[test]
fn remove_reaction_rolls_the_counter_back() {
    let (mut store, taddr, _auth) = tweet_setup(1);
    let reader = id(2);
    store.fund(&reader, 1_000).unwrap();
    let raddr =
        add_reaction(&mut store, taddr.clone(), reader.clone(), ReactionType::Like, 10).unwrap();
    let before = store.balance_of(&reader);
    remove_reaction(&mut store, &taddr, &reader).unwrap();
    assert_eq!(tweet_counters(&store, &taddr), (0, 0));
    assert!(store.read(&raddr).is_none());
    assert_eq!(store.balance_of(&reader), before + 10);
    // After removal the same author may react again.
    add_reaction(&mut store, taddr.clone(), reader.clone(), ReactionType::Dislike, 10).unwrap();
    assert_eq!(tweet_counters(&store, &taddr), (0, 1));
}

#[test]
fn remove_reaction_by_a_stranger_finds_nothing() {
    let (mut store, taddr, _auth) = tweet_setup(1);
    let reader = id(2);
    store.fund(&reader, 100).unwrap();
    add_reaction(&mut store, taddr.clone(), reader.clone(), ReactionType::Like, 10).unwrap();
    // A stranger's derivation points at an address with no reaction.
    let err = remove_reaction(&mut store, &taddr, &id(3)).unwrap_err();
    assert_eq!(err, StoreError::NotFound);
    assert_eq!(tweet_counters(&store, &taddr), (1, 0));
}

#[test]
fn remove_reaction_at_an_empty_counter_underflows() {
    let (mut store, taddr, _auth) = tweet_setup(1);
    let reader = id(2);
    store.fund(&reader, 100).unwrap();
    // Plant the reaction record directly, without moving the counter, to
    // drive the checked decrement into its floor.
    let ns = program_id_vec();
    let raddr = pda_ledger::addresses::derive(&ns, &seeds3(reaction_tag_vec(), taddr.clone(), reader.clone()))
        .unwrap()
        .0;
    store
        .create(
            &raddr,
            &reader,
            Record::Reaction(pda_ledger::records::Reaction {
                reaction_author: reader.clone(),
                parent_tweet: taddr.clone(),
                reaction: ReactionType::Like,
            }),
            10,
        )
        .unwrap();
    let err = remove_reaction(&mut store, &taddr, &reader).unwrap_err();
    assert_eq!(err, StoreError::Underflow);
    assert!(store.read(&raddr).is_some());
}

#[test]
fn a_comment_lives_at_the_digest_of_its_content() {
    let (mut store, taddr, _auth) = tweet_setup(1);
    let reader = id(2);
    store.fund(&reader, 1_000).unwrap();
    let caddr = add_comment(&mut store, taddr.clone(), reader.clone(), b"Nice".to_vec(), 10)
        .unwrap();
    let ns = program_id_vec();
    let expected = pda_ledger::addresses::derive(
        &ns,
        &seeds3(comment_tag_vec(), taddr.clone(), content_digest(&b"Nice".to_vec())),
    )
    .unwrap()
    .0;
    assert_eq!(caddr, expected);
    match store.read(&caddr) {
        Some(Record::Comment(c)) => {
            assert_eq!(c.comment_author, reader);
            assert_eq!(c.parent_tweet, taddr);
            assert_eq!(c.content, b"Nice".to_vec());
        }
        _ => panic!("expected the comment back"),
    }
}

#[test]
fn the_same_comment_cannot_be_added_twice() {
    let (mut store, taddr, _auth) = tweet_setup(1);
    let reader = id(2);
    store.fund(&reader, 1_000).unwrap();
    add_comment(&mut store, taddr.clone(), reader.clone(), b"Nice".to_vec(), 10).unwrap();
    let err = add_comment(&mut store, taddr.clone(), reader.clone(), b"Nice".to_vec(), 10)
        .unwrap_err();
    assert_eq!(err, StoreError::AlreadyExists);
    add_comment(&mut store, taddr.clone(), reader.clone(), b"Nicer".to_vec(), 10).unwrap();
}

#[test]
fn comments_need_an_existing_tweet() {
    let mut store = Store::new();
    let reader = id(2);
    store.fund(&reader, 100).unwrap();
    let err = add_comment(&mut store, id(77), reader.clone(), b"Nice".to_vec(), 10).unwrap_err();
    assert_eq!(err, StoreError::NotFound);
}

#[test]
fn comment_content_over_the_budget_is_refused() {
    let (mut store, taddr, _auth) = tweet_setup(1);
    let reader = id(2);
    store.fund(&reader, 100).unwrap();
    let err = add_comment(&mut store, taddr.clone(), reader.clone(), vec![7u8; 501], 10)
        .unwrap_err();
    assert_eq!(err, StoreError::PayloadTooLarge);
}

#[test]
fn remove_comment_by_a_stranger_is_unauthorized() {
    let (mut store, taddr, _auth) = tweet_setup(1);
    let reader = id(2);
    store.fund(&reader, 1_000).unwrap();
    let caddr = add_comment(&mut store, taddr.clone(), reader.clone(), b"Nice".to_vec(), 10)
        .unwrap();
    let err = remove_comment(&mut store, &caddr, &id(3)).unwrap_err();
    assert_eq!(err, StoreError::Unauthorized);
    assert!(store.read(&caddr).is_some());
}

#[test]
fn remove_comment_by_its_author_refunds() {
    let (mut store, taddr, _auth) = tweet_setup(1);
    let reader = id(2);
    store.fund(&reader, 1_000).unwrap();
    let caddr = add_comment(&mut store, taddr.clone(), reader.clone(), b"Nice".to_vec(), 10)
        .unwrap();
    let before = store.balance_of(&reader);
    remove_comment(&mut store, &caddr, &reader).unwrap();
    assert!(store.read(&caddr).is_none());
    assert_eq!(store.balance_of(&reader), before + 10);
}

#[test]
fn remove_reaction_checks_the_tweet_reference() {
    let (mut store, taddr, _auth) = tweet_setup(1);
    let reader = id(2);
    store.fund(&reader, 100).unwrap();
    // Plant a reaction at the address derived for this tweet whose stored
    // parent points elsewhere: the reference check must refuse it.
    let ns = program_id_vec();
    let raddr = pda_ledger::addresses::derive(
        &ns,
        &seeds3(reaction_tag_vec(), taddr.clone(), reader.clone()),
    )
    .unwrap()
    .0;
    store
        .create(
            &raddr,
            &reader,
            Record::Reaction(pda_ledger::records::Reaction {
                reaction_author: reader.clone(),
                parent_tweet: id(99),
                reaction: ReactionType::Like,
            }),
            10,
        )
        .unwrap();
    let err = remove_reaction(&mut store, &taddr, &reader).unwrap_err();
    assert_eq!(err, StoreError::InvalidReference);
    assert!(store.read(&raddr).is_some());
}
