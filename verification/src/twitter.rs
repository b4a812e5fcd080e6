//! Tweets, comments and reactions.
//!
//! A tweet's address derives from its topic and its author; a comment's
//! from its parent tweet and the digest of its content; a reaction's from
//! its parent tweet and its author. The last pair makes "at most one
//! reaction per author per tweet" a plain consequence of the store's
//! one-record-per-address rule, and the reaction counters on the tweet move
//! in the same atomic step as the reaction record itself.

use vstd::prelude::*;

use crate::addresses::{bytes_eq, copy_bytes, pda_of, program_id, program_id_vec, seeds3, sha_of};
use crate::counter::{checked_decrement, checked_increment};
use crate::errors::StoreError;
use crate::records::{
    Comment, Reaction, ReactionType, Record, Tweet, COMMENT_MAX, CONTENT_MAX, ID_LEN, TOPIC_MAX,
};
use crate::store::{
    balance_at, close_err, close_post, create_err, create_post, debit_map, lemma_map_of_update,
    record_at, store_model, Slot, Store,
};

verus! {

/// The fixed leading seed of every tweet address: the bytes of
/// "TWEET_SEED".
pub open spec fn tweet_tag() -> Seq<u8> {
    seq![84u8, 87u8, 69u8, 69u8, 84u8, 95u8, 83u8, 69u8, 69u8, 68u8]
}

/// The tweet tag as a byte vector.
pub fn tweet_tag_vec() -> (r: Vec<u8>)
    ensures
        r@ == tweet_tag(),
{
    let mut v: Vec<u8> = Vec::new();
    v.push(84);
    v.push(87);
    v.push(69);
    v.push(69);
    v.push(84);
    v.push(95);
    v.push(83);
    v.push(69);
    v.push(69);
    v.push(68);
    proof {
        assert(v@ =~= tweet_tag());
    }
    v
}

/// The fixed leading seed of every comment address: the bytes of
/// "COMMENT_SEED".
pub open spec fn comment_tag() -> Seq<u8> {
    seq![67u8, 79u8, 77u8, 77u8, 69u8, 78u8, 84u8, 95u8, 83u8, 69u8, 69u8, 68u8]
}

/// The comment tag as a byte vector.
pub fn comment_tag_vec() -> (r: Vec<u8>)
    ensures
        r@ == comment_tag(),
{
    let mut v: Vec<u8> = Vec::new();
    v.push(67);
    v.push(79);
    v.push(77);
    v.push(77);
    v.push(69);
    v.push(78);
    v.push(84);
    v.push(95);
    v.push(83);
    v.push(69);
    v.push(69);
    v.push(68);
    proof {
        assert(v@ =~= comment_tag());
    }
    v
}

/// The fixed leading seed of every reaction address: the bytes of
/// "TWEET_REACTION_SEED".
pub open spec fn reaction_tag() -> Seq<u8> {
    seq![
        84u8,
        87u8,
        69u8,
        69u8,
        84u8,
        95u8,
        82u8,
        69u8,
        65u8,
        67u8,
        84u8,
        73u8,
        79u8,
        78u8,
        95u8,
        83u8,
        69u8,
        69u8,
        68u8,
    ]
}

/// The reaction tag as a byte vector.
pub fn reaction_tag_vec() -> (r: Vec<u8>)
    ensures
        r@ == reaction_tag(),
{
    let mut v: Vec<u8> = Vec::new();
    v.push(84);
    v.push(87);
    v.push(69);
    v.push(69);
    v.push(84);
    v.push(95);
    v.push(82);
    v.push(69);
    v.push(65);
    v.push(67);
    v.push(84);
    v.push(73);
    v.push(79);
    v.push(78);
    v.push(95);
    v.push(83);
    v.push(69);
    v.push(69);
    v.push(68);
    proof {
        assert(v@ =~= reaction_tag());
    }
    v
}

/// The address of a tweet: derived from its topic and its author.
pub open spec fn tweet_addr(topic: Seq<u8>, author: Seq<u8>) -> Option<(Seq<u8>, u8)> {
    pda_of(seq![tweet_tag(), topic, author], program_id())
}

/// The address of a comment: derived from its parent tweet and the digest
/// of its content.
pub open spec fn comment_addr(tweet: Seq<u8>, content: Seq<u8>) -> Option<(Seq<u8>, u8)> {
    pda_of(seq![comment_tag(), tweet, sha_of(content)], program_id())
}

/// The address of a reaction: derived from its parent tweet and its author.
pub open spec fn reaction_addr(tweet: Seq<u8>, author: Seq<u8>) -> Option<(Seq<u8>, u8)> {
    pda_of(seq![reaction_tag(), tweet, author], program_id())
}

/// The tweet with one counter moved up for `kind`.
pub open spec fn bumped(t: Tweet, kind: ReactionType) -> Tweet {
    Tweet {
        tweet_author: t.tweet_author,
        topic: t.topic,
        content: t.content,
        likes: if kind is Like {
            (t.likes + 1) as u64
        } else {
            t.likes
        },
        dislikes: if kind is Dislike {
            (t.dislikes + 1) as u64
        } else {
            t.dislikes
        },
    }
}

/// The tweet with one counter moved down for `kind`.
pub open spec fn dropped(t: Tweet, kind: ReactionType) -> Tweet {
    Tweet {
        tweet_author: t.tweet_author,
        topic: t.topic,
        content: t.content,
        likes: if kind is Like {
            (t.likes - 1) as u64
        } else {
            t.likes
        },
        dislikes: if kind is Dislike {
            (t.dislikes - 1) as u64
        } else {
            t.dislikes
        },
    }
}

/// Whether the counter for `kind` is at the top of its range.
pub open spec fn counter_full(t: Tweet, kind: ReactionType) -> bool {
    (kind is Like && t.likes == u64::MAX) || (kind is Dislike && t.dislikes == u64::MAX)
}

/// Whether the counter for `kind` is at zero.
pub open spec fn counter_empty(t: Tweet, kind: ReactionType) -> bool {
    (kind is Like && t.likes == 0) || (kind is Dislike && t.dislikes == 0)
}

/// Why `initialize_tweet` refuses, or `None` when it commits.
pub open spec fn initialize_tweet_err(
    m: Map<Seq<u8>, Slot>,
    author: Vec<u8>,
    topic: Vec<u8>,
    content: Vec<u8>,
    dep: u64,
) -> Option<StoreError> {
    let rec = Record::Tweet(
        Tweet { tweet_author: author, topic, content, likes: 0, dislikes: 0 },
    );
    if !rec.wf() {
        Some(StoreError::PayloadTooLarge)
    } else {
        match tweet_addr(topic@, author@) {
            None => Some(StoreError::PayloadTooLarge),
            Some(p) => create_err(m, p.0, author@, rec, dep),
        }
    }
}

/// The store after a committed `initialize_tweet`.
pub open spec fn initialize_tweet_post(
    m: Map<Seq<u8>, Slot>,
    author: Vec<u8>,
    topic: Vec<u8>,
    content: Vec<u8>,
    dep: u64,
) -> Map<Seq<u8>, Slot> {
    let rec = Record::Tweet(
        Tweet { tweet_author: author, topic, content, likes: 0, dislikes: 0 },
    );
    match tweet_addr(topic@, author@) {
        None => m,
        Some(p) => create_post(m, p.0, author@, rec, dep),
    }
}

/// Create a tweet with both counters at zero; the author pays the storage
/// deposit. Returns the derived address.
pub fn initialize_tweet(
    store: &mut Store,
    author: Vec<u8>,
    topic: Vec<u8>,
    content: Vec<u8>,
    deposit: u64,
) -> (r: Result<Vec<u8>, StoreError>)
    requires
        old(store).wf(),
    ensures
        final(store).wf(),
        match r {
            Ok(a) => initialize_tweet_err(old(store)@, author, topic, content, deposit) is None
                && final(store)@ == initialize_tweet_post(
                old(store)@,
                author,
                topic,
                content,
                deposit,
            ) && (match tweet_addr(topic@, author@) {
                Some(p) => a@ == p.0,
                None => false,
            }),
            Err(e) => Some(e) == initialize_tweet_err(old(store)@, author, topic, content, deposit)
                && final(store)@ == old(store)@,
        },
{
    if !(author.len() == ID_LEN && topic.len() <= TOPIC_MAX && content.len() <= CONTENT_MAX) {
        return Err(StoreError::PayloadTooLarge);
    }
    let namespace = program_id_vec();
    let seeds = seeds3(tweet_tag_vec(), copy_bytes(&topic), copy_bytes(&author));
    let addr = match crate::addresses::derive(&namespace, &seeds) {
        Ok(p) => p.0,
        Err(_) => {
            return Err(StoreError::PayloadTooLarge);
        },
    };
    let payer = copy_bytes(&author);
    let rec = Record::Tweet(Tweet { tweet_author: author, topic, content, likes: 0, dislikes: 0 });
    match store.create(&addr, &payer, rec, deposit) {
        Ok(_) => Ok(addr),
        Err(e) => Err(e),
    }
}

/// Why `add_comment` refuses, or `None` when it commits.
pub open spec fn add_comment_err(
    m: Map<Seq<u8>, Slot>,
    tweet_address: Vec<u8>,
    author: Vec<u8>,
    content: Vec<u8>,
    dep: u64,
) -> Option<StoreError> {
    let rec = Record::Comment(
        Comment { comment_author: author, parent_tweet: tweet_address, content },
    );
    match record_at(m, tweet_address@) {
        None => Some(StoreError::NotFound),
        Some(Record::Tweet(_)) => if !rec.wf() {
            Some(StoreError::PayloadTooLarge)
        } else {
            match comment_addr(tweet_address@, content@) {
                None => Some(StoreError::PayloadTooLarge),
                Some(p) => create_err(m, p.0, author@, rec, dep),
            }
        },
        Some(_) => Some(StoreError::InvalidReference),
    }
}

/// The store after a committed `add_comment`.
pub open spec fn add_comment_post(
    m: Map<Seq<u8>, Slot>,
    tweet_address: Vec<u8>,
    author: Vec<u8>,
    content: Vec<u8>,
    dep: u64,
) -> Map<Seq<u8>, Slot> {
    let rec = Record::Comment(
        Comment { comment_author: author, parent_tweet: tweet_address, content },
    );
    match comment_addr(tweet_address@, content@) {
        None => m,
        Some(p) => create_post(m, p.0, author@, rec, dep),
    }
}

/// Comment on an existing tweet; the author pays the storage deposit. The
/// comment's address binds its content, so a stored comment is immutable.
/// Returns the derived address.
pub fn add_comment(
    store: &mut Store,
    tweet_address: Vec<u8>,
    author: Vec<u8>,
    content: Vec<u8>,
    deposit: u64,
) -> (r: Result<Vec<u8>, StoreError>)
    requires
        old(store).wf(),
    ensures
        final(store).wf(),
        match r {
            Ok(a) => add_comment_err(old(store)@, tweet_address, author, content, deposit) is None
                && final(store)@ == add_comment_post(
                old(store)@,
                tweet_address,
                author,
                content,
                deposit,
            ) && (match comment_addr(tweet_address@, content@) {
                Some(p) => a@ == p.0,
                None => false,
            }),
            Err(e) => Some(e) == add_comment_err(old(store)@, tweet_address, author, content, deposit)
                && final(store)@ == old(store)@,
        },
{
    match store.read(&tweet_address) {
        Some(Record::Tweet(_)) => {},
        Some(_) => {
            return Err(StoreError::InvalidReference);
        },
        None => {
            return Err(StoreError::NotFound);
        },
    }
    if !(author.len() == ID_LEN && tweet_address.len() == ID_LEN && content.len() <= COMMENT_MAX) {
        return Err(StoreError::PayloadTooLarge);
    }
    let digest = crate::addresses::content_digest(&content);
    let namespace = program_id_vec();
    let seeds = seeds3(comment_tag_vec(), copy_bytes(&tweet_address), digest);
    let addr = match crate::addresses::derive(&namespace, &seeds) {
        Ok(p) => p.0,
        Err(_) => {
            return Err(StoreError::PayloadTooLarge);
        },
    };
    let payer = copy_bytes(&author);
    let rec = Record::Comment(Comment { comment_author: author, parent_tweet: tweet_address, content });
    match store.create(&addr, &payer, rec, deposit) {
        Ok(_) => Ok(addr),
        Err(e) => Err(e),
    }
}

/// Why `remove_comment` refuses, or `None` when it commits.
pub open spec fn remove_comment_err(
    m: Map<Seq<u8>, Slot>,
    comment_address: Seq<u8>,
    signer: Seq<u8>,
) -> Option<StoreError> {
    match record_at(m, comment_address) {
        None => Some(StoreError::NotFound),
        Some(Record::Comment(c)) => if signer != c.comment_author@ {
            Some(StoreError::Unauthorized)
        } else if !(match comment_addr(c.parent_tweet@, c.content@) {
            Some(p) => p.0 == comment_address,
            None => false,
        }) {
            Some(StoreError::InvalidReference)
        } else {
            close_err(m, comment_address, signer)
        },
        Some(_) => Some(StoreError::InvalidReference),
    }
}

/// The store after a committed `remove_comment`.
pub open spec fn remove_comment_post(
    m: Map<Seq<u8>, Slot>,
    comment_address: Seq<u8>,
    signer: Seq<u8>,
) -> Map<Seq<u8>, Slot> {
    close_post(m, comment_address, signer)
}

/// Close a comment, refunding its storage deposit to the signer. Only the
/// comment's author may do so, and the comment's address must reproduce
/// from its stored fields.
pub fn remove_comment(store: &mut Store, comment_address: &Vec<u8>, signer: &Vec<u8>) -> (r: Result<
    (),
    StoreError,
>)
    requires
        old(store).wf(),
    ensures
        final(store).wf(),
        match r {
            Ok(_) => remove_comment_err(old(store)@, comment_address@, signer@) is None
                && final(store)@ == remove_comment_post(old(store)@, comment_address@, signer@),
            Err(e) => Some(e) == remove_comment_err(old(store)@, comment_address@, signer@)
                && final(store)@ == old(store)@,
        },
{
    let (auth, capable): (Result<(), StoreError>, bool) = match store.read(comment_address) {
        Some(Record::Comment(c)) => {
            let auth_ok = crate::auth::require_identity(signer, &c.comment_author);
            let digest = crate::addresses::content_digest(&c.content);
            let namespace = program_id_vec();
            let seeds = seeds3(comment_tag_vec(), copy_bytes(&c.parent_tweet), digest);
            let cap = match crate::addresses::derive(&namespace, &seeds) {
                Ok(p) => bytes_eq(&p.0, comment_address),
                Err(_) => false,
            };
            (auth_ok, cap)
        },
        Some(_) => {
            return Err(StoreError::InvalidReference);
        },
        None => {
            return Err(StoreError::NotFound);
        },
    };
    match auth {
        Ok(_) => {},
        Err(e) => {
            return Err(e);
        },
    }
    if !capable {
        return Err(StoreError::InvalidReference);
    }
    store.close(comment_address, signer)
}

/// Why `add_reaction` refuses, or `None` when it commits.
pub open spec fn add_reaction_err(
    m: Map<Seq<u8>, Slot>,
    tweet_address: Vec<u8>,
    author: Vec<u8>,
    kind: ReactionType,
    dep: u64,
) -> Option<StoreError> {
    let rec = Record::Reaction(
        Reaction { reaction_author: author, parent_tweet: tweet_address, reaction: kind },
    );
    match record_at(m, tweet_address@) {
        None => Some(StoreError::NotFound),
        Some(Record::Tweet(t)) => if !rec.wf() {
            Some(StoreError::PayloadTooLarge)
        } else {
            match reaction_addr(tweet_address@, author@) {
                None => Some(StoreError::PayloadTooLarge),
                Some(p) => if record_at(m, p.0) is Some {
                    Some(StoreError::AlreadyExists)
                } else if balance_at(m, author@) < dep {
                    Some(StoreError::InsufficientBalance)
                } else if counter_full(t, kind) {
                    Some(StoreError::Overflow)
                } else {
                    None
                },
            }
        },
        Some(_) => Some(StoreError::InvalidReference),
    }
}

/// The store after a committed `add_reaction`: the tweet's counter moves
/// up and the reaction record is created, in one atomic step.
pub open spec fn add_reaction_post(
    m: Map<Seq<u8>, Slot>,
    tweet_address: Vec<u8>,
    author: Vec<u8>,
    kind: ReactionType,
    dep: u64,
) -> Map<Seq<u8>, Slot> {
    let rec = Record::Reaction(
        Reaction { reaction_author: author, parent_tweet: tweet_address, reaction: kind },
    );
    match (record_at(m, tweet_address@), reaction_addr(tweet_address@, author@)) {
        (Some(Record::Tweet(t)), Some(p)) => {
            let m1 = m.insert(
                tweet_address@,
                Slot {
                    deposit: m[tweet_address@].deposit,
                    held: m[tweet_address@].held,
                    data: Some(Record::Tweet(bumped(t, kind))),
                },
            );
            create_post(m1, p.0, author@, rec, dep)
        },
        _ => m,
    }
}

/// React to a tweet; the author pays the storage deposit. The counter for
/// `kind` moves up in the same atomic step, and a second reaction by the
/// same author to the same tweet is refused. Returns the derived address.
pub fn add_reaction(
    store: &mut Store,
    tweet_address: Vec<u8>,
    author: Vec<u8>,
    kind: ReactionType,
    deposit: u64,
) -> (r: Result<Vec<u8>, StoreError>)
    requires
        old(store).wf(),
    ensures
        final(store).wf(),
        match r {
            Ok(a) => add_reaction_err(old(store)@, tweet_address, author, kind, deposit) is None
                && final(store)@ == add_reaction_post(
                old(store)@,
                tweet_address,
                author,
                kind,
                deposit,
            ) && (match reaction_addr(tweet_address@, author@) {
                Some(p) => a@ == p.0,
                None => false,
            }),
            Err(e) => Some(e) == add_reaction_err(old(store)@, tweet_address, author, kind, deposit)
                && final(store)@ == old(store)@,
        },
{
    let i = match store.idx_of(&tweet_address) {
        Some(i) => i,
        None => {
            return Err(StoreError::NotFound);
        },
    };
    let (likes, dislikes): (u64, u64) = match &store.slots[i].slot.data {
        Some(Record::Tweet(t)) => (t.likes, t.dislikes),
        Some(_) => {
            return Err(StoreError::InvalidReference);
        },
        None => {
            return Err(StoreError::NotFound);
        },
    };
    if !(author.len() == ID_LEN && tweet_address.len() == ID_LEN) {
        return Err(StoreError::PayloadTooLarge);
    }
    let namespace = program_id_vec();
    let seeds = seeds3(reaction_tag_vec(), copy_bytes(&tweet_address), copy_bytes(&author));
    let raddr = match crate::addresses::derive(&namespace, &seeds) {
        Ok(p) => p.0,
        Err(_) => {
            return Err(StoreError::PayloadTooLarge);
        },
    };
    let occupied = match store.idx_of(&raddr) {
        Some(j) => store.slots[j].slot.data.is_some(),
        None => false,
    };
    if occupied {
        return Err(StoreError::AlreadyExists);
    }
    if store.balance_of(&author) < deposit {
        return Err(StoreError::InsufficientBalance);
    }
    let new_count: u64 = match kind {
        ReactionType::Like => match checked_increment(likes, u64::MAX) {
            Ok(v) => v,
            Err(e) => {
                return Err(e);
            },
        },
        ReactionType::Dislike => match checked_increment(dislikes, u64::MAX) {
            Ok(v) => v,
            Err(e) => {
                return Err(e);
            },
        },
    };
    let ghost s0 = store.slots@;
    let ghost m0 = store@;
    match &mut store.slots[i].slot.data {
        Some(Record::Tweet(t)) => {
            match kind {
                ReactionType::Like => {
                    t.likes = new_count;
                },
                ReactionType::Dislike => {
                    t.dislikes = new_count;
                },
            }
        },
        _ => {},
    }
    proof {
        store_model(*old(store));
        store_model(*store);
        assert(store.slots@ == s0.update(i as int, store.slots@[i as int]));
        lemma_map_of_update(s0, i as int, store.slots@[i as int]);
    }
    let payer = copy_bytes(&author);
    let rec = Record::Reaction(
        Reaction { reaction_author: author, parent_tweet: tweet_address, reaction: kind },
    );
    proof {
        assert(record_at(store@, raddr@) is None);
        assert(balance_at(store@, payer@) == balance_at(m0, payer@));
    }
    match store.create(&raddr, &payer, rec, deposit) {
        Ok(_) => {
            proof {
                assert(final(store)@ =~= store@);
            }
            Ok(raddr)
        },
        Err(_) => {
            proof {
                assert(false);
            }
            unreached()
        },
    }
}

/// Why `remove_reaction` refuses, or `None` when it commits.
pub open spec fn remove_reaction_err(
    m: Map<Seq<u8>, Slot>,
    tweet_address: Seq<u8>,
    signer: Seq<u8>,
) -> Option<StoreError> {
    match record_at(m, tweet_address) {
        None => Some(StoreError::NotFound),
        Some(Record::Tweet(t)) => match reaction_addr(tweet_address, signer) {
            None => Some(StoreError::PayloadTooLarge),
            Some(p) => match record_at(m, p.0) {
                None => Some(StoreError::NotFound),
                Some(Record::Reaction(rx)) => if signer != rx.reaction_author@ {
                    Some(StoreError::Unauthorized)
                } else if rx.parent_tweet@ != tweet_address {
                    Some(StoreError::InvalidReference)
                } else if counter_empty(t, rx.reaction) {
                    Some(StoreError::Underflow)
                } else {
                    let m1 = m.insert(
                        tweet_address,
                        Slot {
                            deposit: m[tweet_address].deposit,
                            held: m[tweet_address].held,
                            data: Some(Record::Tweet(dropped(t, rx.reaction))),
                        },
                    );
                    close_err(m1, p.0, signer)
                },
                Some(_) => Some(StoreError::InvalidReference),
            },
        },
        Some(_) => Some(StoreError::InvalidReference),
    }
}

/// The store after a committed `remove_reaction`: the tweet's counter
/// moves down and the reaction record closes, in one atomic step.
pub open spec fn remove_reaction_post(
    m: Map<Seq<u8>, Slot>,
    tweet_address: Seq<u8>,
    signer: Seq<u8>,
) -> Map<Seq<u8>, Slot> {
    match record_at(m, tweet_address) {
        Some(Record::Tweet(t)) => match reaction_addr(tweet_address, signer) {
            Some(p) => match record_at(m, p.0) {
                Some(Record::Reaction(rx)) => {
                    let m1 = m.insert(
                        tweet_address,
                        Slot {
                            deposit: m[tweet_address].deposit,
                            held: m[tweet_address].held,
                            data: Some(Record::Tweet(dropped(t, rx.reaction))),
                        },
                    );
                    close_post(m1, p.0, signer)
                },
                _ => m,
            },
            _ => m,
        },
        _ => m,
    }
}

/// Remove the signer's reaction to a tweet, refunding its storage deposit.
/// The reaction must belong to the supplied tweet, and only its author may
/// remove it; the counter for its kind moves down in the same atomic step.
pub fn remove_reaction(store: &mut Store, tweet_address: &Vec<u8>, signer: &Vec<u8>) -> (r: Result<
    (),
    StoreError,
>)
    requires
        old(store).wf(),
    ensures
        final(store).wf(),
        match r {
            Ok(_) => remove_reaction_err(old(store)@, tweet_address@, signer@) is None
                && final(store)@ == remove_reaction_post(old(store)@, tweet_address@, signer@),
            Err(e) => Some(e) == remove_reaction_err(old(store)@, tweet_address@, signer@)
                && final(store)@ == old(store)@,
        },
{
    let i = match store.idx_of(tweet_address) {
        Some(i) => i,
        None => {
            return Err(StoreError::NotFound);
        },
    };
    let (likes, dislikes): (u64, u64) = match &store.slots[i].slot.data {
        Some(Record::Tweet(t)) => (t.likes, t.dislikes),
        Some(_) => {
            return Err(StoreError::InvalidReference);
        },
        None => {
            return Err(StoreError::NotFound);
        },
    };
    let namespace = program_id_vec();
    let seeds = seeds3(reaction_tag_vec(), copy_bytes(tweet_address), copy_bytes(signer));
    let raddr = match crate::addresses::derive(&namespace, &seeds) {
        Ok(p) => p.0,
        Err(_) => {
            return Err(StoreError::PayloadTooLarge);
        },
    };
    let j = match store.idx_of(&raddr) {
        Some(j) => j,
        None => {
            return Err(StoreError::NotFound);
        },
    };
    let (checks, kind): (Result<(), StoreError>, ReactionType) =
        match &store.slots[j].slot.data {
        Some(Record::Reaction(rx)) => {
            let c = match crate::auth::require_identity(signer, &rx.reaction_author) {
                Ok(_) => crate::auth::require_reference(tweet_address, &rx.parent_tweet),
                Err(e) => Err(e),
            };
            (c, rx.reaction)
        },
        Some(_) => {
            return Err(StoreError::InvalidReference);
        },
        None => {
            return Err(StoreError::NotFound);
        },
    };
    match checks {
        Ok(_) => {},
        Err(e) => {
            return Err(e);
        },
    }
    let new_count: u64 = match kind {
        ReactionType::Like => match checked_decrement(likes) {
            Ok(v) => v,
            Err(e) => {
                return Err(e);
            },
        },
        ReactionType::Dislike => match checked_decrement(dislikes) {
            Ok(v) => v,
            Err(e) => {
                return Err(e);
            },
        },
    };
    let dep = store.slots[j].slot.deposit;
    let held = store.slots[j].slot.held;
    let target_bal: u64 = if bytes_eq(signer, &raddr) {
        0
    } else {
        store.balance_of(signer)
    };
    if (dep as u128) + (held as u128) + (target_bal as u128) > (u64::MAX as u128) {
        return Err(StoreError::Overflow);
    }
    let ghost s0 = store.slots@;
    let ghost m0 = store@;
    match &mut store.slots[i].slot.data {
        Some(Record::Tweet(t)) => {
            match kind {
                ReactionType::Like => {
                    t.likes = new_count;
                },
                ReactionType::Dislike => {
                    t.dislikes = new_count;
                },
            }
        },
        _ => {},
    }
    proof {
        store_model(*old(store));
        store_model(*store);
        assert(store.slots@ == s0.update(i as int, store.slots@[i as int]));
        lemma_map_of_update(s0, i as int, store.slots@[i as int]);
        assert(close_err(store@, raddr@, signer@) is None);
    }
    match store.close(&raddr, signer) {
        Ok(_) => {
            proof {
                assert(final(store)@ =~= store@);
            }
            Ok(())
        },
        Err(_) => {
            proof {
                assert(false);
            }
            unreached()
        },
    }
}

/// One reaction per author per tweet: after a committed `add_reaction`,
/// repeating it with the same tweet and author is refused with
/// `AlreadyExists` — whatever kind or deposit the second call carries —
/// so the tweet's counter has moved exactly once.
pub proof fn lemma_reaction_dedup(
    m: Map<Seq<u8>, Slot>,
    tweet_address: Vec<u8>,
    author: Vec<u8>,
    kind: ReactionType,
    kind2: ReactionType,
    dep: u64,
    dep2: u64,
)
    requires
        add_reaction_err(m, tweet_address, author, kind, dep) is None,
    ensures
        add_reaction_err(
            add_reaction_post(m, tweet_address, author, kind, dep),
            tweet_address,
            author,
            kind2,
            dep2,
        ) == Some(StoreError::AlreadyExists),
{
    let m1 = add_reaction_post(m, tweet_address, author, kind, dep);
    match (record_at(m, tweet_address@), reaction_addr(tweet_address@, author@)) {
        (Some(Record::Tweet(t)), Some(p)) => {
            assert(record_at(m, p.0) is None);
            assert(p.0 != tweet_address@);
            let m2 = m.insert(
                tweet_address@,
                Slot {
                    deposit: m[tweet_address@].deposit,
                    held: m[tweet_address@].held,
                    data: Some(Record::Tweet(bumped(t, kind))),
                },
            );
            assert(record_at(m2, p.0) is None);
            assert(record_at(debit_map(m2, author@, dep), tweet_address@) == Some(
                Record::Tweet(bumped(t, kind)),
            ));
            assert(record_at(m1, tweet_address@) == Some(Record::Tweet(bumped(t, kind))));
            assert(record_at(m1, p.0) is Some);
        },
        _ => {
            assert(false);
        },
    }
}

} // verus!
