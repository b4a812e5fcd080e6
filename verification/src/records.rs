//! The record kinds that the ledger stores, and their payload bounds.
//!
//! Every record carries the identity that created it; that identity never
//! changes after creation. Text payloads are held as raw bytes: the ledger
//! is agnostic to their encoding, and the configured maxima are byte counts.

use vstd::prelude::*;

verus! {

/// Width of an identity or an address, in bytes.
pub const ID_LEN: usize = 32;

/// Byte budget of a journal entry's title.
pub const TITLE_MAX: usize = 50;

/// Byte budget of a journal entry's message.
pub const MESSAGE_MAX: usize = 1000;

/// Byte budget of a tweet's topic.
pub const TOPIC_MAX: usize = 32;

/// Byte budget of a tweet's content.
pub const CONTENT_MAX: usize = 500;

/// Byte budget of a comment's content.
pub const COMMENT_MAX: usize = 500;

/// A dated note owned by its author.
pub struct JournalEntry {
    pub owner: Vec<u8>,
    pub title: Vec<u8>,
    pub message: Vec<u8>,
}

/// A post with reaction counters.
pub struct Tweet {
    pub tweet_author: Vec<u8>,
    pub topic: Vec<u8>,
    pub content: Vec<u8>,
    pub likes: u64,
    pub dislikes: u64,
}

/// A remark below a tweet. A comment's address is derived from the digest
/// of its content, so its content can never change in place.
pub struct Comment {
    pub comment_author: Vec<u8>,
    pub parent_tweet: Vec<u8>,
    pub content: Vec<u8>,
}

/// The two kinds of reaction a tweet can receive.
#[derive(Clone, Copy, PartialEq, Eq, Structural, Debug)]
pub enum ReactionType {
    Like,
    Dislike,
}

/// One author's reaction to one tweet.
pub struct Reaction {
    pub reaction_author: Vec<u8>,
    pub parent_tweet: Vec<u8>,
    pub reaction: ReactionType,
}

/// A value box with a lock flag, governed by its authority.
pub struct Vault {
    pub vault_authority: Vec<u8>,
    pub locked: bool,
}

/// A stored record of any kind.
pub enum Record {
    Journal(JournalEntry),
    Tweet(Tweet),
    Comment(Comment),
    Reaction(Reaction),
    Vault(Vault),
}

impl Record {
    /// The identity that gates mutation and close of this record.
    pub open spec fn owner_id(self) -> Seq<u8> {
        match self {
            Record::Journal(j) => j.owner@,
            Record::Tweet(t) => t.tweet_author@,
            Record::Comment(c) => c.comment_author@,
            Record::Reaction(r) => r.reaction_author@,
            Record::Vault(v) => v.vault_authority@,
        }
    }

    /// Every identity field is exactly `ID_LEN` bytes and every bounded
    /// payload field is within its configured maximum.
    pub open spec fn wf(self) -> bool {
        match self {
            Record::Journal(j) => j.owner@.len() == ID_LEN && j.title@.len() <= TITLE_MAX
                && j.message@.len() <= MESSAGE_MAX,
            Record::Tweet(t) => t.tweet_author@.len() == ID_LEN && t.topic@.len() <= TOPIC_MAX
                && t.content@.len() <= CONTENT_MAX,
            Record::Comment(c) => c.comment_author@.len() == ID_LEN
                && c.parent_tweet@.len() == ID_LEN && c.content@.len() <= COMMENT_MAX,
            Record::Reaction(r) => r.reaction_author@.len() == ID_LEN
                && r.parent_tweet@.len() == ID_LEN,
            Record::Vault(v) => v.vault_authority@.len() == ID_LEN,
        }
    }

    /// Whether replacing `self` with `new` is an allowed mutation. The kind
    /// and the owning identity never change, and the only mutable payload
    /// field is a journal entry's message: a comment's content and a
    /// reaction's tweet/author pair seed their addresses, a tweet's counters
    /// move only together with a reaction's create or close, and a vault's
    /// lock flag moves only through its own toggle.
    pub open spec fn update_allowed(self, new: Record) -> bool {
        match (self, new) {
            (Record::Journal(a), Record::Journal(b)) => a.owner@ == b.owner@
                && a.title@ == b.title@,
            (Record::Tweet(a), Record::Tweet(b)) => a.tweet_author@ == b.tweet_author@
                && a.topic@ == b.topic@ && a.content@ == b.content@ && a.likes == b.likes
                && a.dislikes == b.dislikes,
            (Record::Comment(a), Record::Comment(b)) => a.comment_author@ == b.comment_author@
                && a.parent_tweet@ == b.parent_tweet@ && a.content@ == b.content@,
            (Record::Reaction(a), Record::Reaction(b)) => a.reaction_author@
                == b.reaction_author@ && a.parent_tweet@ == b.parent_tweet@ && a.reaction
                == b.reaction,
            (Record::Vault(a), Record::Vault(b)) => a.vault_authority@ == b.vault_authority@
                && a.locked == b.locked,
            _ => false,
        }
    }

    /// Borrow the identity that gates mutation and close.
    pub fn owner(&self) -> (r: &Vec<u8>)
        ensures
            r@ == self.owner_id(),
    {
        match self {
            Record::Journal(j) => &j.owner,
            Record::Tweet(t) => &t.tweet_author,
            Record::Comment(c) => &c.comment_author,
            Record::Reaction(r) => &r.reaction_author,
            Record::Vault(v) => &v.vault_authority,
        }
    }

    /// Decide whether replacing `self` with `new` is an allowed mutation.
    pub fn update_allowed_check(&self, new: &Record) -> (b: bool)
        ensures
            b == self.update_allowed(*new),
    {
        match (self, new) {
            (Record::Journal(a), Record::Journal(b)) => crate::addresses::bytes_eq(
                &a.owner,
                &b.owner,
            ) && crate::addresses::bytes_eq(&a.title, &b.title),
            (Record::Tweet(a), Record::Tweet(b)) => crate::addresses::bytes_eq(
                &a.tweet_author,
                &b.tweet_author,
            ) && crate::addresses::bytes_eq(&a.topic, &b.topic)
                && crate::addresses::bytes_eq(&a.content, &b.content) && a.likes == b.likes
                && a.dislikes == b.dislikes,
            (Record::Comment(a), Record::Comment(b)) => crate::addresses::bytes_eq(
                &a.comment_author,
                &b.comment_author,
            ) && crate::addresses::bytes_eq(&a.parent_tweet, &b.parent_tweet)
                && crate::addresses::bytes_eq(&a.content, &b.content),
            (Record::Reaction(a), Record::Reaction(b)) => crate::addresses::bytes_eq(
                &a.reaction_author,
                &b.reaction_author,
            ) && crate::addresses::bytes_eq(&a.parent_tweet, &b.parent_tweet) && a.reaction
                == b.reaction,
            (Record::Vault(a), Record::Vault(b)) => crate::addresses::bytes_eq(
                &a.vault_authority,
                &b.vault_authority,
            ) && a.locked == b.locked,
            _ => false,
        }
    }

    /// Decide well-formedness.
    pub fn wf_check(&self) -> (b: bool)
        ensures
            b == self.wf(),
    {
        match self {
            Record::Journal(j) => j.owner.len() == ID_LEN && j.title.len() <= TITLE_MAX
                && j.message.len() <= MESSAGE_MAX,
            Record::Tweet(t) => t.tweet_author.len() == ID_LEN && t.topic.len() <= TOPIC_MAX
                && t.content.len() <= CONTENT_MAX,
            Record::Comment(c) => c.comment_author.len() == ID_LEN
                && c.parent_tweet.len() == ID_LEN && c.content.len() <= COMMENT_MAX,
            Record::Reaction(r) => r.reaction_author.len() == ID_LEN
                && r.parent_tweet.len() == ID_LEN,
            Record::Vault(v) => v.vault_authority.len() == ID_LEN,
        }
    }
}

} // verus!
