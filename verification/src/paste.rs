//! Pastes: their record, the choice among stored records, the random key a
//! new paste is filed under, and the verdict on a cleanup run.

use vstd::prelude::*;

use crate::decimal::{decimal_chars, decimal_string, push_char};

verus! {

/// A stored paste. Instants are nanoseconds since the Unix epoch (negative
/// before it), which orders them as the clock does.
#[derive(Clone, Debug, PartialEq, Eq)]
pub struct Paste {
    pub id: String,
    pub created_at: i128,
    pub expires_at: i128,
    pub deleted: bool,
}

/// `pastes[i]` expires no earlier than any other record, and strictly later
/// than every record before it: the head of the list once it is sorted by
/// descending expiry with a stable sort.
pub open spec fn is_latest_at(pastes: Seq<Paste>, i: int) -> bool {
    &&& 0 <= i < pastes.len()
    &&& forall|j: int| 0 <= j < pastes.len() ==> #[trigger] pastes[j].expires_at <= pastes[i].expires_at
    &&& forall|j: int| 0 <= j < i ==> #[trigger] pastes[j].expires_at < pastes[i].expires_at
}

/// At most one position of a list is the latest one.
pub proof fn lemma_latest_unique(pastes: Seq<Paste>, i: int, k: int)
    requires
        is_latest_at(pastes, i),
        is_latest_at(pastes, k),
    ensures
        i == k,
{
    if i < k {
        assert(pastes[i].expires_at < pastes[k].expires_at);
        assert(pastes[k].expires_at <= pastes[i].expires_at);
    } else if k < i {
        assert(pastes[k].expires_at < pastes[i].expires_at);
        assert(pastes[i].expires_at <= pastes[k].expires_at);
    }
}

/// Of the records found under one id, the one that expires last; among
/// records that expire together, the first one found. `None` for no records.
pub fn latest_paste(pastes: Vec<Paste>) -> (res: Option<Paste>)
    ensures
        res is None <==> pastes@.len() == 0,
        res matches Some(p) ==> exists|i: int| is_latest_at(pastes@, i) && pastes@[i] == p,
{
    let n = pastes.len();
    if n == 0 {
        return None;
    }
    let mut best: usize = 0;
    let mut i: usize = 1;
    while i < n
        invariant
            n == pastes@.len(),
            1 <= i <= n,
            best < i,
            forall|j: int| 0 <= j < i ==> #[trigger] pastes@[j].expires_at <= pastes@[best as int].expires_at,
            forall|j: int| 0 <= j < best ==> #[trigger] pastes@[j].expires_at < pastes@[best as int].expires_at,
        decreases n - i,
    {
        if pastes[i].expires_at > pastes[best].expires_at {
            best = i;
        }
        i = i + 1;
    }
    let ghost all = pastes@;
    let mut pastes = pastes;
    let p = pastes.remove(best);
    assert(is_latest_at(all, best as int));
    Some(p)
}

/// The characters a paste key is drawn from.
pub const KEY_SPACE: &'static str = "ABCDEFGHIJKLMNOPQRSTUVWXYZabcdefghijklmnopqrstuvwxyz0123456789_";

/// The number of characters in a paste key.
pub const KEY_LENGTH: u32 = 20;

#[verifier::external_type_specification]
#[verifier::external_body]
pub struct ExThreadRng(rand::rngs::ThreadRng);

/// rand's `rng()`: a handle to the thread-local random generator. Nothing is
/// claimed of it.
#[verifier::external_body]
fn thread_rng() -> rand::rngs::ThreadRng {
    rand::rng()
}

/// rand's `IteratorRandom::choose` on the characters of `s`. Claimed: the
/// result is one of those characters, and there is one whenever `s` is not
/// empty (its source returns `None` only for an empty iterator when the size
/// hint is right, as that of `Chars` is). Which character comes back rests on
/// chance and is not stated.
#[verifier::external_body]
fn choose_char(s: &str, rng: &mut rand::rngs::ThreadRng) -> (res: Option<char>)
    ensures
        s@.len() > 0 ==> res is Some,
        res matches Some(c) ==> s@.contains(c),
{
    rand::seq::IteratorRandom::choose(s.chars(), rng)
}

/// Every character of `key` is drawn from `KEY_SPACE`.
pub open spec fn drawn_from_key_space(key: Seq<char>) -> bool {
    forall|i: int| 0 <= i < key.len() ==> KEY_SPACE@.contains(#[trigger] key[i])
}

/// A source of random key characters that keeps, as a ghost record, every
/// character it has handed out, in order.
pub struct KeySource {
    rng: rand::rngs::ThreadRng,
    drawn: Ghost<Seq<char>>,
}

impl KeySource {
    /// The characters drawn from this source so far.
    pub closed spec fn drawn(&self) -> Seq<char> {
        self.drawn@
    }

    /// A fresh source on the thread's random generator; nothing drawn yet.
    pub fn new() -> (res: KeySource)
        ensures
            res.drawn() == Seq::<char>::empty(),
    {
        KeySource { rng: thread_rng(), drawn: Ghost(Seq::empty()) }
    }

    /// Draws one character of `KEY_SPACE` at random; the draw is recorded.
    pub fn draw(&mut self) -> (c: char)
        ensures
            final(self).drawn() == old(self).drawn().push(c),
            KEY_SPACE@.contains(c),
    {
        proof {
            reveal_strlit("ABCDEFGHIJKLMNOPQRSTUVWXYZabcdefghijklmnopqrstuvwxyz0123456789_");
        }
        let picked = choose_char(KEY_SPACE, &mut self.rng);
        let c = match picked {
            Some(c) => c,
            // `KEY_SPACE` is not empty, so a character always comes back.
            None => {
                assert(false);
                '_'
            },
        };
        self.drawn = Ghost(self.drawn@.push(c));
        c
    }
}

/// A key of `key_length` characters made of exactly the next `key_length`
/// draws of `source`, in the order drawn: every character is a draw of its
/// own, and the key is nothing else.
pub fn draw_key(source: &mut KeySource, key_length: u32) -> (key: String)
    ensures
        key@.len() == key_length,
        final(source).drawn() == old(source).drawn() + key@,
        drawn_from_key_space(key@),
{
    let mut key = String::new();
    let mut n: u32 = 0;
    while n < key_length
        invariant
            n <= key_length,
            key@.len() == n,
            source.drawn() == old(source).drawn() + key@,
            drawn_from_key_space(key@),
        decreases key_length - n,
    {
        let ghost before = key@;
        let c = source.draw();
        push_char(&mut key, c);
        assert(source.drawn() =~= old(source).drawn() + key@);
        assert forall|i: int| 0 <= i < key@.len() implies KEY_SPACE@.contains(#[trigger] key@[i]) by {
            if i < before.len() {
                assert(key@[i] == before[i]);
            }
        }
        n = n + 1;
    }
    key
}

/// A random key of `key_length` characters, each drawn from `KEY_SPACE`:
/// the first `key_length` draws of a fresh source.
pub fn generate_key(key_length: u32) -> (key: String)
    ensures
        key@.len() == key_length,
        drawn_from_key_space(key@),
{
    let mut source = KeySource::new();
    draw_key(&mut source, key_length)
}

/// Why a cleanup run did not finish cleanly.
#[derive(Clone, Debug, PartialEq, Eq)]
pub enum CleanupError {
    /// The storage reported failures while deleting the files.
    Storage(String),
    /// The table marked a different number of pastes deleted than the
    /// storage deleted.
    PartialUpdate { updated: usize, deleted: usize },
}

pub open spec fn cleanup_error_text(e: CleanupError) -> Seq<char> {
    match e {
        CleanupError::Storage(message) => message@,
        CleanupError::PartialUpdate { updated, deleted } =>
            "Update of deletion in table is partial "@ + decimal_chars(updated as nat) + "/"@
                + decimal_chars(deleted as nat),
    }
}

impl CleanupError {
    /// The text the error is reported with.
    pub fn message(&self) -> (res: String)
        ensures
            res@ == cleanup_error_text(*self),
    {
        match self {
            CleanupError::Storage(message) => message.clone(),
            CleanupError::PartialUpdate { updated, deleted } => {
                let mut s = String::from_str("Update of deletion in table is partial ");
                let u = decimal_string(*updated);
                s.append(u.as_str());
                s.append("/");
                let d = decimal_string(*deleted);
                s.append(d.as_str());
                s
            },
        }
    }
}

/// The verdict on a cleanup run, given how many files the storage deleted,
/// how many records the table then marked deleted, and the storage's report
/// of failed deletions: that report if there is one, else a partial update
/// when the two counts differ, else success.
pub fn cleanup_outcome(deleted_count: usize, updated_count: usize, storage_error: Option<String>) -> (res: Result<(), CleanupError>)
    ensures
        res == (match storage_error {
            Some(e) => Err(CleanupError::Storage(e)),
            None => if updated_count != deleted_count {
                Err(CleanupError::PartialUpdate { updated: updated_count, deleted: deleted_count })
            } else {
                Ok(())
            },
        }),
{
    match storage_error {
        Some(e) => Err(CleanupError::Storage(e)),
        None => if updated_count != deleted_count {
            Err(CleanupError::PartialUpdate { updated: updated_count, deleted: deleted_count })
        } else {
            Ok(())
        },
    }
}

} // verus!
