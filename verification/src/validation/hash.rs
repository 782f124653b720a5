//! SHA-384 hash verification for at-rest and in-flight data integrity.

use crate::events::now_millis;
use crate::hashing::{hex_text, sha384_hex, sha384_of};
use crate::text::{owned, same_text};
use crate::validation::error::ValidationError;
use vstd::prelude::*;

verus! {

/// Hash entry in the database.
#[derive(Debug, Clone)]
pub struct HashEntry {
    /// SHA-384 hash (96 hex characters).
    pub hash: String,
    /// File size in bytes.
    pub size: u64,
    /// Last modified timestamp, in milliseconds since the Unix epoch.
    pub last_modified: i64,
    /// Last verified timestamp, in milliseconds since the Unix epoch.
    pub last_verified: i64,
}

impl HashEntry {
    /// Create a new hash entry, modified and verified now.
    pub fn new(hash: String, size: u64) -> (r: Self)
        ensures
            r.hash == hash,
            r.size == size,
            r.last_modified == r.last_verified,
    {
        let now = now_millis();
        HashEntry { hash, size, last_modified: now, last_verified: now }
    }

    /// Create a new hash entry, modified and verified at `now`.
    pub fn at(hash: String, size: u64, now: i64) -> (r: Self)
        ensures
            r == (HashEntry { hash, size, last_modified: now, last_verified: now }),
    {
        HashEntry { hash, size, last_modified: now, last_verified: now }
    }

    /// Update last verified timestamp to the present moment.
    pub fn mark_verified(&mut self)
        ensures
            final(self).hash == old(self).hash,
            final(self).size == old(self).size,
            final(self).last_modified == old(self).last_modified,
    {
        self.last_verified = now_millis();
    }

    /// Update last verified timestamp to `now`.
    pub fn mark_verified_at(&mut self, now: i64)
        ensures
            *final(self) == (HashEntry { last_verified: now, ..*old(self) }),
    {
        self.last_verified = now;
    }
}

/// Hash database for tracking file hashes.
///
/// The entries are kept in the order in which their keys came, and no key
/// stands twice.
#[derive(Debug, Clone)]
pub struct HashDatabase {
    /// The keys (file paths or URLs) with their hash entries.
    pub entries: Vec<(String, HashEntry)>,
}

impl HashDatabase {
    /// No key stands twice.
    pub open spec fn wf(&self) -> bool {
        forall|i: int, j: int|
            0 <= i < j < self.entries@.len() ==> (#[trigger] self.entries@[i]).0@ != (
            #[trigger] self.entries@[j]).0@
    }

    /// The database as a map from keys to entries.
    pub open spec fn map(&self) -> Map<Seq<char>, HashEntry> {
        Map::new(
            |k: Seq<char>| exists|i: int| 0 <= i < self.entries@.len() && self.entries@[i].0@ == k,
            |k: Seq<char>|
                self.entries@[choose|i: int| 0 <= i < self.entries@.len() && self.entries@[i].0@
                    == k].1,
        )
    }

    /// Where `key` stands in a database, if it does.
    pub open spec fn position(&self, key: Seq<char>) -> Option<int> {
        if exists|i: int| 0 <= i < self.entries@.len() && self.entries@[i].0@ == key {
            Some(choose|i: int| 0 <= i < self.entries@.len() && self.entries@[i].0@ == key)
        } else {
            None
        }
    }

    /// Create a new empty database.
    #[must_use]
    pub fn new() -> (r: Self)
        ensures
            r.wf(),
            r.entries@.len() == 0,
            r.map() == Map::<Seq<char>, HashEntry>::empty(),
    {
        let r = HashDatabase { entries: Vec::new() };
        assert(r.map() =~= Map::<Seq<char>, HashEntry>::empty());
        r
    }

    /// The index of `key` among the entries.
    fn find(&self, key: &str) -> (r: Option<usize>)
        requires
            self.wf(),
        ensures
            match r {
                Some(i) => i < self.entries@.len() && self.entries@[i as int].0@ == key@
                    && self.position(key@) == Some(i as int),
                None => self.position(key@) is None && !self.map().contains_key(key@),
            },
    {
        let mut i: usize = 0;
        while i < self.entries.len()
            invariant
                i <= self.entries.len(),
                self.wf(),
                forall|k: int| 0 <= k < i ==> (#[trigger] self.entries@[k]).0@ != key@,
            decreases self.entries.len() - i,
        {
            if same_text(self.entries[i].0.as_str(), key) {
                proof {
                    let c = self.position(key@)->0;
                    if c < i {
                        assert(self.entries@[c].0@ == key@);
                    }
                    if c > i {
                        assert(self.entries@[i as int].0@ != self.entries@[c].0@);
                    }
                }
                return Some(i);
            }
            i = i + 1;
        }
        None
    }

    /// Get hash entry for a file/URL.
    #[must_use]
    pub fn get(&self, key: &str) -> (r: Option<&HashEntry>)
        requires
            self.wf(),
        ensures
            match r {
                Some(entry) => self.map().contains_key(key@) && *entry == self.map()[key@],
                None => !self.map().contains_key(key@),
            },
    {
        match self.find(key) {
            Some(i) => Some(&self.entries[i].1),
            None => None,
        }
    }

    /// Insert or update hash entry.
    pub fn insert(&mut self, key: String, entry: HashEntry)
        requires
            old(self).wf(),
        ensures
            final(self).wf(),
            final(self).map() == old(self).map().insert(key@, entry),
    {
        match self.find(key.as_str()) {
            Some(i) => {
                let ghost before = self.entries@;
                self.entries[i] = (key, entry);
                proof {
                    assert forall|a: int, b: int| 0 <= a < b < self.entries@.len() implies (
                    #[trigger] self.entries@[a]).0@ != (#[trigger] self.entries@[b]).0@ by {
                        assert(before[a].0@ != before[b].0@);
                    }
                    lemma_map_after_update(*old(self), *self, i as int, key@, entry);
                }
            },
            None => {
                let ghost before = self.entries@;
                self.entries.push((key, entry));
                proof {
                    assert forall|a: int, b: int| 0 <= a < b < self.entries@.len() implies (
                    #[trigger] self.entries@[a]).0@ != (#[trigger] self.entries@[b]).0@ by {
                        if b < before.len() {
                            assert(before[a].0@ != before[b].0@);
                        } else {
                            assert(before[a].0@ != key@);
                        }
                    }
                    lemma_map_after_push(*old(self), *self, key@, entry);
                }
            },
        }
    }

    /// Remove hash entry, and give it back where there was one.
    pub fn remove(&mut self, key: &str) -> (r: Option<HashEntry>)
        requires
            old(self).wf(),
        ensures
            final(self).wf(),
            final(self).map() == old(self).map().remove(key@),
            match r {
                Some(entry) => old(self).map().contains_key(key@) && entry == old(self).map()[key@],
                None => !old(self).map().contains_key(key@),
            },
    {
        match self.find(key) {
            Some(i) => {
                let ghost before = self.entries@;
                let removed = self.entries.remove(i);
                proof {
                    assert forall|a: int, b: int| 0 <= a < b < self.entries@.len() implies (
                    #[trigger] self.entries@[a]).0@ != (#[trigger] self.entries@[b]).0@ by {
                        let a0 = if a < i { a } else { a + 1 };
                        let b0 = if b < i { b } else { b + 1 };
                        assert(before[a0].0@ != before[b0].0@);
                    }
                    lemma_map_after_remove(*old(self), *self, i as int, key@);
                }
                Some(removed.1)
            },
            None => {
                assert(self.map() =~= old(self).map().remove(key@));
                None
            },
        }
    }

    /// Get number of entries.
    #[must_use]
    pub fn len(&self) -> (r: usize)
        ensures
            r == self.entries@.len(),
    {
        self.entries.len()
    }

    /// Check if database is empty.
    #[must_use]
    pub fn is_empty(&self) -> (r: bool)
        ensures
            r == (self.entries@.len() == 0),
    {
        self.entries.len() == 0
    }
}

/// The entry under the key at index `i` of a database.
pub proof fn lemma_map_at(db: HashDatabase, i: int)
    requires
        db.wf(),
        0 <= i < db.entries@.len(),
    ensures
        db.map().contains_key(db.entries@[i].0@),
        db.map()[db.entries@[i].0@] == db.entries@[i].1,
{
    let k = db.entries@[i].0@;
    let c = choose|c: int| 0 <= c < db.entries@.len() && db.entries@[c].0@ == k;
    if c < i {
        assert(db.entries@[c].0@ != db.entries@[i].0@);
    }
    if c > i {
        assert(db.entries@[i].0@ != db.entries@[c].0@);
    }
}

/// The map of a database after the entry at index `i`, whose key is `key`,
/// was replaced.
pub proof fn lemma_map_after_update(
    before: HashDatabase,
    after: HashDatabase,
    i: int,
    key: Seq<char>,
    entry: HashEntry,
)
    requires
        before.wf(),
        after.wf(),
        0 <= i < before.entries@.len(),
        before.entries@[i].0@ == key,
        after.entries@.len() == before.entries@.len(),
        after.entries@[i].0@ == key,
        after.entries@[i].1 == entry,
        forall|k: int| 0 <= k < before.entries@.len() && k != i ==> after.entries@[k]
            == before.entries@[k],
    ensures
        after.map() == before.map().insert(key, entry),
{
    assert forall|k: Seq<char>| after.map().contains_key(k) <==> before.map().insert(
        key,
        entry,
    ).contains_key(k) by {
        if after.map().contains_key(k) {
            let c = choose|c: int| 0 <= c < after.entries@.len() && after.entries@[c].0@ == k;
            if c != i {
                assert(before.entries@[c].0@ == k);
            }
        }
        if before.map().contains_key(k) {
            let c = choose|c: int| 0 <= c < before.entries@.len() && before.entries@[c].0@ == k;
            assert(after.entries@[c].0@ == k);
        }
        if k == key {
            assert(after.entries@[i].0@ == k);
        }
    }
    assert forall|k: Seq<char>| after.map().contains_key(k) implies after.map()[k]
        == before.map().insert(key, entry)[k] by {
        let c = choose|c: int| 0 <= c < after.entries@.len() && after.entries@[c].0@ == k;
        lemma_map_at(after, c);
        if c != i {
            assert(before.entries@[c].0@ == k);
            lemma_map_at(before, c);
        }
    }
    assert(after.map() =~= before.map().insert(key, entry));
}

/// The map of a database after an entry with a new key was put at its end.
pub proof fn lemma_map_after_push(
    before: HashDatabase,
    after: HashDatabase,
    key: Seq<char>,
    entry: HashEntry,
)
    requires
        before.wf(),
        after.wf(),
        after.entries@.len() == before.entries@.len() + 1,
        after.entries@.last().0@ == key,
        after.entries@.last().1 == entry,
        forall|k: int| 0 <= k < before.entries@.len() ==> after.entries@[k] == before.entries@[k],
    ensures
        after.map() == before.map().insert(key, entry),
{
    let n = before.entries@.len() as int;
    assert forall|k: Seq<char>| after.map().contains_key(k) <==> before.map().insert(
        key,
        entry,
    ).contains_key(k) by {
        if after.map().contains_key(k) {
            let c = choose|c: int| 0 <= c < after.entries@.len() && after.entries@[c].0@ == k;
            if c != n {
                assert(before.entries@[c].0@ == k);
            }
        }
        if before.map().contains_key(k) {
            let c = choose|c: int| 0 <= c < before.entries@.len() && before.entries@[c].0@ == k;
            assert(after.entries@[c].0@ == k);
        }
        if k == key {
            assert(after.entries@[n].0@ == k);
        }
    }
    assert forall|k: Seq<char>| after.map().contains_key(k) implies after.map()[k]
        == before.map().insert(key, entry)[k] by {
        let c = choose|c: int| 0 <= c < after.entries@.len() && after.entries@[c].0@ == k;
        lemma_map_at(after, c);
        if c != n {
            assert(before.entries@[c].0@ == k);
            lemma_map_at(before, c);
        }
    }
    assert(after.map() =~= before.map().insert(key, entry));
}

/// The map of a database after the entry at index `i`, whose key is `key`,
/// was taken out.
pub proof fn lemma_map_after_remove(
    before: HashDatabase,
    after: HashDatabase,
    i: int,
    key: Seq<char>,
)
    requires
        before.wf(),
        after.wf(),
        0 <= i < before.entries@.len(),
        before.entries@[i].0@ == key,
        after.entries@ == before.entries@.remove(i),
    ensures
        after.map() == before.map().remove(key),
        before.map().contains_key(key),
        before.map()[key] == before.entries@[i].1,
{
    lemma_map_at(before, i);
    assert forall|k: Seq<char>| after.map().contains_key(k) <==> before.map().remove(
        key,
    ).contains_key(k) by {
        if after.map().contains_key(k) {
            let c = choose|c: int| 0 <= c < after.entries@.len() && after.entries@[c].0@ == k;
            let c0 = if c < i { c } else { c + 1 };
            assert(before.entries@[c0].0@ == k);
            if k == key {
                if c0 < i {
                    assert(before.entries@[c0].0@ != before.entries@[i].0@);
                } else {
                    assert(before.entries@[i].0@ != before.entries@[c0].0@);
                }
            }
        }
        if before.map().contains_key(k) && k != key {
            let c = choose|c: int| 0 <= c < before.entries@.len() && before.entries@[c].0@ == k;
            let c1 = if c < i { c } else { c - 1 };
            assert(after.entries@[c1].0@ == k);
        }
    }
    assert forall|k: Seq<char>| after.map().contains_key(k) implies after.map()[k]
        == before.map().remove(key)[k] by {
        let c = choose|c: int| 0 <= c < after.entries@.len() && after.entries@[c].0@ == k;
        lemma_map_at(after, c);
        let c0 = if c < i { c } else { c + 1 };
        assert(before.entries@[c0].0@ == k);
        lemma_map_at(before, c0);
    }
    assert(after.map() =~= before.map().remove(key));
}

impl Default for HashDatabase {
    fn default() -> (r: Self)
        ensures
            r.wf(),
            r.entries@.len() == 0,
    {
        HashDatabase::new()
    }
}

/// The hash of at-rest and in-flight data: its SHA-384 digest in hexadecimal.
pub open spec fn content_hash(data: Seq<u8>) -> Seq<char> {
    hex_text(sha384_of(data))
}

/// Compute SHA-384 hash of bytes.
#[must_use]
pub fn compute_hash(data: &[u8]) -> (r: String)
    ensures
        r@ == content_hash(data@),
        r@.len() == 96,
{
    sha384_hex(data)
}

/// Verify the hash of what the file at `path` holds against the expected
/// value.
///
/// # Errors
///
/// Returns `HashMismatch`, with the path and the two hashes, if the hashes
/// don't match.
pub fn verify_file_hash(path: &str, content: &[u8], expected: &str) -> (r: Result<
    (),
    ValidationError,
>)
    ensures
        match r {
            Ok(_) => content_hash(content@) == expected@,
            Err(e) => content_hash(content@) != expected@ && (
            e matches ValidationError::HashMismatch { file, expected: x, actual } && file@
                == path@ && x@ == expected@ && actual@ == content_hash(content@)),
        },
{
    let actual = compute_hash(content);
    check_hash(path, actual.as_str(), expected)
}

/// Compares the hash of what the file at `path` holds with the expected
/// one, letter for letter.
///
/// # Errors
///
/// Returns `HashMismatch`, with the path and the two hashes, if the hashes
/// don't match.
pub fn check_hash(path: &str, actual: &str, expected: &str) -> (r: Result<(), ValidationError>)
    ensures
        match r {
            Ok(_) => actual@ == expected@,
            Err(e) => actual@ != expected@ && (
            e matches ValidationError::HashMismatch { file, expected: x, actual: a } && file@
                == path@ && x@ == expected@ && a@ == actual@),
        },
{
    if !same_text(actual, expected) {
        return Err(ValidationError::hash_mismatch(path, expected, actual));
    }
    Ok(())
}

/// What verifying a file against the database comes to.
pub enum Verdict {
    /// The file is new to the database, and was entered.
    Entered,
    /// The file holds what the database says.
    Unchanged,
    /// The file has changed, and the database was brought up to date.
    Updated,
    /// The file has changed, and strict verification refuses it.
    Refused,
}

/// What verifying content with the hash `actual` under `key` comes to.
pub open spec fn verdict(db: Map<Seq<char>, HashEntry>, key: Seq<char>, actual: Seq<char>, strict: bool) -> Verdict {
    if !db.contains_key(key) {
        Verdict::Entered
    } else if db[key].hash@ == actual {
        Verdict::Unchanged
    } else if strict {
        Verdict::Refused
    } else {
        Verdict::Updated
    }
}

/// Verify and update hash in database: `content` is what the file at `path`
/// holds now, `file_size` its size, `now` the time.
///
/// Returns `true` where the file is new or unchanged, `false` where it has
/// changed and the database was brought up to date. A new or changed file
/// gets an entry of `now`; an unchanged one is marked as verified at `now`.
///
/// # Errors
///
/// Returns `HashMismatch` if the file has changed and `strict` is set; the
/// database stays as it is.
pub fn verify_and_update(
    path: &str,
    content: &[u8],
    file_size: u64,
    database: &mut HashDatabase,
    strict: bool,
    now: i64,
) -> (r: Result<bool, ValidationError>)
    requires
        old(database).wf(),
    ensures
        final(database).wf(),
        verified(
            old(database).map(),
            final(database).map(),
            path@,
            content@,
            file_size,
            strict,
            now,
            r,
        ),
{
    let actual_hash = compute_hash(content);
    record_hash(path, actual_hash, file_size, database, strict, now)
}

/// Verify the hash of what the file at `path` holds now against the
/// database, and bring the database up to date: see [`verify_and_update`].
pub fn record_hash(
    path: &str,
    actual_hash: String,
    file_size: u64,
    database: &mut HashDatabase,
    strict: bool,
    now: i64,
) -> (r: Result<bool, ValidationError>)
    requires
        old(database).wf(),
    ensures
        final(database).wf(),
        recorded(
            old(database).map(),
            final(database).map(),
            path@,
            actual_hash@,
            file_size,
            strict,
            now,
            r,
        ),
{
    let known: Option<(bool, String)> = match database.get(path) {
        Some(entry) => Some((same_text(entry.hash.as_str(), actual_hash.as_str()), entry.hash.clone())),
        None => None,
    };
    match known {
        Some((matches, expected)) => {
            if !matches {
                if strict {
                    return Err(
                        ValidationError::hash_mismatch(path, expected.as_str(), actual_hash.as_str()),
                    );
                }
                let new_entry = HashEntry::at(actual_hash, file_size, now);
                database.insert(owned(path), new_entry);
                assert(database.map().dom() =~= old(database).map().dom());
                return Ok(false);
            }
            let entry = match database.get(path) {
                Some(e) => HashEntry {
                    hash: e.hash.clone(),
                    size: e.size,
                    last_modified: e.last_modified,
                    last_verified: now,
                },
                None => HashEntry::at(actual_hash, file_size, now),
            };
            database.insert(owned(path), entry);
            Ok(true)
        },
        None => {
            let entry = HashEntry::at(actual_hash, file_size, now);
            database.insert(owned(path), entry);
            assert(database.map().dom() =~= old(database).map().dom().insert(path@));
            Ok(true)
        },
    }
}

/// `after` and `r` are what verifying `content` under `key` makes of the
/// database `before`.
pub open spec fn verified(
    before: Map<Seq<char>, HashEntry>,
    after: Map<Seq<char>, HashEntry>,
    key: Seq<char>,
    content: Seq<u8>,
    file_size: u64,
    strict: bool,
    now: i64,
    r: Result<bool, ValidationError>,
) -> bool {
    recorded(before, after, key, content_hash(content), file_size, strict, now, r)
}

/// `after` and `r` are what verifying content with the hash `hash` under
/// `key` makes of the database `before`.
pub open spec fn recorded(
    before: Map<Seq<char>, HashEntry>,
    after: Map<Seq<char>, HashEntry>,
    key: Seq<char>,
    hash: Seq<char>,
    file_size: u64,
    strict: bool,
    now: i64,
    r: Result<bool, ValidationError>,
) -> bool {
    match verdict(before, key, hash, strict) {
        Verdict::Entered => {
            &&& r == Ok::<bool, ValidationError>(true)
            &&& after.dom() == before.dom().insert(key)
            &&& is_fresh_entry(after[key], hash, file_size, now)
            &&& forall|k: Seq<char>| k != key && before.contains_key(k) ==> after[k] == before[k]
        },
        Verdict::Unchanged => {
            &&& r == Ok::<bool, ValidationError>(true)
            &&& after == before.insert(key, HashEntry { last_verified: now, ..before[key] })
        },
        Verdict::Updated => {
            &&& r == Ok::<bool, ValidationError>(false)
            &&& after.dom() == before.dom()
            &&& is_fresh_entry(after[key], hash, file_size, now)
            &&& forall|k: Seq<char>| k != key && before.contains_key(k) ==> after[k] == before[k]
        },
        Verdict::Refused => {
            &&& after == before
            &&& r matches Err(ValidationError::HashMismatch { file, expected, actual }) && file@
                == key && expected@ == before[key].hash@ && actual@ == hash
        },
    }
}

/// The entry of content with the hash `hash` that was hashed at `now`.
pub open spec fn is_fresh_entry(entry: HashEntry, hash: Seq<char>, file_size: u64, now: i64) -> bool {
    &&& entry.hash@ == hash
    &&& entry.size == file_size
    &&& entry.last_modified == now
    &&& entry.last_verified == now
}

} // verus!
