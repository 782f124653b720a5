//! Locks on local source files, tied to the hash of what the files held when
//! they were locked.
//!
//! The operating system grants and drops the locks; the caller asks it. This
//! module keeps the books: the handle of each lock, the table of the locks
//! that were granted, and the hash by which a change under a lock is found.
//! The locks are advisory: they hold off only those who ask for a lock too.

use crate::events::{FileLockFailedEventArgs, FileLockType};
use crate::hashing::{hex_text, sha256_hex, sha256_of};
use crate::text::{eq_ignore_ascii_case, eq_ignoring_ascii_case, optional_text, owned};
use vstd::hash_map::StringHashMap;
use vstd::prelude::*;

verus! {

/// Calls `uuid::Uuid::new_v4` and writes the identifier out. The identifier
/// is drawn at random: the contract says nothing of it.
#[verifier::external_body]
pub(crate) fn fresh_lock_id() -> (r: String) {
    uuid::Uuid::new_v4().to_string()
}

/// What a compilation does about a file that it cannot lock.
#[derive(Debug, Clone, Copy, PartialEq, Eq, Structural)]
pub enum LockFailurePolicy {
    /// The compilation goes on without the lock. This is the default.
    Continue,
    /// The compilation stops.
    Stop,
}

impl Default for LockFailurePolicy {
    fn default() -> (r: Self)
        ensures
            r == LockFailurePolicy::Continue,
    {
        LockFailurePolicy::Continue
    }
}

impl LockFailurePolicy {
    /// The event of a lock that was not granted, as the policy sets it out for
    /// the handlers: the compilation is to go on without the lock unless the
    /// policy is to stop. The handlers have the last word.
    pub fn failed_event(self, file_path: &str, lock_type: FileLockType, reason: &str) -> (r:
        FileLockFailedEventArgs)
        ensures
            r.file_path@ == file_path@,
            r.lock_type == lock_type,
            r.reason@ == reason@,
            r.continue_without_lock == (self == LockFailurePolicy::Continue),
            r.error_message is None,
    {
        let mut r = FileLockFailedEventArgs::default();
        r.file_path = owned(file_path);
        r.lock_type = lock_type;
        r.reason = owned(reason);
        r.continue_without_lock = match self {
            LockFailurePolicy::Continue => true,
            LockFailurePolicy::Stop => false,
        };
        r
    }
}

/// Represents an active file lock.
#[derive(Debug)]
pub struct FileLockHandle {
    /// Lock identifier.
    pub lock_id: String,
    /// Path to the locked file.
    pub file_path: String,
    /// Type of lock.
    pub lock_type: FileLockType,
    /// When the lock was acquired, in milliseconds since the Unix epoch.
    pub acquired_at: i64,
    /// Content hash for integrity verification.
    pub content_hash: Option<String>,
    /// Whether the lock is still active.
    pub active: bool,
}

impl FileLockHandle {
    /// The handle once its lock is released: as it was, and not active.
    pub open spec fn released(self) -> Self {
        FileLockHandle { active: false, ..self }
    }

    /// Check if the lock is still active.
    pub fn is_active(&self) -> (r: bool)
        ensures
            r == self.active,
    {
        self.active
    }

    /// The time for which the lock has been held at `now`, in milliseconds;
    /// none where `now` lies before the lock.
    pub open spec fn held_for(&self, now: i64) -> nat {
        if now >= self.acquired_at {
            (now - self.acquired_at) as nat
        } else {
            0
        }
    }

    /// Get the duration the lock has been held at the time `now`, in
    /// milliseconds since the Unix epoch.
    pub fn duration(&self, now: i64) -> (r: u64)
        ensures
            r == self.held_for(now),
    {
        if now >= self.acquired_at {
            (now as i128 - self.acquired_at as i128) as u64
        } else {
            0
        }
    }

    /// Release the lock. Releasing a lock that is not active changes nothing.
    pub fn release(&mut self)
        ensures
            *final(self) == old(self).released(),
            !old(self).active ==> *final(self) == *old(self),
    {
        if self.active {
            self.active = false;
        }
    }
}

/// A lock can be released any number of times: the second release, and each
/// one after it, leaves the handle as the first has left it.
pub proof fn lemma_release_is_idempotent(handle: FileLockHandle)
    ensures
        handle.released().released() == handle.released(),
        !handle.released().active,
{
}

/// Service for managing file locks on local source files.
///
/// Implements zero-trust file integrity verification.
pub struct FileLockService {
    /// The path of each lock that was granted, by the lock's identifier.
    pub active_locks: StringHashMap<String>,
}

impl Default for FileLockService {
    fn default() -> (r: Self)
        ensures
            r.locks() == Map::<Seq<char>, Seq<char>>::empty(),
    {
        FileLockService::new()
    }
}

impl FileLockService {
    /// The table of the service: the path of each lock, by the lock's
    /// identifier.
    pub open spec fn locks(&self) -> Map<Seq<char>, Seq<char>> {
        self.active_locks@.map_values(|p: String| p@)
    }

    /// The hash by which the service tells one content from another: its
    /// SHA-256 digest in hexadecimal.
    pub open spec fn hash_of(content: Seq<u8>) -> Seq<char> {
        hex_text(sha256_of(content))
    }

    /// Create a new file lock service, with no lock in its table.
    pub fn new() -> (r: Self)
        ensures
            r.locks() == Map::<Seq<char>, Seq<char>>::empty(),
    {
        let r = FileLockService { active_locks: StringHashMap::new() };
        assert(r.locks() =~= Map::<Seq<char>, Seq<char>>::empty());
        r
    }

    /// Put down a read lock that the operating system has granted on the file
    /// at `full_path`. Where `content` holds what the file held under the
    /// lock, the handle carries its hash.
    pub fn acquire_read_lock(
        &mut self,
        full_path: &str,
        content: Option<&[u8]>,
        now: i64,
    ) -> (handle: FileLockHandle)
        ensures
            handle.file_path@ == full_path@,
            handle.lock_type == FileLockType::Read,
            handle.acquired_at == now,
            handle.active,
            optional_text(handle.content_hash) == match content {
                Some(bytes) => Some(Self::hash_of(bytes@)),
                None => None,
            },
            final(self).locks() == old(self).locks().insert(handle.lock_id@, full_path@),
    {
        self.acquire_lock(full_path, FileLockType::Read, content, now)
    }

    /// Put down a write lock that the operating system has granted on the
    /// file at `full_path`. Where `content` holds what the file held under the
    /// lock, the handle carries its hash.
    pub fn acquire_write_lock(
        &mut self,
        full_path: &str,
        content: Option<&[u8]>,
        now: i64,
    ) -> (handle: FileLockHandle)
        ensures
            handle.file_path@ == full_path@,
            handle.lock_type == FileLockType::Write,
            handle.acquired_at == now,
            handle.active,
            optional_text(handle.content_hash) == match content {
                Some(bytes) => Some(Self::hash_of(bytes@)),
                None => None,
            },
            final(self).locks() == old(self).locks().insert(handle.lock_id@, full_path@),
    {
        self.acquire_lock(full_path, FileLockType::Write, content, now)
    }

    /// Put down a lock that was granted: draws its identifier, enters it in
    /// the table under that identifier, and makes its handle.
    pub fn acquire_lock(
        &mut self,
        full_path: &str,
        lock_type: FileLockType,
        content: Option<&[u8]>,
        now: i64,
    ) -> (handle: FileLockHandle)
        ensures
            handle.file_path@ == full_path@,
            handle.lock_type == lock_type,
            handle.acquired_at == now,
            handle.active,
            optional_text(handle.content_hash) == match content {
                Some(bytes) => Some(Self::hash_of(bytes@)),
                None => None,
            },
            final(self).locks() == old(self).locks().insert(handle.lock_id@, full_path@),
    {
        let lock_id = fresh_lock_id();
        let content_hash = match content {
            Some(bytes) => Some(self.compute_hash(bytes)),
            None => None,
        };
        self.active_locks.insert(lock_id.clone(), owned(full_path));
        assert(self.locks() =~= old(self).locks().insert(lock_id@, full_path@));
        FileLockHandle {
            lock_id,
            file_path: owned(full_path),
            lock_type,
            acquired_at: now,
            content_hash,
            active: true,
        }
    }

    /// Verify file integrity by comparing hashes: tells whether the hash of
    /// what the file holds now is the expected one, whatever the case of the
    /// hexadecimal digits.
    pub fn verify_integrity(&self, content: &[u8], expected_hash: &str) -> (r: bool)
        ensures
            r == eq_ignoring_ascii_case(Self::hash_of(content@), expected_hash@),
    {
        let current_hash = self.compute_hash(content);
        Self::hashes_match(current_hash.as_str(), expected_hash)
    }

    /// Tells whether two hashes are the same, whatever the case of their
    /// hexadecimal digits.
    pub fn hashes_match(current_hash: &str, expected_hash: &str) -> (r: bool)
        ensures
            r == eq_ignoring_ascii_case(current_hash@, expected_hash@),
    {
        eq_ignore_ascii_case(current_hash, expected_hash)
    }

    /// Compute SHA-256 hash of a file's contents, in hexadecimal.
    pub fn compute_hash(&self, content: &[u8]) -> (r: String)
        ensures
            r@ == Self::hash_of(content@),
            r@.len() == 64,
    {
        sha256_hex(content)
    }

    /// Get the number of active locks.
    pub fn active_lock_count(&self) -> (r: usize)
        ensures
            r == self.locks().len(),
    {
        proof {
            vstd::hash_map::axiom_string_hash_map_spec_len(&self.active_locks);
            lemma_map_values_len(self.active_locks@);
        }
        self.active_locks.len()
    }

    /// Release all active locks: the table is empty afterwards.
    pub fn release_all_locks(&mut self)
        ensures
            final(self).locks() == Map::<Seq<char>, Seq<char>>::empty(),
    {
        self.active_locks.clear();
        assert(self.locks() =~= Map::<Seq<char>, Seq<char>>::empty());
    }
}

/// A table of texts has as many entries as the table of strings it comes from.
pub proof fn lemma_map_values_len(m: Map<Seq<char>, String>)
    ensures
        m.map_values(|p: String| p@).len() == m.len(),
{
    assert(m.map_values(|p: String| p@).dom() =~= m.dom());
}

} // verus!
