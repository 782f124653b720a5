//! Archives of the input files of a compilation, with a manifest.
//!
//! The files are copied by the caller. The module makes the entries of the
//! manifest and tells which archives are past their retention.

use crate::text::owned;
use crate::validation::hash::{compute_hash, content_hash};
use vstd::prelude::*;

verus! {

/// Archive manifest containing metadata about archived files.
#[derive(Debug)]
pub struct ArchiveManifest {
    /// Timestamp when archive was created.
    pub created_at: String,
    /// Compilation result hash.
    pub output_hash: String,
    /// Number of rules compiled.
    pub rule_count: usize,
    /// Files included in archive.
    pub files: Vec<ArchivedFile>,
}

/// Information about an archived file.
#[derive(Debug)]
pub struct ArchivedFile {
    /// Path of the file, relative to the input directory.
    pub path: String,
    /// SHA-384 hash.
    pub hash: String,
    /// File size in bytes.
    pub size: u64,
}

impl ArchivedFile {
    /// The entry of the file at `path`, relative to the input directory,
    /// which holds `content`.
    pub fn of(path: &str, content: &[u8]) -> (r: Self)
        ensures
            r.path@ == path@,
            r.hash@ == content_hash(content@),
            r.size == content@.len(),
    {
        ArchivedFile { path: owned(path), hash: compute_hash(content), size: content.len() as u64 }
    }
}

impl ArchiveManifest {
    /// The manifest of an archive made at `created_at`, of the files given,
    /// in their order.
    pub fn new(created_at: &str, output_hash: &str, rule_count: usize, files: Vec<ArchivedFile>) -> (r:
        Self)
        ensures
            r.created_at@ == created_at@,
            r.output_hash@ == output_hash@,
            r.rule_count == rule_count,
            r.files == files,
    {
        ArchiveManifest {
            created_at: owned(created_at),
            output_hash: owned(output_hash),
            rule_count,
            files,
        }
    }
}

/// The milliseconds of a day.
pub const DAY_MS: i64 = 86_400_000;

/// An archive is expired when it was last modified more than
/// `retention_days` days before `now`; times are in milliseconds since the
/// Unix epoch.
pub open spec fn expired(modified: i64, now: i64, retention_days: u32) -> bool {
    modified < now - retention_days * DAY_MS
}

/// Tells whether an archive is past its retention.
pub fn is_expired(modified: i64, now: i64, retention_days: u32) -> (r: bool)
    ensures
        r == expired(modified, now, retention_days),
{
    assert(0 <= retention_days * DAY_MS <= 0xFFFF_FFFF * 86_400_000) by (nonlinear_arith)
        requires
            0 <= retention_days <= 0xFFFF_FFFF,
            DAY_MS == 86_400_000,
    ;
    let span: i128 = (retention_days as i128) * (DAY_MS as i128);
    let cutoff: i128 = now as i128 - span;
    (modified as i128) < cutoff
}

} // verus!
