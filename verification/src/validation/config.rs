//! Configuration types for validation.

use crate::text::{owned, same_text};
use vstd::prelude::*;

verus! {

/// Verification mode for hash checking.
#[derive(Debug, Clone, Copy, PartialEq, Eq, Structural)]
pub enum VerificationMode {
    /// Strict mode: all sources must have hashes, any mismatch fails.
    Strict,
    /// Warning mode: hash mismatches generate warnings but don't fail.
    Warning,
    /// Disabled: no hash verification.
    Disabled,
}

impl Default for VerificationMode {
    fn default() -> (r: Self)
        ensures
            r == VerificationMode::Warning,
    {
        VerificationMode::Warning
    }
}

impl VerificationMode {
    /// The mode that a name stands for: `strict`, `warning` or `disabled`.
    pub open spec fn named(name: Seq<char>) -> Option<VerificationMode> {
        if name == "strict"@ {
            Some(VerificationMode::Strict)
        } else if name == "warning"@ {
            Some(VerificationMode::Warning)
        } else if name == "disabled"@ {
            Some(VerificationMode::Disabled)
        } else {
            None
        }
    }

    /// The mode that `name` stands for, if it names one.
    pub fn from_name(name: &str) -> (r: Option<Self>)
        ensures
            r == Self::named(name@),
    {
        if same_text(name, "strict") {
            Some(VerificationMode::Strict)
        } else if same_text(name, "warning") {
            Some(VerificationMode::Warning)
        } else if same_text(name, "disabled") {
            Some(VerificationMode::Disabled)
        } else {
            None
        }
    }
}

/// Archiving mode.
#[derive(Debug, Clone, Copy, PartialEq, Eq, Structural)]
pub enum ArchivingMode {
    /// Automatic archiving after compilation.
    Automatic,
    /// Interactive: prompt user before archiving.
    Interactive,
    /// Disabled: no archiving.
    Disabled,
}

impl Default for ArchivingMode {
    fn default() -> (r: Self)
        ensures
            r == ArchivingMode::Automatic,
    {
        ArchivingMode::Automatic
    }
}

/// File conflict resolution strategy.
#[derive(Debug, Clone, Copy, PartialEq, Eq, Structural)]
pub enum ConflictStrategy {
    /// Rename file with incrementing number.
    Rename,
    /// Overwrite existing file.
    Overwrite,
    /// Error if file exists.
    Error,
}

impl Default for ConflictStrategy {
    fn default() -> (r: Self)
        ensures
            r == ConflictStrategy::Rename,
    {
        ConflictStrategy::Rename
    }
}

/// Hash verification configuration.
#[derive(Debug, Clone)]
pub struct HashVerificationConfig {
    /// Verification mode.
    pub mode: VerificationMode,
    /// Require hashes for all remote sources.
    pub require_hashes_for_remote: bool,
    /// Fail compilation on hash mismatch.
    pub fail_on_mismatch: bool,
    /// Path to hash database file.
    pub hash_database_path: String,
}

impl Default for HashVerificationConfig {
    fn default() -> (r: Self)
        ensures
            r.mode == VerificationMode::Warning,
            !r.require_hashes_for_remote,
            !r.fail_on_mismatch,
            r.hash_database_path@ == "data/input/.hashes.json"@,
    {
        HashVerificationConfig {
            mode: VerificationMode::Warning,
            require_hashes_for_remote: false,
            fail_on_mismatch: false,
            hash_database_path: owned("data/input/.hashes.json"),
        }
    }
}

/// Archiving configuration.
#[derive(Debug, Clone)]
pub struct ArchivingConfig {
    /// Enable archiving.
    pub enabled: bool,
    /// Archiving mode.
    pub mode: ArchivingMode,
    /// Retention period in days.
    pub retention_days: u32,
    /// Archive directory path.
    pub archive_path: String,
}

impl Default for ArchivingConfig {
    fn default() -> (r: Self)
        ensures
            r.enabled,
            r.mode == ArchivingMode::Automatic,
            r.retention_days == 90,
            r.archive_path@ == "data/archive"@,
    {
        ArchivingConfig {
            enabled: true,
            mode: ArchivingMode::Automatic,
            retention_days: 90,
            archive_path: owned("data/archive"),
        }
    }
}

/// Output configuration.
#[derive(Debug, Clone)]
pub struct OutputConfig {
    /// Output file path.
    pub path: String,
    /// File conflict strategy.
    pub conflict_strategy: ConflictStrategy,
}

impl Default for OutputConfig {
    fn default() -> (r: Self)
        ensures
            r.path@ == "data/output/adguard_user_filter.txt"@,
            r.conflict_strategy == ConflictStrategy::Rename,
    {
        OutputConfig {
            path: owned("data/output/adguard_user_filter.txt"),
            conflict_strategy: ConflictStrategy::Rename,
        }
    }
}

/// Main validation configuration.
#[derive(Debug, Clone)]
pub struct ValidationConfig {
    /// Hash verification settings.
    pub hash_verification: HashVerificationConfig,
    /// Archiving settings.
    pub archiving: ArchivingConfig,
    /// Output settings.
    pub output: OutputConfig,
}

impl ValidationConfig {
    /// The configuration holds the default of every setting.
    pub open spec fn is_default(&self) -> bool {
        &&& self.hash_verification.mode == VerificationMode::Warning
        &&& !self.hash_verification.require_hashes_for_remote
        &&& !self.hash_verification.fail_on_mismatch
        &&& self.hash_verification.hash_database_path@ == "data/input/.hashes.json"@
        &&& self.archiving.enabled
        &&& self.archiving.mode == ArchivingMode::Automatic
        &&& self.archiving.retention_days == 90
        &&& self.archiving.archive_path@ == "data/archive"@
        &&& self.output.path@ == "data/output/adguard_user_filter.txt"@
        &&& self.output.conflict_strategy == ConflictStrategy::Rename
    }

    /// Create a new configuration with default values.
    #[must_use]
    pub fn new() -> (r: Self)
        ensures
            r.is_default(),
    {
        ValidationConfig::default()
    }

    /// Set verification mode.
    #[must_use]
    pub fn with_verification_mode(self, mode: VerificationMode) -> (r: Self)
        ensures
            r.hash_verification.mode == mode,
            r.hash_verification.require_hashes_for_remote
                == self.hash_verification.require_hashes_for_remote,
            r.hash_verification.fail_on_mismatch == self.hash_verification.fail_on_mismatch,
            r.hash_verification.hash_database_path == self.hash_verification.hash_database_path,
            r.archiving == self.archiving,
            r.output == self.output,
    {
        let mut r = self;
        r.hash_verification.mode = mode;
        r
    }

    /// Set archiving enabled.
    #[must_use]
    pub fn with_archiving(self, enabled: bool) -> (r: Self)
        ensures
            r.archiving.enabled == enabled,
            r.archiving.mode == self.archiving.mode,
            r.archiving.retention_days == self.archiving.retention_days,
            r.archiving.archive_path == self.archiving.archive_path,
            r.hash_verification == self.hash_verification,
            r.output == self.output,
    {
        let mut r = self;
        r.archiving.enabled = enabled;
        r
    }

    /// Set output path.
    #[must_use]
    pub fn with_output_path(self, path: &str) -> (r: Self)
        ensures
            r.output.path@ == path@,
            r.output.conflict_strategy == self.output.conflict_strategy,
            r.hash_verification == self.hash_verification,
            r.archiving == self.archiving,
    {
        let mut r = self;
        r.output.path = owned(path);
        r
    }
}

impl Default for ValidationConfig {
    fn default() -> (r: Self)
        ensures
            r.is_default(),
    {
        ValidationConfig {
            hash_verification: HashVerificationConfig::default(),
            archiving: ArchivingConfig::default(),
            output: OutputConfig::default(),
        }
    }
}

} // verus!
