//! Validation of filter lists before they are compiled: hash verification,
//! URL security, syntax checks, file conflicts and archives.

pub mod archive;
pub mod config;
pub mod error;
pub mod file_conflict;
pub mod hash;
pub mod runtime_enforcement;
pub mod syntax;
pub mod url_security;
pub mod validator;

pub use archive::{ArchiveManifest, ArchivedFile};
pub use config::{
    ArchivingConfig, ArchivingMode, ConflictStrategy, HashVerificationConfig, OutputConfig,
    ValidationConfig, VerificationMode,
};
pub use error::ValidationError;
pub use file_conflict::{resolve_conflict, FileConflictResolver};
pub use hash::{verify_file_hash, HashDatabase, HashEntry};
pub use runtime_enforcement::{
    verify_compilation_was_validated, CompilationInput, CompilationOptions,
    EnforcedCompilationResult, ValidationMetadata,
};
pub use syntax::{validate_syntax, FilterFormat, SyntaxValidationResult};
pub use url_security::UrlValidationResult;
pub use validator::Validator;

use vstd::prelude::*;

verus! {

/// Version of the validation rules.
pub const VERSION: &'static str = "0.1.0";

/// Name of the validation rules.
pub const NAME: &'static str = "adguard-validation-core";

} // verus!
