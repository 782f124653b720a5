//! Chunked compilation of filter rule lists.
//!
//! A compilation job is split into chunks of neighbouring sources, the chunks
//! are compiled by an outside compiler, a bounded number of them at a time,
//! and what they produce is merged into one list without repeated rules.
//! Every stage of the pipeline raises an event that handlers can call off,
//! and local source files are locked and hashed so that a change under a lock
//! is found out.
//!
//! The library decides and computes; it starts no process and opens no file.
//! Its callers do that, and hand it what they have read.

pub mod api_cli;
pub mod chunking;
pub mod compiler;
pub mod config;
pub mod error;
pub mod events;
pub mod executor;
pub mod file_lock;
pub mod frontend;
pub mod hashing;
pub mod paths;
pub mod patterns;
pub mod text;
pub mod validation;

pub use chunking::{
    estimate_speedup, merge_chunks, should_enable_chunking, split_into_chunks,
    ChunkMetadata, ChunkedCompilationResult, ChunkingOptions, ChunkingStrategy,
};
pub use compiler::{
    compute_hash, count_rules, CompileOptions, CompilerResult, PlatformInfo, RulesCompiler,
    VersionInfo,
};
pub use config::{CompilerConfig, ConfigFormat, FilterSource, SourceType, Transformation};
pub use error::{CompilerError, Result};
pub use events::{
    ChunkCompletedEventArgs, ChunkStartedEventArgs, ChunksMergedEventArgs, ChunksMergingEventArgs,
    CompilationCompletedEventArgs, CompilationErrorEventArgs, CompilationEventHandler,
    CompilationStartedEventArgs, ConfigurationLoadedEventArgs, EventDispatcher, EventTimestamp,
    FileLockAcquiredEventArgs, FileLockFailedEventArgs, FileLockReleasedEventArgs, FileLockType,
    SourceLoadedEventArgs, SourceLoadingEventArgs, ValidationEventArgs, ValidationFinding,
    ValidationSeverity,
};
pub use executor::{run_all, ChunkOutcome, ChunkRun};
pub use file_lock::{FileLockHandle, FileLockService, LockFailurePolicy};

use vstd::prelude::*;

verus! {

/// Library version.
pub const VERSION: &'static str = "0.1.0";

/// Library name.
pub const NAME: &'static str = "rules-compiler";

/// Library description.
pub const DESCRIPTION: &'static str = "Chunked compilation of AdGuard filter rule lists";

} // verus!
