//! Event types and handlers for the compilation pipeline.
//!
//! Every stage of a compilation raises one event. The dispatcher hands the
//! event's arguments to the registered handlers, one at a time and in the
//! order of their registration. On the stages that can be called off, a
//! handler does so by setting a flag in the arguments, and the dispatcher
//! then calls no further handler.

use crate::text::owned;
use vstd::prelude::*;

verus! {

/// What `chrono::Utc::now().timestamp_millis()` returns is the time of the
/// call, in milliseconds since the Unix epoch: nothing can be said of it
/// beforehand.
#[verifier::external_body]
pub(crate) fn now_millis() -> (r: i64) {
    chrono::Utc::now().timestamp_millis()
}

/// Severity levels for validation findings.
#[derive(Debug, Clone, Copy, PartialEq, Eq, Structural)]
pub enum ValidationSeverity {
    /// Informational message.
    Info,
    /// Warning that doesn't prevent compilation.
    Warning,
    /// Error that prevents compilation.
    Error,
    /// Critical security issue that must block compilation.
    Critical,
}

impl ValidationSeverity {
    /// A finding of this severity makes a validation fail.
    pub open spec fn fails(self) -> bool {
        self == ValidationSeverity::Error || self == ValidationSeverity::Critical
    }
}

/// Types of file locks.
#[derive(Debug, Clone, Copy, PartialEq, Eq, Structural)]
pub enum FileLockType {
    /// Read-only lock (shared access, prevents writes).
    Read,
    /// Write lock (exclusive access).
    Write,
}

/// A single validation finding.
#[derive(Debug, Clone)]
pub struct ValidationFinding {
    /// Severity of the finding.
    pub severity: ValidationSeverity,
    /// Validation code (e.g., "ZT001" for zero-trust violations).
    pub code: String,
    /// Message describing the finding.
    pub message: String,
    /// Source or location of the finding.
    pub location: Option<String>,
    /// Additional context for the finding, as pairs of a name and a value.
    pub context: Option<Vec<(String, String)>>,
}

impl ValidationFinding {
    /// Create a new validation finding, without location or context.
    pub fn new(severity: ValidationSeverity, code: &str, message: &str) -> (r: Self)
        ensures
            r.severity == severity,
            r.code@ == code@,
            r.message@ == message@,
            r.location is None,
            r.context is None,
    {
        ValidationFinding {
            severity,
            code: owned(code),
            message: owned(message),
            location: None,
            context: None,
        }
    }

    /// Add a location to the finding.
    pub fn with_location(self, location: &str) -> (r: Self)
        ensures
            r.severity == self.severity,
            r.code == self.code,
            r.message == self.message,
            r.context == self.context,
            r.location is Some,
            r.location->0@ == location@,
    {
        let mut r = self;
        r.location = Some(owned(location));
        r
    }
}

/// Base event arguments with timestamp.
#[derive(Debug, Clone, Copy)]
pub struct EventTimestamp {
    /// When the event occurred, in milliseconds since the Unix epoch.
    pub timestamp: i64,
}

impl Default for EventTimestamp {
    /// The timestamp of the present moment.
    fn default() -> Self {
        EventTimestamp { timestamp: now_millis() }
    }
}

/// Event arguments for when compilation starts.
#[derive(Debug, Clone)]
pub struct CompilationStartedEventArgs {
    /// Base timestamp.
    pub base: EventTimestamp,
    /// Path to the configuration file.
    pub config_path: Option<String>,
    /// Whether to cancel compilation.
    pub cancel: bool,
    /// Reason for cancellation.
    pub cancel_reason: Option<String>,
}

impl Default for CompilationStartedEventArgs {
    fn default() -> (r: Self)
        ensures
            r.config_path is None,
            !r.cancel,
            r.cancel_reason is None,
    {
        CompilationStartedEventArgs {
            base: EventTimestamp::default(),
            config_path: None,
            cancel: false,
            cancel_reason: None,
        }
    }
}

/// Event arguments for when configuration is loaded.
#[derive(Debug, Clone)]
pub struct ConfigurationLoadedEventArgs {
    /// Base timestamp.
    pub base: EventTimestamp,
    /// Path to the configuration file.
    pub config_path: String,
    /// Name from the configuration.
    pub config_name: Option<String>,
    /// Number of sources in the configuration.
    pub source_count: usize,
}

impl Default for ConfigurationLoadedEventArgs {
    fn default() -> (r: Self)
        ensures
            r.config_path@.len() == 0,
            r.config_name is None,
            r.source_count == 0,
    {
        ConfigurationLoadedEventArgs {
            base: EventTimestamp::default(),
            config_path: String::new(),
            config_name: None,
            source_count: 0,
        }
    }
}

/// Event arguments for validation checkpoints (zero-trust).
#[derive(Debug, Clone)]
pub struct ValidationEventArgs {
    /// Base timestamp.
    pub base: EventTimestamp,
    /// Name of the validation stage.
    pub stage_name: String,
    /// List of validation findings.
    pub findings: Vec<ValidationFinding>,
    /// Duration of validation in milliseconds.
    pub duration_ms: u64,
    /// Number of items validated.
    pub items_validated: usize,
    /// Whether to abort compilation.
    pub abort: bool,
    /// Reason for aborting.
    pub abort_reason: Option<String>,
}

impl Default for ValidationEventArgs {
    fn default() -> (r: Self)
        ensures
            r.stage_name@.len() == 0,
            r.findings@.len() == 0,
            r.duration_ms == 0,
            r.items_validated == 0,
            !r.abort,
            r.abort_reason is None,
    {
        ValidationEventArgs {
            base: EventTimestamp::default(),
            stage_name: String::new(),
            findings: Vec::new(),
            duration_ms: 0,
            items_validated: 0,
            abort: false,
            abort_reason: None,
        }
    }
}

impl ValidationEventArgs {
    /// A validation has passed when none of its findings is an error or
    /// critical.
    pub open spec fn has_passed(&self) -> bool {
        forall|i: int| 0 <= i < self.findings@.len() ==> !(#[trigger] self.findings@[i]).severity.fails()
    }

    /// The arguments after one more finding: it stands after the others, and
    /// a critical finding calls the compilation off, with its message for the
    /// reason.
    pub open spec fn with_finding(self, after: Self, finding: ValidationFinding) -> bool {
        &&& after.base == self.base
        &&& after.stage_name == self.stage_name
        &&& after.duration_ms == self.duration_ms
        &&& after.items_validated == self.items_validated
        &&& after.findings@ == self.findings@.push(finding)
        &&& if finding.severity == ValidationSeverity::Critical {
            after.abort && after.abort_reason is Some && after.abort_reason->0@ == finding.message@
        } else {
            after.abort == self.abort && after.abort_reason == self.abort_reason
        }
    }

    /// Check if validation passed (no errors or critical findings).
    pub fn passed(&self) -> (r: bool)
        ensures
            r == self.has_passed(),
    {
        let mut i: usize = 0;
        while i < self.findings.len()
            invariant
                i <= self.findings.len(),
                forall|k: int| 0 <= k < i ==> !(#[trigger] self.findings@[k]).severity.fails(),
            decreases self.findings.len() - i,
        {
            match self.findings[i].severity {
                ValidationSeverity::Error => {
                    return false;
                },
                ValidationSeverity::Critical => {
                    return false;
                },
                _ => {},
            }
            i = i + 1;
        }
        true
    }

    /// Add a validation finding. A critical one sets the abort flag, and its
    /// message becomes the reason.
    pub fn add_finding(&mut self, finding: ValidationFinding)
        ensures
            old(self).with_finding(*final(self), finding),
    {
        match finding.severity {
            ValidationSeverity::Critical => {
                self.abort = true;
                self.abort_reason = Some(finding.message.clone());
            },
            _ => {},
        }
        self.findings.push(finding);
    }

    /// Add an error finding.
    pub fn add_error(&mut self, code: &str, message: &str)
        ensures
            exists|finding: ValidationFinding| #[trigger]
                old(self).with_finding(*final(self), finding) && finding.severity
                    == ValidationSeverity::Error && finding.code@ == code@ && finding.message@
                    == message@ && finding.location is None && finding.context is None,
    {
        let finding = ValidationFinding::new(ValidationSeverity::Error, code, message);
        self.add_finding(finding);
    }

    /// Add a warning finding.
    pub fn add_warning(&mut self, code: &str, message: &str)
        ensures
            exists|finding: ValidationFinding| #[trigger]
                old(self).with_finding(*final(self), finding) && finding.severity
                    == ValidationSeverity::Warning && finding.code@ == code@ && finding.message@
                    == message@ && finding.location is None && finding.context is None,
    {
        let finding = ValidationFinding::new(ValidationSeverity::Warning, code, message);
        self.add_finding(finding);
    }

    /// Add a critical finding and set abort flag.
    pub fn add_critical(&mut self, code: &str, message: &str)
        ensures
            final(self).abort,
            final(self).abort_reason is Some,
            final(self).abort_reason->0@ == message@,
            exists|finding: ValidationFinding| #[trigger]
                old(self).with_finding(*final(self), finding) && finding.severity
                    == ValidationSeverity::Critical && finding.code@ == code@ && finding.message@
                    == message@ && finding.location is None && finding.context is None,
    {
        let finding = ValidationFinding::new(ValidationSeverity::Critical, code, message);
        self.add_finding(finding);
    }
}

/// Event arguments for when a source is about to be loaded.
#[derive(Debug, Clone)]
pub struct SourceLoadingEventArgs {
    /// Base timestamp.
    pub base: EventTimestamp,
    /// Index of this source in the source list.
    pub source_index: usize,
    /// Total number of sources.
    pub total_sources: usize,
    /// Source URL or path.
    pub source_url: String,
    /// Source name.
    pub source_name: Option<String>,
    /// Whether this is a local file.
    pub is_local_file: bool,
    /// Whether to skip this source.
    pub skip: bool,
    /// Reason for skipping.
    pub skip_reason: Option<String>,
}

impl Default for SourceLoadingEventArgs {
    fn default() -> (r: Self)
        ensures
            r.source_index == 0,
            r.total_sources == 0,
            r.source_url@.len() == 0,
            r.source_name is None,
            !r.is_local_file,
            !r.skip,
            r.skip_reason is None,
    {
        SourceLoadingEventArgs {
            base: EventTimestamp::default(),
            source_index: 0,
            total_sources: 0,
            source_url: String::new(),
            source_name: None,
            is_local_file: false,
            skip: false,
            skip_reason: None,
        }
    }
}

/// Event arguments for when a source has been loaded.
#[derive(Debug, Clone)]
pub struct SourceLoadedEventArgs {
    /// Base timestamp.
    pub base: EventTimestamp,
    /// Index of this source.
    pub source_index: usize,
    /// Total number of sources.
    pub total_sources: usize,
    /// Source URL or path.
    pub source_url: String,
    /// Source name.
    pub source_name: Option<String>,
    /// Whether loading was successful.
    pub success: bool,
    /// Error message if loading failed.
    pub error_message: Option<String>,
    /// Size of content in bytes.
    pub content_size_bytes: u64,
    /// Estimated number of rules.
    pub estimated_rule_count: usize,
    /// Load duration in milliseconds.
    pub load_duration_ms: u64,
    /// SHA-256 hash of the content.
    pub content_hash: Option<String>,
}

impl Default for SourceLoadedEventArgs {
    fn default() -> (r: Self)
        ensures
            r.source_index == 0,
            r.total_sources == 0,
            r.source_url@.len() == 0,
            r.source_name is None,
            !r.success,
            r.error_message is None,
            r.content_size_bytes == 0,
            r.estimated_rule_count == 0,
            r.load_duration_ms == 0,
            r.content_hash is None,
    {
        SourceLoadedEventArgs {
            base: EventTimestamp::default(),
            source_index: 0,
            total_sources: 0,
            source_url: String::new(),
            source_name: None,
            success: false,
            error_message: None,
            content_size_bytes: 0,
            estimated_rule_count: 0,
            load_duration_ms: 0,
            content_hash: None,
        }
    }
}

/// Event arguments for when a file lock is acquired.
#[derive(Debug, Clone)]
pub struct FileLockAcquiredEventArgs {
    /// Base timestamp.
    pub base: EventTimestamp,
    /// Path to the locked file.
    pub file_path: String,
    /// Type of lock.
    pub lock_type: FileLockType,
    /// Lock identifier.
    pub lock_id: String,
    /// Content hash for integrity verification.
    pub content_hash: Option<String>,
}

impl Default for FileLockAcquiredEventArgs {
    fn default() -> (r: Self)
        ensures
            r.file_path@.len() == 0,
            r.lock_type == FileLockType::Read,
            r.lock_id@.len() == 0,
            r.content_hash is None,
    {
        FileLockAcquiredEventArgs {
            base: EventTimestamp::default(),
            file_path: String::new(),
            lock_type: FileLockType::Read,
            lock_id: String::new(),
            content_hash: None,
        }
    }
}

/// Event arguments for when a file lock is released.
#[derive(Debug, Clone)]
pub struct FileLockReleasedEventArgs {
    /// Base timestamp.
    pub base: EventTimestamp,
    /// Path to the unlocked file.
    pub file_path: String,
    /// Lock identifier.
    pub lock_id: String,
    /// Duration the lock was held in milliseconds.
    pub lock_duration_ms: u64,
    /// Whether the file was modified.
    pub was_modified: bool,
    /// Content hash before lock.
    pub hash_before: Option<String>,
    /// Content hash after release.
    pub hash_after: Option<String>,
}

impl Default for FileLockReleasedEventArgs {
    fn default() -> (r: Self)
        ensures
            r.file_path@.len() == 0,
            r.lock_id@.len() == 0,
            r.lock_duration_ms == 0,
            !r.was_modified,
            r.hash_before is None,
            r.hash_after is None,
    {
        FileLockReleasedEventArgs {
            base: EventTimestamp::default(),
            file_path: String::new(),
            lock_id: String::new(),
            lock_duration_ms: 0,
            was_modified: false,
            hash_before: None,
            hash_after: None,
        }
    }
}

/// Event arguments for when a file lock fails.
#[derive(Debug, Clone)]
pub struct FileLockFailedEventArgs {
    /// Base timestamp.
    pub base: EventTimestamp,
    /// Path to the file.
    pub file_path: String,
    /// Type of lock attempted.
    pub lock_type: FileLockType,
    /// Reason for failure.
    pub reason: String,
    /// Whether to continue without lock.
    pub continue_without_lock: bool,
    /// Error message.
    pub error_message: Option<String>,
}

impl Default for FileLockFailedEventArgs {
    fn default() -> (r: Self)
        ensures
            r.file_path@.len() == 0,
            r.lock_type == FileLockType::Read,
            r.reason@.len() == 0,
            !r.continue_without_lock,
            r.error_message is None,
    {
        FileLockFailedEventArgs {
            base: EventTimestamp::default(),
            file_path: String::new(),
            lock_type: FileLockType::Read,
            reason: String::new(),
            continue_without_lock: false,
            error_message: None,
        }
    }
}

/// Event arguments for when a chunk starts processing.
#[derive(Debug, Clone)]
pub struct ChunkStartedEventArgs {
    /// Base timestamp.
    pub base: EventTimestamp,
    /// Chunk index.
    pub chunk_index: usize,
    /// Total number of chunks.
    pub total_chunks: usize,
    /// Number of sources in this chunk.
    pub source_count: usize,
    /// Estimated number of rules.
    pub estimated_rules: usize,
    /// Whether to skip this chunk.
    pub skip: bool,
    /// Reason for skipping.
    pub skip_reason: Option<String>,
}

impl Default for ChunkStartedEventArgs {
    fn default() -> (r: Self)
        ensures
            r.chunk_index == 0,
            r.total_chunks == 0,
            r.source_count == 0,
            r.estimated_rules == 0,
            !r.skip,
            r.skip_reason is None,
    {
        ChunkStartedEventArgs {
            base: EventTimestamp::default(),
            chunk_index: 0,
            total_chunks: 0,
            source_count: 0,
            estimated_rules: 0,
            skip: false,
            skip_reason: None,
        }
    }
}

/// Event arguments for when a chunk completes processing.
#[derive(Debug, Clone)]
pub struct ChunkCompletedEventArgs {
    /// Base timestamp.
    pub base: EventTimestamp,
    /// Chunk index.
    pub chunk_index: usize,
    /// Total number of chunks.
    pub total_chunks: usize,
    /// Whether processing was successful.
    pub success: bool,
    /// Error message if failed.
    pub error_message: Option<String>,
    /// Number of rules in the result.
    pub rule_count: usize,
    /// Processing duration in milliseconds.
    pub duration_ms: u64,
}

impl Default for ChunkCompletedEventArgs {
    fn default() -> (r: Self)
        ensures
            r.chunk_index == 0,
            r.total_chunks == 0,
            !r.success,
            r.error_message is None,
            r.rule_count == 0,
            r.duration_ms == 0,
    {
        ChunkCompletedEventArgs {
            base: EventTimestamp::default(),
            chunk_index: 0,
            total_chunks: 0,
            success: false,
            error_message: None,
            rule_count: 0,
            duration_ms: 0,
        }
    }
}

/// Event arguments for when chunks are about to be merged.
#[derive(Debug, Clone)]
pub struct ChunksMergingEventArgs {
    /// Base timestamp.
    pub base: EventTimestamp,
    /// Number of chunks to merge.
    pub chunk_count: usize,
    /// Total rules before merge.
    pub total_rules_before_merge: usize,
}

impl Default for ChunksMergingEventArgs {
    fn default() -> (r: Self)
        ensures
            r.chunk_count == 0,
            r.total_rules_before_merge == 0,
    {
        ChunksMergingEventArgs {
            base: EventTimestamp::default(),
            chunk_count: 0,
            total_rules_before_merge: 0,
        }
    }
}

/// Event arguments for when chunks have been merged.
#[derive(Debug, Clone)]
pub struct ChunksMergedEventArgs {
    /// Base timestamp.
    pub base: EventTimestamp,
    /// Number of chunks merged.
    pub chunk_count: usize,
    /// Total rules before merge.
    pub total_rules_before_merge: usize,
    /// Final rule count after deduplication.
    pub final_rule_count: usize,
    /// Number of duplicates removed.
    pub duplicates_removed: usize,
    /// Merge duration in milliseconds.
    pub duration_ms: u64,
}

impl Default for ChunksMergedEventArgs {
    fn default() -> (r: Self)
        ensures
            r.chunk_count == 0,
            r.total_rules_before_merge == 0,
            r.final_rule_count == 0,
            r.duplicates_removed == 0,
            r.duration_ms == 0,
    {
        ChunksMergedEventArgs {
            base: EventTimestamp::default(),
            chunk_count: 0,
            total_rules_before_merge: 0,
            final_rule_count: 0,
            duplicates_removed: 0,
            duration_ms: 0,
        }
    }
}

/// Event arguments for when compilation completes successfully.
#[derive(Debug, Clone)]
pub struct CompilationCompletedEventArgs {
    /// Base timestamp.
    pub base: EventTimestamp,
    /// Number of rules compiled.
    pub rule_count: usize,
    /// Output file path.
    pub output_path: Option<String>,
    /// Compilation duration in milliseconds.
    pub duration_ms: u64,
    /// Content hash.
    pub content_hash: Option<String>,
}

impl Default for CompilationCompletedEventArgs {
    fn default() -> (r: Self)
        ensures
            r.rule_count == 0,
            r.output_path is None,
            r.duration_ms == 0,
            r.content_hash is None,
    {
        CompilationCompletedEventArgs {
            base: EventTimestamp::default(),
            rule_count: 0,
            output_path: None,
            duration_ms: 0,
            content_hash: None,
        }
    }
}

/// Event arguments for when compilation fails.
#[derive(Debug, Clone)]
pub struct CompilationErrorEventArgs {
    /// Base timestamp.
    pub base: EventTimestamp,
    /// Error message.
    pub error_message: String,
    /// Error code.
    pub error_code: Option<String>,
    /// Whether the error was handled.
    pub handled: bool,
}

impl Default for CompilationErrorEventArgs {
    fn default() -> (r: Self)
        ensures
            r.error_message@.len() == 0,
            r.error_code is None,
            !r.handled,
    {
        CompilationErrorEventArgs {
            base: EventTimestamp::default(),
            error_message: String::new(),
            error_code: None,
            handled: false,
        }
    }
}

/// Trait for handling compilation events.
///
/// Implement this trait to receive notifications during compilation.
///
/// A handler may change the arguments of six of the events. For each of them
/// the trait has a relation between the arguments before and after the call,
/// which an implementation states and keeps; as the trait gives it, the
/// relation says that the handler leaves the arguments as they are. The
/// notifications that cannot change their arguments do nothing unless an
/// implementation says otherwise.
pub trait CompilationEventHandler: Send + Sync {
    /// What `on_compilation_starting` may do to its arguments.
    open spec fn compilation_starting_effect(
        &self,
        before: CompilationStartedEventArgs,
        after: CompilationStartedEventArgs,
    ) -> bool {
        after == before
    }

    /// What `on_validation` may do to its arguments.
    open spec fn validation_effect(
        &self,
        before: ValidationEventArgs,
        after: ValidationEventArgs,
    ) -> bool {
        after == before
    }

    /// What `on_source_loading` may do to its arguments.
    open spec fn source_loading_effect(
        &self,
        before: SourceLoadingEventArgs,
        after: SourceLoadingEventArgs,
    ) -> bool {
        after == before
    }

    /// What `on_file_lock_failed` may do to its arguments.
    open spec fn file_lock_failed_effect(
        &self,
        before: FileLockFailedEventArgs,
        after: FileLockFailedEventArgs,
    ) -> bool {
        after == before
    }

    /// What `on_chunk_started` may do to its arguments.
    open spec fn chunk_started_effect(
        &self,
        before: ChunkStartedEventArgs,
        after: ChunkStartedEventArgs,
    ) -> bool {
        after == before
    }

    /// What `on_compilation_error` may do to its arguments.
    open spec fn compilation_error_effect(
        &self,
        before: CompilationErrorEventArgs,
        after: CompilationErrorEventArgs,
    ) -> bool {
        after == before
    }

    /// Called when compilation is about to start.
    fn on_compilation_starting(&self, args: &mut CompilationStartedEventArgs)
        ensures
            self.compilation_starting_effect(*old(args), *final(args)),
    ;

    /// Called when configuration has been loaded.
    fn on_configuration_loaded(&self, args: &ConfigurationLoadedEventArgs) {
    }

    /// Called at validation checkpoints.
    fn on_validation(&self, args: &mut ValidationEventArgs)
        ensures
            self.validation_effect(*old(args), *final(args)),
    ;

    /// Called when a source is about to be loaded.
    fn on_source_loading(&self, args: &mut SourceLoadingEventArgs)
        ensures
            self.source_loading_effect(*old(args), *final(args)),
    ;

    /// Called when a source has been loaded.
    fn on_source_loaded(&self, args: &SourceLoadedEventArgs) {
    }

    /// Called when a file lock is acquired.
    fn on_file_lock_acquired(&self, args: &FileLockAcquiredEventArgs) {
    }

    /// Called when a file lock is released.
    fn on_file_lock_released(&self, args: &FileLockReleasedEventArgs) {
    }

    /// Called when a file lock fails.
    fn on_file_lock_failed(&self, args: &mut FileLockFailedEventArgs)
        ensures
            self.file_lock_failed_effect(*old(args), *final(args)),
    ;

    /// Called when a chunk starts processing.
    fn on_chunk_started(&self, args: &mut ChunkStartedEventArgs)
        ensures
            self.chunk_started_effect(*old(args), *final(args)),
    ;

    /// Called when a chunk completes processing.
    fn on_chunk_completed(&self, args: &ChunkCompletedEventArgs) {
    }

    /// Called when chunks are about to be merged.
    fn on_chunks_merging(&self, args: &ChunksMergingEventArgs) {
    }

    /// Called when chunks have been merged.
    fn on_chunks_merged(&self, args: &ChunksMergedEventArgs) {
    }

    /// Called when compilation completes successfully.
    fn on_compilation_completed(&self, args: &CompilationCompletedEventArgs) {
    }

    /// Called when compilation fails.
    fn on_compilation_error(&self, args: &mut CompilationErrorEventArgs)
        ensures
            self.compilation_error_effect(*old(args), *final(args)),
    ;
}

/// Dispatches compilation events to registered handlers.
pub struct EventDispatcher {
    /// The handlers, in the order of their registration.
    pub handlers: Vec<Box<dyn CompilationEventHandler>>,
}

impl Default for EventDispatcher {
    fn default() -> (r: Self)
        ensures
            r.handlers@.len() == 0,
    {
        EventDispatcher { handlers: Vec::new() }
    }
}

impl EventDispatcher {
    /// Create a new event dispatcher.
    pub fn new() -> (r: Self)
        ensures
            r.handlers@.len() == 0,
    {
        EventDispatcher { handlers: Vec::new() }
    }

    /// Add an event handler, after those that are registered.
    pub fn add_handler(&mut self, handler: Box<dyn CompilationEventHandler>)
        ensures
            final(self).handlers@ == old(self).handlers@.push(handler),
    {
        self.handlers.push(handler);
    }

    /// Get the number of registered handlers.
    pub fn handler_count(&self) -> (r: usize)
        ensures
            r == self.handlers@.len(),
    {
        self.handlers.len()
    }

    /// `trace` is what a "compilation starting" event went through: the
    /// arguments as they were raised, then as each handler that was called
    /// left them. The handlers are called in their order, from the first; a
    /// handler is called only while none before it has left the event
    /// cancelled.
    pub open spec fn compilation_starting_trace(
        &self,
        trace: Seq<CompilationStartedEventArgs>,
    ) -> bool {
        &&& 1 <= trace.len() <= self.handlers@.len() + 1
        &&& forall|i: int|
            0 <= i < trace.len() - 1 ==> (#[trigger] self.handlers@[i]).compilation_starting_effect(
                trace[i],
                trace[i + 1],
            )
        &&& forall|i: int| 1 <= i < trace.len() - 1 ==> !(#[trigger] trace[i]).cancel
        &&& trace.len() - 1 < self.handlers@.len() ==> trace.len() >= 2 && trace.last().cancel
    }

    /// Raise the compilation starting event. No handler is called after one
    /// that has left the event cancelled.
    pub fn raise_compilation_starting(&self, args: &mut CompilationStartedEventArgs)
        ensures
            exists|trace: Seq<CompilationStartedEventArgs>| #[trigger]
                self.compilation_starting_trace(trace) && trace[0] == *old(args) && trace.last()
                    == *final(args),
    {
        let ghost mut trace = seq![*args];
        let mut i: usize = 0;
        while i < self.handlers.len()
            invariant
                i <= self.handlers.len(),
                trace.len() == i + 1,
                trace[0] == *old(args),
                trace.last() == *args,
                forall|k: int|
                    0 <= k < trace.len() - 1 ==> (
                    #[trigger] self.handlers@[k]).compilation_starting_effect(
                        trace[k],
                        trace[k + 1],
                    ),
                forall|k: int| 1 <= k < trace.len() ==> !(#[trigger] trace[k]).cancel,
            decreases self.handlers.len() - i,
        {
            self.handlers[i].on_compilation_starting(args);
            proof {
                trace = trace.push(*args);
            }
            if args.cancel {
                assert(self.compilation_starting_trace(trace));
                return ;
            }
            i = i + 1;
        }
        assert(self.compilation_starting_trace(trace));
    }

    /// Raise the configuration loaded event: every handler is notified, in
    /// the order of registration.
    pub fn raise_configuration_loaded(&self, args: &ConfigurationLoadedEventArgs) {
        let mut i: usize = 0;
        while i < self.handlers.len()
            invariant
                i <= self.handlers.len(),
            decreases self.handlers.len() - i,
        {
            self.handlers[i].on_configuration_loaded(args);
            i = i + 1;
        }
    }

    /// `trace` is what a validation event went through: the arguments as they
    /// were raised, then as each handler that was called left them. A handler
    /// is called only while none before it has left the abort flag set.
    pub open spec fn validation_trace(&self, trace: Seq<ValidationEventArgs>) -> bool {
        &&& 1 <= trace.len() <= self.handlers@.len() + 1
        &&& forall|i: int|
            0 <= i < trace.len() - 1 ==> (#[trigger] self.handlers@[i]).validation_effect(
                trace[i],
                trace[i + 1],
            )
        &&& forall|i: int| 1 <= i < trace.len() - 1 ==> !(#[trigger] trace[i]).abort
        &&& trace.len() - 1 < self.handlers@.len() ==> trace.len() >= 2 && trace.last().abort
    }

    /// Raise a validation checkpoint event. No handler is called after one
    /// that has left the abort flag set.
    pub fn raise_validation(&self, args: &mut ValidationEventArgs)
        ensures
            exists|trace: Seq<ValidationEventArgs>| #[trigger]
                self.validation_trace(trace) && trace[0] == *old(args) && trace.last()
                    == *final(args),
    {
        let ghost mut trace = seq![*args];
        let mut i: usize = 0;
        while i < self.handlers.len()
            invariant
                i <= self.handlers.len(),
                trace.len() == i + 1,
                trace[0] == *old(args),
                trace.last() == *args,
                forall|k: int|
                    0 <= k < trace.len() - 1 ==> (#[trigger] self.handlers@[k]).validation_effect(
                        trace[k],
                        trace[k + 1],
                    ),
                forall|k: int| 1 <= k < trace.len() ==> !(#[trigger] trace[k]).abort,
            decreases self.handlers.len() - i,
        {
            self.handlers[i].on_validation(args);
            proof {
                trace = trace.push(*args);
            }
            if args.abort {
                assert(self.validation_trace(trace));
                return ;
            }
            i = i + 1;
        }
        assert(self.validation_trace(trace));
    }

    /// `trace` is what a "source loading" event went through: the arguments
    /// as they were raised, then as each handler that was called left them. A
    /// handler is called only while none before it has left the source
    /// skipped.
    pub open spec fn source_loading_trace(&self, trace: Seq<SourceLoadingEventArgs>) -> bool {
        &&& 1 <= trace.len() <= self.handlers@.len() + 1
        &&& forall|i: int|
            0 <= i < trace.len() - 1 ==> (#[trigger] self.handlers@[i]).source_loading_effect(
                trace[i],
                trace[i + 1],
            )
        &&& forall|i: int| 1 <= i < trace.len() - 1 ==> !(#[trigger] trace[i]).skip
        &&& trace.len() - 1 < self.handlers@.len() ==> trace.len() >= 2 && trace.last().skip
    }

    /// Raise the source loading event. No handler is called after one that
    /// has left the source skipped.
    pub fn raise_source_loading(&self, args: &mut SourceLoadingEventArgs)
        ensures
            exists|trace: Seq<SourceLoadingEventArgs>| #[trigger]
                self.source_loading_trace(trace) && trace[0] == *old(args) && trace.last()
                    == *final(args),
    {
        let ghost mut trace = seq![*args];
        let mut i: usize = 0;
        while i < self.handlers.len()
            invariant
                i <= self.handlers.len(),
                trace.len() == i + 1,
                trace[0] == *old(args),
                trace.last() == *args,
                forall|k: int|
                    0 <= k < trace.len() - 1 ==> (
                    #[trigger] self.handlers@[k]).source_loading_effect(trace[k], trace[k + 1]),
                forall|k: int| 1 <= k < trace.len() ==> !(#[trigger] trace[k]).skip,
            decreases self.handlers.len() - i,
        {
            self.handlers[i].on_source_loading(args);
            proof {
                trace = trace.push(*args);
            }
            if args.skip {
                assert(self.source_loading_trace(trace));
                return ;
            }
            i = i + 1;
        }
        assert(self.source_loading_trace(trace));
    }

    /// Raise the source loaded event: every handler is notified, in the order
    /// of registration.
    pub fn raise_source_loaded(&self, args: &SourceLoadedEventArgs) {
        let mut i: usize = 0;
        while i < self.handlers.len()
            invariant
                i <= self.handlers.len(),
            decreases self.handlers.len() - i,
        {
            self.handlers[i].on_source_loaded(args);
            i = i + 1;
        }
    }

    /// Raise the file lock acquired event: every handler is notified, in the
    /// order of registration.
    pub fn raise_file_lock_acquired(&self, args: &FileLockAcquiredEventArgs) {
        let mut i: usize = 0;
        while i < self.handlers.len()
            invariant
                i <= self.handlers.len(),
            decreases self.handlers.len() - i,
        {
            self.handlers[i].on_file_lock_acquired(args);
            i = i + 1;
        }
    }

    /// Raise the file lock released event: every handler is notified, in the
    /// order of registration.
    pub fn raise_file_lock_released(&self, args: &FileLockReleasedEventArgs) {
        let mut i: usize = 0;
        while i < self.handlers.len()
            invariant
                i <= self.handlers.len(),
            decreases self.handlers.len() - i,
        {
            self.handlers[i].on_file_lock_released(args);
            i = i + 1;
        }
    }

    /// `trace` is what a "file lock failed" event went through: the arguments
    /// as they were raised, then as each handler left them. Every handler is
    /// called.
    pub open spec fn file_lock_failed_trace(&self, trace: Seq<FileLockFailedEventArgs>) -> bool {
        &&& trace.len() == self.handlers@.len() + 1
        &&& forall|i: int|
            0 <= i < trace.len() - 1 ==> (#[trigger] self.handlers@[i]).file_lock_failed_effect(
                trace[i],
                trace[i + 1],
            )
    }

    /// Raise the file lock failed event. Every handler is called, whatever
    /// the handlers before it have done.
    pub fn raise_file_lock_failed(&self, args: &mut FileLockFailedEventArgs)
        ensures
            exists|trace: Seq<FileLockFailedEventArgs>| #[trigger]
                self.file_lock_failed_trace(trace) && trace[0] == *old(args) && trace.last()
                    == *final(args),
    {
        let ghost mut trace = seq![*args];
        let mut i: usize = 0;
        while i < self.handlers.len()
            invariant
                i <= self.handlers.len(),
                trace.len() == i + 1,
                trace[0] == *old(args),
                trace.last() == *args,
                forall|k: int|
                    0 <= k < trace.len() - 1 ==> (
                    #[trigger] self.handlers@[k]).file_lock_failed_effect(trace[k], trace[k + 1]),
            decreases self.handlers.len() - i,
        {
            self.handlers[i].on_file_lock_failed(args);
            proof {
                trace = trace.push(*args);
            }
            i = i + 1;
        }
        assert(self.file_lock_failed_trace(trace));
    }

    /// `trace` is what a "chunk started" event went through: the arguments as
    /// they were raised, then as each handler that was called left them. A
    /// handler is called only while none before it has left the chunk
    /// skipped.
    pub open spec fn chunk_started_trace(&self, trace: Seq<ChunkStartedEventArgs>) -> bool {
        &&& 1 <= trace.len() <= self.handlers@.len() + 1
        &&& forall|i: int|
            0 <= i < trace.len() - 1 ==> (#[trigger] self.handlers@[i]).chunk_started_effect(
                trace[i],
                trace[i + 1],
            )
        &&& forall|i: int| 1 <= i < trace.len() - 1 ==> !(#[trigger] trace[i]).skip
        &&& trace.len() - 1 < self.handlers@.len() ==> trace.len() >= 2 && trace.last().skip
    }

    /// Raise the chunk started event. No handler is called after one that has
    /// left the chunk skipped.
    pub fn raise_chunk_started(&self, args: &mut ChunkStartedEventArgs)
        ensures
            exists|trace: Seq<ChunkStartedEventArgs>| #[trigger]
                self.chunk_started_trace(trace) && trace[0] == *old(args) && trace.last()
                    == *final(args),
    {
        let ghost mut trace = seq![*args];
        let mut i: usize = 0;
        while i < self.handlers.len()
            invariant
                i <= self.handlers.len(),
                trace.len() == i + 1,
                trace[0] == *old(args),
                trace.last() == *args,
                forall|k: int|
                    0 <= k < trace.len() - 1 ==> (
                    #[trigger] self.handlers@[k]).chunk_started_effect(trace[k], trace[k + 1]),
                forall|k: int| 1 <= k < trace.len() ==> !(#[trigger] trace[k]).skip,
            decreases self.handlers.len() - i,
        {
            self.handlers[i].on_chunk_started(args);
            proof {
                trace = trace.push(*args);
            }
            if args.skip {
                assert(self.chunk_started_trace(trace));
                return ;
            }
            i = i + 1;
        }
        assert(self.chunk_started_trace(trace));
    }

    /// Raise the chunk completed event: every handler is notified, in the
    /// order of registration.
    pub fn raise_chunk_completed(&self, args: &ChunkCompletedEventArgs) {
        let mut i: usize = 0;
        while i < self.handlers.len()
            invariant
                i <= self.handlers.len(),
            decreases self.handlers.len() - i,
        {
            self.handlers[i].on_chunk_completed(args);
            i = i + 1;
        }
    }

    /// Raise the chunks merging event: every handler is notified, in the
    /// order of registration.
    pub fn raise_chunks_merging(&self, args: &ChunksMergingEventArgs) {
        let mut i: usize = 0;
        while i < self.handlers.len()
            invariant
                i <= self.handlers.len(),
            decreases self.handlers.len() - i,
        {
            self.handlers[i].on_chunks_merging(args);
            i = i + 1;
        }
    }

    /// Raise the chunks merged event: every handler is notified, in the order
    /// of registration.
    pub fn raise_chunks_merged(&self, args: &ChunksMergedEventArgs) {
        let mut i: usize = 0;
        while i < self.handlers.len()
            invariant
                i <= self.handlers.len(),
            decreases self.handlers.len() - i,
        {
            self.handlers[i].on_chunks_merged(args);
            i = i + 1;
        }
    }

    /// Raise the compilation completed event: every handler is notified, in
    /// the order of registration.
    pub fn raise_compilation_completed(&self, args: &CompilationCompletedEventArgs) {
        let mut i: usize = 0;
        while i < self.handlers.len()
            invariant
                i <= self.handlers.len(),
            decreases self.handlers.len() - i,
        {
            self.handlers[i].on_compilation_completed(args);
            i = i + 1;
        }
    }

    /// `trace` is what a compilation error event went through: the arguments
    /// as they were raised, then as each handler left them. Every handler is
    /// called.
    pub open spec fn compilation_error_trace(
        &self,
        trace: Seq<CompilationErrorEventArgs>,
    ) -> bool {
        &&& trace.len() == self.handlers@.len() + 1
        &&& forall|i: int|
            0 <= i < trace.len() - 1 ==> (#[trigger] self.handlers@[i]).compilation_error_effect(
                trace[i],
                trace[i + 1],
            )
    }

    /// Raise the compilation error event. Every handler is called, whatever
    /// the handlers before it have done.
    pub fn raise_compilation_error(&self, args: &mut CompilationErrorEventArgs)
        ensures
            exists|trace: Seq<CompilationErrorEventArgs>| #[trigger]
                self.compilation_error_trace(trace) && trace[0] == *old(args) && trace.last()
                    == *final(args),
    {
        let ghost mut trace = seq![*args];
        let mut i: usize = 0;
        while i < self.handlers.len()
            invariant
                i <= self.handlers.len(),
                trace.len() == i + 1,
                trace[0] == *old(args),
                trace.last() == *args,
                forall|k: int|
                    0 <= k < trace.len() - 1 ==> (
                    #[trigger] self.handlers@[k]).compilation_error_effect(trace[k], trace[k + 1]),
            decreases self.handlers.len() - i,
        {
            self.handlers[i].on_compilation_error(args);
            proof {
                trace = trace.push(*args);
            }
            i = i + 1;
        }
        assert(self.compilation_error_trace(trace));
    }
}

/// A dispatch that was called off ran no handler after the one that called it
/// off: where fewer handlers were called than are registered, the arguments
/// that come back are those that the last handler called has left, with the
/// abort flag set, and every handler before it had left the flag clear.
pub proof fn lemma_validation_stops_at_first_abort(
    dispatcher: EventDispatcher,
    trace: Seq<ValidationEventArgs>,
)
    requires
        dispatcher.validation_trace(trace),
    ensures
        trace.last().abort && trace.len() >= 2 ==> forall|i: int|
            1 <= i < trace.len() ==> ((#[trigger] trace[i]).abort <==> i == trace.len() - 1),
        !trace.last().abort ==> trace.len() == dispatcher.handlers@.len() + 1,
{
}

} // verus!
