//! The errors of a compilation.

use crate::text::{concat, owned};
use vstd::prelude::*;

verus! {

/// Errors that can occur during compilation operations.
///
/// Where the failure came from the operating system or from a parser, the
/// variant carries that failure's message as text.
#[derive(Debug)]
#[non_exhaustive]
pub enum CompilerError {
    /// Configuration file was not found at the specified path.
    ConfigNotFound {
        /// The path that was searched.
        path: String,
    },
    /// The configuration file extension is not recognized.
    UnknownExtension {
        /// The unrecognized extension.
        extension: String,
    },
    /// Failed to parse JSON configuration.
    JsonParse {
        /// The parser's message.
        source: String,
    },
    /// Failed to parse YAML configuration.
    YamlParse {
        /// The parser's message.
        source: String,
    },
    /// Failed to parse TOML configuration.
    TomlParse {
        /// The parser's message.
        source: String,
    },
    /// Configuration validation failed.
    ValidationFailed {
        /// Description of the validation error.
        message: String,
    },
    /// File system operation failed.
    FileSystem {
        /// Context describing the operation that failed.
        context: String,
        /// The operating system's message.
        source: String,
    },
    /// The hostlist-compiler tool was not found.
    CompilerNotFound,
    /// Compilation process failed.
    CompilationFailed {
        /// Description of the failure.
        message: String,
        /// Exit code from the compiler process.
        exit_code: Option<i32>,
        /// Standard error output from the compiler.
        stderr: Option<String>,
    },
    /// Output file was not created after compilation.
    OutputNotCreated {
        /// The expected output path.
        path: String,
    },
    /// Failed to copy output to rules directory.
    CopyFailed {
        /// Context describing the copy operation.
        context: String,
        /// The operating system's message.
        source: String,
    },
    /// Process execution failed.
    ProcessExecution {
        /// The command that failed.
        command: String,
        /// The operating system's message.
        source: String,
    },
    /// Hash verification failed.
    HashMismatch {
        /// The path to the file with mismatched hash.
        path: String,
        /// The expected hash value.
        expected: String,
        /// The actual hash value.
        actual: String,
    },
    /// Generic I/O error, by its message.
    Io(String),
}

/// Result type alias for compiler operations.
pub type Result<T> = std::result::Result<T, CompilerError>;

impl CompilerError {
    /// Create a new `ConfigNotFound` error.
    #[must_use]
    pub fn config_not_found(path: &str) -> (e: Self)
        ensures
            e matches CompilerError::ConfigNotFound { path: p } && p@ == path@,
    {
        CompilerError::ConfigNotFound { path: owned(path) }
    }

    /// Create a new `UnknownExtension` error.
    #[must_use]
    pub fn unknown_extension(extension: &str) -> (e: Self)
        ensures
            e matches CompilerError::UnknownExtension { extension: x } && x@ == extension@,
    {
        CompilerError::UnknownExtension { extension: owned(extension) }
    }

    /// Create a new `ValidationFailed` error.
    #[must_use]
    pub fn validation_failed(message: &str) -> (e: Self)
        ensures
            e matches CompilerError::ValidationFailed { message: m } && m@ == message@,
    {
        CompilerError::ValidationFailed { message: owned(message) }
    }

    /// Create a new `FileSystem` error.
    #[must_use]
    pub fn file_system(context: &str, source: &str) -> (e: Self)
        ensures
            e matches CompilerError::FileSystem { context: c, source: s } && c@ == context@ && s@
                == source@,
    {
        CompilerError::FileSystem { context: owned(context), source: owned(source) }
    }

    /// Create a new `CompilationFailed` error.
    #[must_use]
    pub fn compilation_failed(message: &str, exit_code: Option<i32>, stderr: Option<String>) -> (e:
        Self)
        ensures
            e matches CompilerError::CompilationFailed { message: m, exit_code: c, stderr: s }
                && m@ == message@ && c == exit_code && s == stderr,
    {
        CompilerError::CompilationFailed { message: owned(message), exit_code, stderr }
    }

    /// Create a new `OutputNotCreated` error.
    #[must_use]
    pub fn output_not_created(path: &str) -> (e: Self)
        ensures
            e matches CompilerError::OutputNotCreated { path: p } && p@ == path@,
    {
        CompilerError::OutputNotCreated { path: owned(path) }
    }

    /// Create a new `CopyFailed` error.
    #[must_use]
    pub fn copy_failed(context: &str, source: &str) -> (e: Self)
        ensures
            e matches CompilerError::CopyFailed { context: c, source: s } && c@ == context@ && s@
                == source@,
    {
        CompilerError::CopyFailed { context: owned(context), source: owned(source) }
    }

    /// Create a new `ProcessExecution` error.
    #[must_use]
    pub fn process_execution(command: &str, source: &str) -> (e: Self)
        ensures
            e matches CompilerError::ProcessExecution { command: c, source: s } && c@ == command@
                && s@ == source@,
    {
        CompilerError::ProcessExecution { command: owned(command), source: owned(source) }
    }

    /// Create a new `HashMismatch` error.
    #[must_use]
    pub fn hash_mismatch(path: &str, expected: &str, actual: &str) -> (e: Self)
        ensures
            e matches CompilerError::HashMismatch { path: p, expected: x, actual: a } && p@
                == path@ && x@ == expected@ && a@ == actual@,
    {
        CompilerError::HashMismatch {
            path: owned(path),
            expected: owned(expected),
            actual: owned(actual),
        }
    }

    /// The errors that a caller can mend by naming another file or fixing the
    /// configuration.
    pub open spec fn recoverable(&self) -> bool {
        self is ConfigNotFound || self is UnknownExtension || self is ValidationFailed
    }

    /// Check if this error is recoverable.
    #[must_use]
    pub fn is_recoverable(&self) -> (r: bool)
        ensures
            r == self.recoverable(),
    {
        match self {
            CompilerError::ConfigNotFound { .. } => true,
            CompilerError::UnknownExtension { .. } => true,
            CompilerError::ValidationFailed { .. } => true,
            _ => false,
        }
    }

    /// The message of the error, as text.
    pub open spec fn message_text(&self) -> Seq<char> {
        match self {
            CompilerError::ConfigNotFound { path } => "configuration file not found: "@ + path@,
            CompilerError::UnknownExtension { extension } =>
                "unknown configuration file extension '."@ + extension@
                    + "' (expected: .json, .yaml, .yml, .toml)"@,
            CompilerError::JsonParse { source } => "failed to parse JSON configuration: "@
                + source@,
            CompilerError::YamlParse { source } => "failed to parse YAML configuration: "@
                + source@,
            CompilerError::TomlParse { source } => "failed to parse TOML configuration: "@
                + source@,
            CompilerError::ValidationFailed { message } => "configuration validation failed: "@
                + message@,
            CompilerError::FileSystem { context, source } => "file system error: "@ + context@,
            CompilerError::CompilerNotFound =>
                "hostlist-compiler not found (install with: npm install -g @adguard/hostlist-compiler)"@,
            CompilerError::CompilationFailed { message, exit_code, stderr } =>
                "compilation failed: "@ + message@,
            CompilerError::OutputNotCreated { path } =>
                "compilation completed but output file was not created at: "@ + path@,
            CompilerError::CopyFailed { context, source } =>
                "failed to copy output to rules directory: "@ + context@,
            CompilerError::ProcessExecution { command, source } => "failed to execute process '"@
                + command@ + "': "@ + source@,
            CompilerError::HashMismatch { path, expected, actual } => "hash mismatch for "@ + path@
                + ": expected "@ + expected@ + ", got "@ + actual@,
            CompilerError::Io(source) => "I/O error: "@ + source@,
        }
    }

    /// The message of the error.
    pub fn to_string(&self) -> (r: String)
        ensures
            r@ == self.message_text(),
    {
        match self {
            CompilerError::ConfigNotFound { path } => concat(
                "configuration file not found: ",
                path.as_str(),
            ),
            CompilerError::UnknownExtension { extension } => {
                let mut r = concat("unknown configuration file extension '.", extension.as_str());
                r.append("' (expected: .json, .yaml, .yml, .toml)");
                r
            },
            CompilerError::JsonParse { source } => concat(
                "failed to parse JSON configuration: ",
                source.as_str(),
            ),
            CompilerError::YamlParse { source } => concat(
                "failed to parse YAML configuration: ",
                source.as_str(),
            ),
            CompilerError::TomlParse { source } => concat(
                "failed to parse TOML configuration: ",
                source.as_str(),
            ),
            CompilerError::ValidationFailed { message } => concat(
                "configuration validation failed: ",
                message.as_str(),
            ),
            CompilerError::FileSystem { context, source } => concat(
                "file system error: ",
                context.as_str(),
            ),
            CompilerError::CompilerNotFound => owned(
                "hostlist-compiler not found (install with: npm install -g @adguard/hostlist-compiler)",
            ),
            CompilerError::CompilationFailed { message, exit_code, stderr } => concat(
                "compilation failed: ",
                message.as_str(),
            ),
            CompilerError::OutputNotCreated { path } => concat(
                "compilation completed but output file was not created at: ",
                path.as_str(),
            ),
            CompilerError::CopyFailed { context, source } => concat(
                "failed to copy output to rules directory: ",
                context.as_str(),
            ),
            CompilerError::ProcessExecution { command, source } => {
                let mut r = concat("failed to execute process '", command.as_str());
                r.append("': ");
                r.append(source.as_str());
                r
            },
            CompilerError::HashMismatch { path, expected, actual } => {
                let mut r = concat("hash mismatch for ", path.as_str());
                r.append(": expected ");
                r.append(expected.as_str());
                r.append(", got ");
                r.append(actual.as_str());
                r
            },
            CompilerError::Io(source) => concat("I/O error: ", source.as_str()),
        }
    }
}

} // verus!
