//! Error types for validation operations.

use crate::text::{concat, owned};
use vstd::prelude::*;

verus! {

/// Validation error types.
///
/// Where the failure came from the operating system, the network or a
/// parser, the variant carries that failure's message as text.
#[derive(Debug)]
pub enum ValidationError {
    /// Hash mismatch detected.
    HashMismatch { file: String, expected: String, actual: String },
    /// URL validation failed.
    UrlValidationFailed { url: String, reason: String },
    /// Syntax validation failed.
    SyntaxValidationFailed { file: String, reason: String },
    /// File system error.
    FileSystem(String),
    /// HTTP error.
    Http(String),
    /// JSON error.
    Json(String),
    /// URL parse error.
    UrlParse(String),
    /// Configuration error.
    Config(String),
    /// Archive error.
    Archive(String),
    /// File conflict error.
    FileConflict(String),
    /// Generic validation error.
    Other(String),
}

impl ValidationError {
    /// Create a hash mismatch error.
    pub fn hash_mismatch(file: &str, expected: &str, actual: &str) -> (e: Self)
        ensures
            e matches ValidationError::HashMismatch { file: f, expected: x, actual: a } && f@
                == file@ && x@ == expected@ && a@ == actual@,
    {
        ValidationError::HashMismatch {
            file: owned(file),
            expected: owned(expected),
            actual: owned(actual),
        }
    }

    /// Create a URL validation error.
    pub fn url_validation(url: &str, reason: &str) -> (e: Self)
        ensures
            e matches ValidationError::UrlValidationFailed { url: u, reason: r } && u@ == url@
                && r@ == reason@,
    {
        ValidationError::UrlValidationFailed { url: owned(url), reason: owned(reason) }
    }

    /// Create a syntax validation error.
    pub fn syntax_validation(file: &str, reason: &str) -> (e: Self)
        ensures
            e matches ValidationError::SyntaxValidationFailed { file: f, reason: r } && f@
                == file@ && r@ == reason@,
    {
        ValidationError::SyntaxValidationFailed { file: owned(file), reason: owned(reason) }
    }

    /// Create a config error.
    pub fn config(msg: &str) -> (e: Self)
        ensures
            e matches ValidationError::Config(m) && m@ == msg@,
    {
        ValidationError::Config(owned(msg))
    }

    /// Create an archive error.
    pub fn archive(msg: &str) -> (e: Self)
        ensures
            e matches ValidationError::Archive(m) && m@ == msg@,
    {
        ValidationError::Archive(owned(msg))
    }

    /// Create a file conflict error.
    pub fn file_conflict(msg: &str) -> (e: Self)
        ensures
            e matches ValidationError::FileConflict(m) && m@ == msg@,
    {
        ValidationError::FileConflict(owned(msg))
    }

    /// The message of the error, as text.
    pub open spec fn message_text(&self) -> Seq<char> {
        match self {
            ValidationError::HashMismatch { file, expected, actual } => "Hash mismatch for "@
                + file@ + ": expected "@ + expected@ + ", got "@ + actual@,
            ValidationError::UrlValidationFailed { url, reason } => "URL validation failed for "@
                + url@ + ": "@ + reason@,
            ValidationError::SyntaxValidationFailed { file, reason } =>
                "Syntax validation failed for "@ + file@ + ": "@ + reason@,
            ValidationError::FileSystem(m) => "File system error: "@ + m@,
            ValidationError::Http(m) => "HTTP error: "@ + m@,
            ValidationError::Json(m) => "JSON error: "@ + m@,
            ValidationError::UrlParse(m) => "URL parse error: "@ + m@,
            ValidationError::Config(m) => "Configuration error: "@ + m@,
            ValidationError::Archive(m) => "Archive error: "@ + m@,
            ValidationError::FileConflict(m) => "File conflict: "@ + m@,
            ValidationError::Other(m) => m@,
        }
    }

    /// The message of the error.
    pub fn to_string(&self) -> (r: String)
        ensures
            r@ == self.message_text(),
    {
        match self {
            ValidationError::HashMismatch { file, expected, actual } => {
                let mut r = concat("Hash mismatch for ", file.as_str());
                r.append(": expected ");
                r.append(expected.as_str());
                r.append(", got ");
                r.append(actual.as_str());
                r
            },
            ValidationError::UrlValidationFailed { url, reason } => {
                let mut r = concat("URL validation failed for ", url.as_str());
                r.append(": ");
                r.append(reason.as_str());
                r
            },
            ValidationError::SyntaxValidationFailed { file, reason } => {
                let mut r = concat("Syntax validation failed for ", file.as_str());
                r.append(": ");
                r.append(reason.as_str());
                r
            },
            ValidationError::FileSystem(m) => concat("File system error: ", m.as_str()),
            ValidationError::Http(m) => concat("HTTP error: ", m.as_str()),
            ValidationError::Json(m) => concat("JSON error: ", m.as_str()),
            ValidationError::UrlParse(m) => concat("URL parse error: ", m.as_str()),
            ValidationError::Config(m) => concat("Configuration error: ", m.as_str()),
            ValidationError::Archive(m) => concat("Archive error: ", m.as_str()),
            ValidationError::FileConflict(m) => concat("File conflict: ", m.as_str()),
            ValidationError::Other(m) => m.clone(),
        }
    }
}

} // verus!
