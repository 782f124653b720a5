//! Error types for the rules compiler frontend.

use crate::text::{concat, owned};
use vstd::prelude::*;

verus! {

/// Errors that can occur during compilation.
///
/// Where the failure came from the operating system or from a parser, the
/// variant carries that failure's message as text.
#[derive(Debug)]
pub enum CompilerError {
    /// Configuration file not found
    ConfigNotFound(String),
    /// Invalid configuration format
    InvalidFormat(String),
    /// IO error during file operations
    Io(String),
    /// JSON parsing error
    Json(String),
    /// YAML parsing error
    Yaml(String),
    /// TOML parsing error
    Toml(String),
    /// Compilation failed
    CompilationFailed(String),
    /// Node.js not found
    NodeNotFound,
    /// TypeScript compiler not found
    CompilerNotFound(String),
}

impl CompilerError {
    /// The message of the error, as text.
    pub open spec fn message_text(&self) -> Seq<char> {
        match self {
            CompilerError::ConfigNotFound(m) => "Configuration file not found: "@ + m@,
            CompilerError::InvalidFormat(m) => "Invalid configuration format: "@ + m@,
            CompilerError::Io(m) => "IO error: "@ + m@,
            CompilerError::Json(m) => "JSON parsing error: "@ + m@,
            CompilerError::Yaml(m) => "YAML parsing error: "@ + m@,
            CompilerError::Toml(m) => "TOML parsing error: "@ + m@,
            CompilerError::CompilationFailed(m) => "Compilation failed: "@ + m@,
            CompilerError::NodeNotFound => "Node.js not found. Please install Node.js 18+"@,
            CompilerError::CompilerNotFound(m) => "TypeScript compiler not found at: "@ + m@,
        }
    }

    /// The message of the error.
    pub fn to_string(&self) -> (r: String)
        ensures
            r@ == self.message_text(),
    {
        match self {
            CompilerError::ConfigNotFound(m) => concat(
                "Configuration file not found: ",
                m.as_str(),
            ),
            CompilerError::InvalidFormat(m) => concat("Invalid configuration format: ", m.as_str()),
            CompilerError::Io(m) => concat("IO error: ", m.as_str()),
            CompilerError::Json(m) => concat("JSON parsing error: ", m.as_str()),
            CompilerError::Yaml(m) => concat("YAML parsing error: ", m.as_str()),
            CompilerError::Toml(m) => concat("TOML parsing error: ", m.as_str()),
            CompilerError::CompilationFailed(m) => concat("Compilation failed: ", m.as_str()),
            CompilerError::NodeNotFound => owned("Node.js not found. Please install Node.js 18+"),
            CompilerError::CompilerNotFound(m) => concat(
                "TypeScript compiler not found at: ",
                m.as_str(),
            ),
        }
    }
}

} // verus!
