//! The front end of the TypeScript rules compiler: its configuration, the
//! command that runs it, and the result of its run.

pub mod compiler;
pub mod config;
pub mod error;

pub use compiler::{compute_hash, count_rules, CompileOptions, CompilerResult, VersionInfo};
pub use config::{find_default_config, CompilerConfig, ConfigFormat, FilterSource};
pub use error::CompilerError;
