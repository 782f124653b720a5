//! Compiler service that wraps the TypeScript rules compiler.

use crate::executor::exit_code_text;
use crate::frontend::config::ConfigFormat;
use crate::frontend::error::CompilerError;
use crate::hashing::{hex_text, sha384_hex, sha384_of};
use crate::paths::{directory_of, joined_path, parent_or_current, path_join};
use crate::text::{
    concat, count_rule_lines, lines_of, optional_text, owned, rule_count,
    signed_decimal_string, split_lines, texts,
};
use vstd::prelude::*;

verus! {

/// Result of a compilation operation.
#[derive(Debug, Clone)]
pub struct CompilerResult {
    /// Whether compilation succeeded
    pub success: bool,
    /// Configuration name
    pub config_name: String,
    /// Configuration version
    pub config_version: String,
    /// Number of rules in output
    pub rule_count: usize,
    /// Path to output file
    pub output_path: String,
    /// SHA-384 hash of output
    pub output_hash: String,
    /// Whether output was copied to rules directory
    pub copied_to_rules: bool,
    /// Destination path if copied
    pub rules_destination: Option<String>,
    /// Elapsed time in milliseconds
    pub elapsed_ms: u64,
    /// Start time, in milliseconds since the Unix epoch
    pub start_time: i64,
    /// End time, in milliseconds since the Unix epoch
    pub end_time: i64,
    /// Error message if failed
    pub error_message: Option<String>,
}

/// Version information.
#[derive(Debug, Clone)]
pub struct VersionInfo {
    /// Module version
    pub module_version: String,
    /// Rust version
    pub rust_version: String,
    /// Platform OS
    pub os: String,
    /// Platform architecture
    pub arch: String,
    /// Node.js version (if available)
    pub node_version: Option<String>,
}

/// Count non-empty, non-comment lines in what a file holds.
pub fn count_rules(content: &str) -> (r: usize)
    ensures
        r == rule_count(lines_of(content@)),
{
    let lines = split_lines(content);
    count_rule_lines(&lines)
}

/// Compute SHA-384 hash of what a file holds, in hexadecimal.
pub fn compute_hash(content: &[u8]) -> (r: String)
    ensures
        r@ == hex_text(sha384_of(content@)),
        r@.len() == 96,
{
    sha384_hex(content)
}

/// Options for running the compiler.
#[derive(Debug)]
pub struct CompileOptions {
    /// Path to configuration file
    pub config_path: String,
    /// Path to output file
    pub output_path: Option<String>,
    /// Copy output to rules directory
    pub copy_to_rules: bool,
    /// Custom rules directory
    pub rules_directory: Option<String>,
    /// Force configuration format
    pub format: Option<ConfigFormat>,
    /// Enable debug output
    pub debug: bool,
}

impl CompileOptions {
    /// The output path of a compilation that names none: a file named after
    /// the time, in the directory `output` beside the configuration.
    pub open spec fn generated_output(&self, timestamp: Seq<char>) -> Seq<char> {
        joined_path(
            joined_path(directory_of(self.config_path@), "output"@),
            "compiled-"@ + timestamp + ".txt"@,
        )
    }

    /// The path that the compiler writes: the one that the options name, or
    /// the generated one.
    pub fn output_path_at(&self, timestamp: &str) -> (r: String)
        ensures
            r@ == match self.output_path {
                Some(p) => p@,
                None => self.generated_output(timestamp@),
            },
    {
        match &self.output_path {
            Some(p) => p.clone(),
            None => {
                let directory = parent_or_current(self.config_path.as_str());
                let output = path_join(directory.as_str(), "output");
                let mut name = concat("compiled-", timestamp);
                name.append(".txt");
                path_join(output.as_str(), name.as_str())
            },
        }
    }

    /// The arguments after the entry point of the compiler: the
    /// configuration, the output, and the flags that the options ask for.
    pub open spec fn flags(&self, output_path: Seq<char>) -> Seq<Seq<char>> {
        let base = seq!["-c"@, self.config_path@, "-o"@, output_path];
        let debug = if self.debug {
            base.push("-d"@)
        } else {
            base
        };
        if self.copy_to_rules {
            match self.rules_directory {
                Some(d) => debug.push("-r"@).push("--rules-dir"@).push(d@),
                None => debug.push("-r"@),
            }
        } else {
            debug
        }
    }

    /// The arguments of the run: the entry point of the compiler, then the
    /// flags.
    pub fn arguments(&self, ts_compiler: &str, output_path: &str) -> (r: Vec<String>)
        ensures
            texts(r@) == seq![ts_compiler@] + self.flags(output_path@),
    {
        let mut args: Vec<String> = Vec::new();
        args.push(owned(ts_compiler));
        args.push(owned("-c"));
        args.push(self.config_path.clone());
        args.push(owned("-o"));
        args.push(owned(output_path));
        if self.debug {
            args.push(owned("-d"));
        }
        if self.copy_to_rules {
            args.push(owned("-r"));
            match &self.rules_directory {
                Some(d) => {
                    args.push(owned("--rules-dir"));
                    args.push(d.clone());
                },
                None => {},
            }
        }
        assert(texts(args@) =~= seq![ts_compiler@] + self.flags(output_path@));
        args
    }

    /// Where the output is copied to: the file of the user's filter, in the
    /// rules directory that the options name, or in the directory `rules`
    /// two levels above the configuration.
    pub open spec fn destination(&self) -> Seq<char> {
        joined_path(
            match self.rules_directory {
                Some(d) => d@,
                None => joined_path(
                    joined_path(joined_path(directory_of(self.config_path@), ".."@), ".."@),
                    "rules"@,
                ),
            },
            "adguard_user_filter.txt"@,
        )
    }

    /// Where the output is copied to.
    pub fn rules_destination(&self) -> (r: String)
        ensures
            r@ == self.destination(),
    {
        let rules_dir = match &self.rules_directory {
            Some(d) => d.clone(),
            None => {
                let directory = parent_or_current(self.config_path.as_str());
                let up = path_join(directory.as_str(), "..");
                let up_again = path_join(up.as_str(), "..");
                path_join(up_again.as_str(), "rules")
            },
        };
        path_join(rules_dir.as_str(), "adguard_user_filter.txt")
    }
}

/// Where the entry point of the compiler is looked for, in the order in
/// which the places are tried.
pub open spec fn compiler_candidates(config_path: Seq<char>) -> Seq<Seq<char>> {
    seq![
        joined_path(directory_of(config_path), "src/cli.ts"@),
        joined_path(directory_of(config_path), "cli.ts"@),
        "src/cli.ts"@,
        "../src/cli.ts"@,
    ]
}

/// Where the entry point of the compiler is looked for.
pub fn typescript_compiler_candidates(config_path: &str) -> (r: Vec<String>)
    ensures
        texts(r@) == compiler_candidates(config_path@),
        r@.len() == 4,
{
    let directory = parent_or_current(config_path);
    let mut r: Vec<String> = Vec::new();
    r.push(path_join(directory.as_str(), "src/cli.ts"));
    r.push(path_join(directory.as_str(), "cli.ts"));
    r.push(owned("src/cli.ts"));
    r.push(owned("../src/cli.ts"));
    assert(texts(r@) =~= compiler_candidates(config_path@));
    r
}

/// Find the TypeScript compiler entry point: the first of the candidates at
/// which a file is present, where `present` tells so of each candidate, in
/// their order; a candidate that `present` does not reach counts as absent.
///
/// # Errors
///
/// Returns `CompilerNotFound` where no candidate is present.
pub fn find_typescript_compiler(config_path: &str, present: &Vec<bool>) -> (r: Result<
    String,
    CompilerError,
>)
    ensures
        match r {
            Ok(p) => exists|i: int|
                0 <= i < 4 && i < present@.len() && #[trigger] present@[i] && p@
                    == compiler_candidates(config_path@)[i] && forall|j: int|
                    0 <= j < i ==> !present@[j],
            Err(e) => (forall|i: int| 0 <= i < 4 && i < present@.len() ==> !present@[i]) && (
            e matches CompilerError::CompilerNotFound(m) && m@ == "src/cli.ts"@),
        },
{
    let candidates = typescript_compiler_candidates(config_path);
    let mut i: usize = 0;
    while i < candidates.len()
        invariant
            i <= candidates.len(),
            candidates@.len() == 4,
            texts(candidates@) == compiler_candidates(config_path@),
            forall|j: int| 0 <= j < i && j < present@.len() ==> !present@[j],
        decreases candidates.len() - i,
    {
        if i < present.len() && present[i] {
            assert(texts(candidates@)[i as int] == candidates@[i as int]@);
            return Ok(candidates[i].clone());
        }
        i = i + 1;
    }
    Err(CompilerError::CompilerNotFound(owned("src/cli.ts")))
}

/// How the run of the compiler ended.
#[derive(Debug)]
pub enum RunOutcome {
    /// The compiler exited with a status other than success.
    ExitFailure {
        /// The exit code, where the process had one.
        exit_code: Option<i32>,
    },
    /// The compiler exited with success.
    Compiled {
        /// The number of rules in the output; none where it could not be read.
        rule_count: usize,
        /// The hash of the output; empty where it could not be read.
        output_hash: String,
        /// Where the output was copied to, where it was copied.
        copied_to: Option<String>,
    },
}

impl CompilerResult {
    /// The result `r` is that of a run with the outcome `outcome`.
    pub open spec fn is_result_of(
        r: Self,
        config_name: Seq<char>,
        config_version: Seq<char>,
        output_path: Seq<char>,
        outcome: RunOutcome,
        start_time: i64,
        end_time: i64,
        elapsed_ms: u64,
    ) -> bool {
        &&& r.config_name@ == config_name
        &&& r.config_version@ == config_version
        &&& r.output_path@ == output_path
        &&& r.start_time == start_time
        &&& r.end_time == end_time
        &&& r.elapsed_ms == elapsed_ms
        &&& match outcome {
            RunOutcome::ExitFailure { exit_code } => {
                &&& !r.success
                &&& r.rule_count == 0
                &&& r.output_hash@.len() == 0
                &&& !r.copied_to_rules
                &&& r.rules_destination is None
                &&& optional_text(r.error_message) == Some(
                    "Compiler exited with code: "@ + exit_code_text(exit_code),
                )
            },
            RunOutcome::Compiled { rule_count, output_hash, copied_to } => {
                &&& r.success
                &&& r.rule_count == rule_count
                &&& r.output_hash == output_hash
                &&& r.copied_to_rules == copied_to is Some
                &&& r.rules_destination == copied_to
                &&& r.error_message is None
            },
        }
    }

    /// The result of a run of the compiler.
    pub fn of_run(
        config_name: &str,
        config_version: &str,
        output_path: &str,
        outcome: RunOutcome,
        start_time: i64,
        end_time: i64,
        elapsed_ms: u64,
    ) -> (r: Self)
        ensures
            Self::is_result_of(
                r,
                config_name@,
                config_version@,
                output_path@,
                outcome,
                start_time,
                end_time,
                elapsed_ms,
            ),
    {
        match outcome {
            RunOutcome::ExitFailure { exit_code } => {
                let mut message = owned("Compiler exited with code: ");
                match exit_code {
                    Some(c) => {
                        message.append("Some(");
                        message.append(signed_decimal_string(c as i64).as_str());
                        message.append(")");
                    },
                    None => {
                        message.append("None");
                    },
                }
                assert(message@ =~= "Compiler exited with code: "@ + exit_code_text(exit_code));
                CompilerResult {
                    success: false,
                    config_name: owned(config_name),
                    config_version: owned(config_version),
                    rule_count: 0,
                    output_path: owned(output_path),
                    output_hash: String::new(),
                    copied_to_rules: false,
                    rules_destination: None,
                    elapsed_ms,
                    start_time,
                    end_time,
                    error_message: Some(message),
                }
            },
            RunOutcome::Compiled { rule_count, output_hash, copied_to } => CompilerResult {
                success: true,
                config_name: owned(config_name),
                config_version: owned(config_version),
                rule_count,
                output_path: owned(output_path),
                output_hash,
                copied_to_rules: copied_to.is_some(),
                rules_destination: copied_to,
                elapsed_ms,
                start_time,
                end_time,
                error_message: None,
            },
        }
    }
}

} // verus!
