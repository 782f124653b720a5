//! Core compiler functionality for AdGuard filter rules.
//!
//! The compiler itself is an outside program. This module holds what is
//! decided around its run: the command that starts it, the paths it reads and
//! writes, and the result that its run comes to.

use crate::config::{CompilerConfig, ConfigFormat};
use crate::error::CompilerError;
use crate::events::now_millis;
use crate::executor::exit_code_text;
use crate::hashing::{hex_text, sha384_hex, sha384_of};
use crate::paths::{directory_of, joined_path, parent_or_current, path_join};
use crate::text::{
    chars_of, concat, copy_optional_text, count_rule_lines, lines_of, optional_text, owned,
    rule_count, same_text, signed_decimal_string, split_lines, text_of_range, texts, trim,
    trimmed,
};
use vstd::prelude::*;

verus! {

/// Platform-specific information.
#[derive(Debug, Clone)]
pub struct PlatformInfo {
    /// Operating system name.
    pub os_name: String,
    /// Operating system version.
    pub os_version: String,
    /// Processor architecture.
    pub architecture: String,
    /// Whether the platform is Windows.
    pub is_windows: bool,
    /// Whether the platform is Linux.
    pub is_linux: bool,
    /// Whether the platform is macOS.
    pub is_macos: bool,
}

impl Default for PlatformInfo {
    fn default() -> (r: Self)
        ensures
            r.os_name@.len() == 0,
            r.os_version@.len() == 0,
            r.architecture@.len() == 0,
            !r.is_windows,
            !r.is_linux,
            !r.is_macos,
    {
        PlatformInfo {
            os_name: String::new(),
            os_version: String::new(),
            architecture: String::new(),
            is_windows: false,
            is_linux: false,
            is_macos: false,
        }
    }
}

impl PlatformInfo {
    /// The platform information of a target, from the names that the
    /// toolchain gives its operating system and its architecture.
    #[must_use]
    pub fn detect(os_name: &str, architecture: &str) -> (r: Self)
        ensures
            r.os_name@ == os_name@,
            r.os_version@.len() == 0,
            r.architecture@ == architecture@,
            r.is_windows == (os_name@ == "windows"@),
            r.is_linux == (os_name@ == "linux"@),
            r.is_macos == (os_name@ == "macos"@),
    {
        PlatformInfo {
            os_name: owned(os_name),
            os_version: String::new(),
            architecture: owned(architecture),
            is_windows: same_text(os_name, "windows"),
            is_linux: same_text(os_name, "linux"),
            is_macos: same_text(os_name, "macos"),
        }
    }
}

/// Version information for all components.
#[derive(Debug, Clone)]
pub struct VersionInfo {
    /// Module version.
    pub module_version: String,
    /// Rust version.
    pub rust_version: String,
    /// Node.js version (if available).
    pub node_version: Option<String>,
    /// hostlist-compiler version (if available).
    pub hostlist_compiler_version: Option<String>,
    /// Path to hostlist-compiler.
    pub hostlist_compiler_path: Option<String>,
    /// Platform information.
    pub platform: PlatformInfo,
}

/// What the search for the tools of a compilation has found.
#[derive(Debug, Clone)]
pub struct ToolProbe {
    /// The version that Node.js reports, where it was found and answered.
    pub node_version: Option<String>,
    /// The path of the compiler, where it was found.
    pub compiler_path: Option<String>,
    /// The version that the compiler reports, where it was found and answered.
    pub compiler_version: Option<String>,
    /// Whether the package runner was found.
    pub npx_found: bool,
}

impl Default for VersionInfo {
    fn default() -> (r: Self)
        ensures
            r.module_version@.len() == 0,
            r.rust_version@.len() == 0,
            r.node_version is None,
            r.hostlist_compiler_version is None,
            r.hostlist_compiler_path is None,
    {
        VersionInfo {
            module_version: String::new(),
            rust_version: String::new(),
            node_version: None,
            hostlist_compiler_version: None,
            hostlist_compiler_path: None,
            platform: PlatformInfo::default(),
        }
    }
}

impl VersionInfo {
    /// The path under which the compiler is reached: its own where it was
    /// found; else the package runner's command, where that was found.
    pub open spec fn reachable_compiler(probe: ToolProbe) -> Option<Seq<char>> {
        match probe.compiler_path {
            Some(p) => Some(p@),
            None => if probe.npx_found {
                Some("npx @adguard/hostlist-compiler"@)
            } else {
                None
            },
        }
    }

    /// Version information from what the search for the tools has found. The
    /// compiler's version is kept only where the compiler itself was found.
    #[must_use]
    pub fn collect(
        module_version: &str,
        rust_version: &str,
        platform: PlatformInfo,
        probe: ToolProbe,
    ) -> (r: Self)
        ensures
            r.module_version@ == module_version@,
            r.rust_version@ == rust_version@,
            r.platform == platform,
            r.node_version == probe.node_version,
            optional_text(r.hostlist_compiler_path) == Self::reachable_compiler(probe),
            r.hostlist_compiler_version == if probe.compiler_path is Some {
                probe.compiler_version
            } else {
                None
            },
    {
        let mut hostlist_compiler_path: Option<String> = None;
        let mut hostlist_compiler_version: Option<String> = None;
        match probe.compiler_path {
            Some(p) => {
                hostlist_compiler_path = Some(p);
                hostlist_compiler_version = probe.compiler_version;
            },
            None => {
                if probe.npx_found {
                    hostlist_compiler_path = Some(owned("npx @adguard/hostlist-compiler"));
                }
            },
        }
        VersionInfo {
            module_version: owned(module_version),
            rust_version: owned(rust_version),
            node_version: probe.node_version,
            hostlist_compiler_version,
            hostlist_compiler_path,
            platform,
        }
    }

    /// Check if hostlist-compiler is available.
    #[must_use]
    pub fn has_compiler(&self) -> (r: bool)
        ensures
            r == self.hostlist_compiler_path is Some,
    {
        self.hostlist_compiler_path.is_some()
    }

    /// Check if Node.js is available.
    #[must_use]
    pub fn has_node(&self) -> (r: bool)
        ensures
            r == self.node_version is Some,
    {
        self.node_version.is_some()
    }
}

/// The version in what a tool prints when asked for it: the first line,
/// trimmed; the empty text where nothing was printed.
pub open spec fn version_in(output: Seq<char>) -> Seq<char> {
    if lines_of(output).len() == 0 {
        Seq::empty()
    } else {
        trimmed(lines_of(output)[0])
    }
}

/// Reads the version out of what a tool has printed when asked for it.
pub fn version_from_output(output: &str) -> (r: String)
    ensures
        r@ == version_in(output@),
{
    let lines = split_lines(output);
    if lines.len() == 0 {
        String::new()
    } else {
        trim(lines[0].as_str())
    }
}

/// Result of a compilation operation.
#[derive(Debug, Clone)]
pub struct CompilerResult {
    /// Whether compilation was successful.
    pub success: bool,
    /// Name from configuration.
    pub config_name: String,
    /// Version from configuration.
    pub config_version: String,
    /// Number of rules in output.
    pub rule_count: usize,
    /// Path to output file.
    pub output_path: String,
    /// SHA-384 hash of output file.
    pub output_hash: String,
    /// Whether output was copied to rules directory.
    pub copied_to_rules: bool,
    /// Destination path if copied.
    pub rules_destination: Option<String>,
    /// Elapsed time in milliseconds.
    pub elapsed_ms: u64,
    /// Start time, in milliseconds since the Unix epoch.
    pub start_time: i64,
    /// End time, in milliseconds since the Unix epoch.
    pub end_time: i64,
    /// Error message if failed.
    pub error_message: Option<String>,
    /// Standard output from compiler.
    pub stdout: String,
    /// Standard error from compiler.
    pub stderr: String,
}

/// How the run of the compiler ended.
#[derive(Debug)]
pub enum CompileOutcome {
    /// The compiler exited with a status other than success.
    ExitFailure {
        /// The exit code, where the process had one.
        exit_code: Option<i32>,
    },
    /// The compiler exited with success and left no output file.
    OutputMissing,
    /// The compiler exited with success and wrote its output file.
    Compiled {
        /// The number of rules in the output.
        rule_count: usize,
        /// The hash of the output.
        output_hash: String,
        /// Where the output was copied to, where it was copied.
        copied_to: Option<String>,
    },
}

impl CompilerResult {
    /// The result of a compilation that starts at `start_time`: nothing is
    /// known of it but its start.
    pub open spec fn is_blank(&self, start_time: i64) -> bool {
        &&& !self.success
        &&& self.config_name@.len() == 0
        &&& self.config_version@.len() == 0
        &&& self.rule_count == 0
        &&& self.output_path@.len() == 0
        &&& self.output_hash@.len() == 0
        &&& !self.copied_to_rules
        &&& self.rules_destination is None
        &&& self.elapsed_ms == 0
        &&& self.start_time == start_time
        &&& self.end_time == start_time
        &&& self.error_message is None
        &&& self.stdout@.len() == 0
        &&& self.stderr@.len() == 0
    }

    /// The result of a compilation that starts at `start_time`.
    pub fn started_at(start_time: i64) -> (r: Self)
        ensures
            r.is_blank(start_time),
    {
        CompilerResult {
            success: false,
            config_name: String::new(),
            config_version: String::new(),
            rule_count: 0,
            output_path: String::new(),
            output_hash: String::new(),
            copied_to_rules: false,
            rules_destination: None,
            elapsed_ms: 0,
            start_time,
            end_time: start_time,
            error_message: None,
            stdout: String::new(),
            stderr: String::new(),
        }
    }

    /// Get the output path as a string.
    #[must_use]
    pub fn output_path_str(&self) -> (r: String)
        ensures
            r@ == self.output_path@,
    {
        self.output_path.clone()
    }

    /// Get the rules destination path as a string.
    #[must_use]
    pub fn rules_destination_str(&self) -> (r: Option<String>)
        ensures
            optional_text(r) == optional_text(self.rules_destination),
    {
        copy_optional_text(&self.rules_destination)
    }

    /// The hash as it is shown: its first 32 characters, or all of it where
    /// it is shorter.
    pub open spec fn short_hash(&self) -> Seq<char> {
        if self.output_hash@.len() >= 32 {
            self.output_hash@.subrange(0, 32)
        } else {
            self.output_hash@
        }
    }

    /// Get truncated hash for display.
    #[must_use]
    pub fn hash_short(&self) -> (r: String)
        ensures
            r@ == self.short_hash(),
    {
        let v = chars_of(self.output_hash.as_str());
        if v.len() >= 32 {
            text_of_range(&v, 0, 32)
        } else {
            self.output_hash.clone()
        }
    }

    /// The message of a compilation whose compiler exited with a failure.
    pub open spec fn exit_failure_message(exit_code: Option<i32>, stderr: Seq<char>) -> Seq<char> {
        "compiler exited with code "@ + exit_code_text(exit_code) + ": "@ + trimmed(stderr)
    }

    /// The result once the compiler has run and `outcome` tells how: the
    /// compilation has succeeded only where the compiler exited with success
    /// and its output file was there.
    pub open spec fn concluded(
        self,
        after: Self,
        outcome: CompileOutcome,
        end_time: i64,
        elapsed_ms: u64,
    ) -> bool {
        &&& after.config_name == self.config_name
        &&& after.config_version == self.config_version
        &&& after.output_path == self.output_path
        &&& after.start_time == self.start_time
        &&& after.stdout == self.stdout
        &&& after.stderr == self.stderr
        &&& after.end_time == end_time
        &&& after.elapsed_ms == elapsed_ms
        &&& match outcome {
            CompileOutcome::ExitFailure { exit_code } => {
                &&& after.success == self.success
                &&& after.rule_count == self.rule_count
                &&& after.output_hash == self.output_hash
                &&& after.copied_to_rules == self.copied_to_rules
                &&& after.rules_destination == self.rules_destination
                &&& optional_text(after.error_message) == Some(
                    Self::exit_failure_message(exit_code, self.stderr@),
                )
            },
            CompileOutcome::OutputMissing => {
                &&& after.success == self.success
                &&& after.rule_count == self.rule_count
                &&& after.output_hash == self.output_hash
                &&& after.copied_to_rules == self.copied_to_rules
                &&& after.rules_destination == self.rules_destination
                &&& optional_text(after.error_message) == Some("output file was not created"@)
            },
            CompileOutcome::Compiled { rule_count, output_hash, copied_to } => {
                &&& after.success
                &&& after.rule_count == rule_count
                &&& after.output_hash == output_hash
                &&& after.copied_to_rules == copied_to is Some
                &&& after.rules_destination == copied_to
                &&& after.error_message == self.error_message
            },
        }
    }

    /// Puts down how the run of the compiler ended, and when.
    pub fn conclude(self, outcome: CompileOutcome, end_time: i64, elapsed_ms: u64) -> (r: Self)
        ensures
            self.concluded(r, outcome, end_time, elapsed_ms),
    {
        let mut r = self;
        r.end_time = end_time;
        r.elapsed_ms = elapsed_ms;
        match outcome {
            CompileOutcome::ExitFailure { exit_code } => {
                let mut message = owned("compiler exited with code ");
                match exit_code {
                    Some(c) => {
                        message.append("Some(");
                        message.append(signed_decimal_string(c as i64).as_str());
                        message.append(")");
                    },
                    None => {
                        message.append("None");
                    },
                }
                message.append(": ");
                message.append(trim(r.stderr.as_str()).as_str());
                assert(message@ =~= Self::exit_failure_message(exit_code, self.stderr@));
                r.error_message = Some(message);
            },
            CompileOutcome::OutputMissing => {
                r.error_message = Some(owned("output file was not created"));
            },
            CompileOutcome::Compiled { rule_count, output_hash, copied_to } => {
                r.success = true;
                r.rule_count = rule_count;
                r.output_hash = output_hash;
                r.copied_to_rules = copied_to.is_some();
                r.rules_destination = copied_to;
            },
        }
        r
    }
}

impl Default for CompilerResult {
    /// The result of a compilation that starts now.
    fn default() -> (r: Self)
        ensures
            exists|start_time: i64| #[trigger] r.is_blank(start_time),
    {
        let now = now_millis();
        let r = CompilerResult::started_at(now);
        assert(r.is_blank(now));
        r
    }
}

/// Options for running the compiler.
#[derive(Debug, Clone)]
pub struct CompileOptions {
    /// Path to output file (auto-generated if None).
    pub output_path: Option<String>,
    /// Copy output to rules directory.
    pub copy_to_rules: bool,
    /// Custom rules directory.
    pub rules_directory: Option<String>,
    /// Force configuration format.
    pub format: Option<ConfigFormat>,
    /// Enable debug output.
    pub debug: bool,
    /// Validate configuration before compiling.
    pub validate: bool,
    /// Fail compilation on validation warnings.
    pub fail_on_warnings: bool,
}

/// What compile options hold, as plain values.
pub struct CompileOptionsView {
    pub output_path: Option<Seq<char>>,
    pub copy_to_rules: bool,
    pub rules_directory: Option<Seq<char>>,
    pub format: Option<ConfigFormat>,
    pub debug: bool,
    pub validate: bool,
    pub fail_on_warnings: bool,
}

impl View for CompileOptions {
    type V = CompileOptionsView;

    open spec fn view(&self) -> CompileOptionsView {
        CompileOptionsView {
            output_path: optional_text(self.output_path),
            copy_to_rules: self.copy_to_rules,
            rules_directory: optional_text(self.rules_directory),
            format: self.format,
            debug: self.debug,
            validate: self.validate,
            fail_on_warnings: self.fail_on_warnings,
        }
    }
}

impl CompileOptionsView {
    /// The options that ask for nothing.
    pub open spec fn plain() -> Self {
        CompileOptionsView {
            output_path: None,
            copy_to_rules: false,
            rules_directory: None,
            format: None,
            debug: false,
            validate: false,
            fail_on_warnings: false,
        }
    }
}

impl Default for CompileOptions {
    fn default() -> (r: Self)
        ensures
            r@ == CompileOptionsView::plain(),
    {
        CompileOptions {
            output_path: None,
            copy_to_rules: false,
            rules_directory: None,
            format: None,
            debug: false,
            validate: false,
            fail_on_warnings: false,
        }
    }
}

impl CompileOptions {
    /// Create new compile options with default values.
    #[must_use]
    pub fn new() -> (r: Self)
        ensures
            r@ == CompileOptionsView::plain(),
    {
        CompileOptions::default()
    }

    /// Set the output path.
    #[must_use]
    pub fn with_output(self, path: &str) -> (r: Self)
        ensures
            r@ == (CompileOptionsView { output_path: Some(path@), ..self@ }),
    {
        let mut r = self;
        r.output_path = Some(owned(path));
        r
    }

    /// Enable copying to rules directory.
    #[must_use]
    pub fn with_copy_to_rules(self, copy: bool) -> (r: Self)
        ensures
            r@ == (CompileOptionsView { copy_to_rules: copy, ..self@ }),
    {
        let mut r = self;
        r.copy_to_rules = copy;
        r
    }

    /// Set the rules directory.
    #[must_use]
    pub fn with_rules_directory(self, path: &str) -> (r: Self)
        ensures
            r@ == (CompileOptionsView { rules_directory: Some(path@), ..self@ }),
    {
        let mut r = self;
        r.rules_directory = Some(owned(path));
        r
    }

    /// Set the configuration format.
    #[must_use]
    pub fn with_format(self, format: ConfigFormat) -> (r: Self)
        ensures
            r@ == (CompileOptionsView { format: Some(format), ..self@ }),
    {
        let mut r = self;
        r.format = Some(format);
        r
    }

    /// Enable debug output.
    #[must_use]
    pub fn with_debug(self, debug: bool) -> (r: Self)
        ensures
            r@ == (CompileOptionsView { debug, ..self@ }),
    {
        let mut r = self;
        r.debug = debug;
        r
    }

    /// Enable validation.
    #[must_use]
    pub fn with_validation(self, validate: bool) -> (r: Self)
        ensures
            r@ == (CompileOptionsView { validate, ..self@ }),
    {
        let mut r = self;
        r.validate = validate;
        r
    }

    /// Set fail on warnings.
    #[must_use]
    pub fn with_fail_on_warnings(self, fail_on_warnings: bool) -> (r: Self)
        ensures
            r@ == (CompileOptionsView { fail_on_warnings, ..self@ }),
    {
        let mut r = self;
        r.fail_on_warnings = fail_on_warnings;
        r
    }
}

/// Main compiler for AdGuard filter rules.
#[derive(Debug)]
pub struct RulesCompiler {
    /// The options of every compilation that this compiler runs.
    pub options: CompileOptions,
}

impl Default for RulesCompiler {
    fn default() -> (r: Self)
        ensures
            r.options@ == CompileOptionsView::plain(),
    {
        RulesCompiler { options: CompileOptions::default() }
    }
}

impl RulesCompiler {
    /// Create a new compiler instance with default options.
    #[must_use]
    pub fn new() -> (r: Self)
        ensures
            r.options@ == CompileOptionsView::plain(),
    {
        RulesCompiler::default()
    }

    /// Create a new compiler instance with custom options.
    #[must_use]
    pub fn with_options(options: CompileOptions) -> (r: Self)
        ensures
            r.options == options,
    {
        RulesCompiler { options }
    }

    /// Get mutable reference to options.
    pub fn options_mut(&mut self) -> (r: &mut CompileOptions)
        ensures
            *r == old(self).options,
            final(self).options == *final(r),
    {
        &mut self.options
    }

    /// Get version information, from what the search for the tools has found.
    #[must_use]
    pub fn version_info(&self, rust_version: &str, platform: PlatformInfo, probe: ToolProbe) -> (r:
        VersionInfo)
        ensures
            r.module_version@ == crate::VERSION@,
            r.rust_version@ == rust_version@,
            r.platform == platform,
            r.node_version == probe.node_version,
            optional_text(r.hostlist_compiler_path) == VersionInfo::reachable_compiler(probe),
            r.hostlist_compiler_version == if probe.compiler_path is Some {
                probe.compiler_version
            } else {
                None
            },
    {
        VersionInfo::collect(crate::VERSION, rust_version, platform, probe)
    }

    /// The format in which this compiler reads the configuration at `path`:
    /// the one that its options name, else the one that the path tells.
    #[must_use]
    pub fn read_format(&self, path: &str) -> (r: ConfigFormat)
        ensures
            r == crate::config::reading_format(path@, self.options.format),
    {
        crate::config::config_format_for(path, self.options.format)
    }

    /// What a compilation of `config` does with these options: see
    /// [`plan_compilation`].
    pub fn plan(
        &self,
        config: &CompilerConfig,
        config_path: &str,
        generated_output_path: &str,
        temp_config_path: &str,
    ) -> (r: Result<CompilePlan, CompilerError>)
        ensures
            planned(
                config@,
                self.options@,
                config_path@,
                generated_output_path@,
                temp_config_path@,
                r,
            ),
    {
        plan_compilation(
            config,
            &self.options,
            config_path,
            generated_output_path,
            temp_config_path,
        )
    }
}

/// Count non-empty, non-comment lines among the lines of a file.
///
/// Lines starting with `!` or `#` are considered comments.
#[must_use]
pub fn count_rules(lines: &Vec<String>) -> (r: usize)
    ensures
        r == rule_count(texts(lines@)),
{
    count_rule_lines(lines)
}

/// Count the rules in what a file holds.
#[must_use]
pub fn count_rules_in(content: &str) -> (r: usize)
    ensures
        r == rule_count(lines_of(content@)),
{
    let lines = split_lines(content);
    count_rule_lines(&lines)
}

/// Compute SHA-384 hash of what a file holds, in hexadecimal.
pub fn compute_hash(content: &[u8]) -> (r: String)
    ensures
        r@ == hex_text(sha384_of(content@)),
        r@.len() == 96,
{
    sha384_hex(content)
}

/// The arguments that tell the compiler where its configuration is and where
/// its output goes.
pub open spec fn compiler_arguments(config_path: Seq<char>, output_path: Seq<char>) -> Seq<
    Seq<char>,
> {
    seq!["--config"@, config_path, "--output"@, output_path]
}

/// The command that runs the compiler: the compiler itself where it was
/// found on the search path; else the package runner, where that was found,
/// with the compiler's package for its first argument.
pub open spec fn compiler_command(
    compiler_path: Option<Seq<char>>,
    npx_path: Option<Seq<char>>,
    config_path: Seq<char>,
    output_path: Seq<char>,
) -> Option<(Seq<char>, Seq<Seq<char>>)> {
    match compiler_path {
        Some(compiler) => Some((compiler, compiler_arguments(config_path, output_path))),
        None => match npx_path {
            Some(npx) => Some(
                (
                    npx,
                    seq!["@adguard/hostlist-compiler"@] + compiler_arguments(
                        config_path,
                        output_path,
                    ),
                ),
            ),
            None => None,
        },
    }
}

/// Get compiler command and arguments, from what the search path holds:
/// `compiler_path` where the compiler was found, `npx_path` where the package
/// runner was.
///
/// # Errors
///
/// Returns `CompilerNotFound` where neither was found.
pub fn get_compiler_command(
    compiler_path: Option<&str>,
    npx_path: Option<&str>,
    config_path: &str,
    output_path: &str,
) -> (r: Result<(String, Vec<String>), CompilerError>)
    ensures
        match r {
            Ok((command, arguments)) => compiler_command(
                match compiler_path {
                    Some(p) => Some(p@),
                    None => None,
                },
                match npx_path {
                    Some(p) => Some(p@),
                    None => None,
                },
                config_path@,
                output_path@,
            ) == Some((command@, texts(arguments@))),
            Err(e) => e is CompilerNotFound && compiler_path is None && npx_path is None,
        },
{
    let mut arguments: Vec<String> = Vec::new();
    let command = match compiler_path {
        Some(compiler) => owned(compiler),
        None => match npx_path {
            Some(npx) => {
                arguments.push(owned("@adguard/hostlist-compiler"));
                owned(npx)
            },
            None => {
                return Err(CompilerError::CompilerNotFound);
            },
        },
    };
    arguments.push(owned("--config"));
    arguments.push(owned(config_path));
    arguments.push(owned("--output"));
    arguments.push(owned(output_path));
    proof {
        if compiler_path is Some {
            assert(texts(arguments@) =~= compiler_arguments(config_path@, output_path@));
        } else {
            assert(texts(arguments@) =~= seq!["@adguard/hostlist-compiler"@] + compiler_arguments(
                config_path@,
                output_path@,
            ));
        }
    }
    Ok((command, arguments))
}

/// The output path of a compilation that names none: a file named after the
/// time, in the directory `output` beside the configuration.
pub open spec fn default_output_path(config_path: Seq<char>, timestamp: Seq<char>) -> Seq<char> {
    joined_path(
        joined_path(directory_of(config_path), "output"@),
        "compiled-"@ + timestamp + ".txt"@,
    )
}

/// Generate default output path based on config path and timestamp.
pub fn generate_output_path(config_path: &str, timestamp: &str) -> (r: String)
    ensures
        r@ == default_output_path(config_path@, timestamp@),
{
    let directory = parent_or_current(config_path);
    let output_dir = path_join(directory.as_str(), "output");
    let mut name = concat("compiled-", timestamp);
    name.append(".txt");
    path_join(output_dir.as_str(), name.as_str())
}

/// The rules directory of a configuration: the one that the caller names;
/// else the directory `rules` three levels above the configuration file.
pub open spec fn rules_directory(config_path: Seq<char>, custom: Option<Seq<char>>) -> Seq<char> {
    match custom {
        Some(c) => c,
        None => joined_path(directory_of(directory_of(directory_of(config_path))), "rules"@),
    }
}

/// Determine rules directory from config path.
pub fn get_rules_directory(config_path: &str, custom: Option<&str>) -> (r: String)
    ensures
        r@ == rules_directory(
            config_path@,
            match custom {
                Some(c) => Some(c@),
                None => None,
            },
        ),
{
    match custom {
        Some(c) => owned(c),
        None => {
            let first = parent_or_current(config_path);
            let second = parent_or_current(first.as_str());
            let third = parent_or_current(second.as_str());
            path_join(third.as_str(), "rules")
        },
    }
}

/// What a compilation does before it runs the compiler.
#[derive(Debug)]
pub struct CompilePlan {
    /// The file that the compiler writes.
    pub output_path: String,
    /// The configuration file that the compiler reads.
    pub compiler_config_path: String,
    /// The JSON copy of the configuration that has to be written first, and
    /// removed after the run, where the configuration is not JSON itself.
    pub temp_config_path: Option<String>,
}

/// The plan `r` is the one for compiling `config` with `options`: a
/// configuration that is to be validated and has a defect is refused; the
/// output goes where the options say, else to the generated path; the
/// compiler, which reads JSON only, gets the configuration file itself where
/// that was read as JSON, and a JSON copy at the temporary path otherwise.
pub open spec fn planned(
    config: crate::config::CompilerConfigView,
    options: CompileOptionsView,
    config_path: Seq<char>,
    generated_output_path: Seq<char>,
    temp_config_path: Seq<char>,
    r: Result<CompilePlan, CompilerError>,
) -> bool {
    if options.validate && config.defect() is Some {
        r is Err && (r->Err_0 matches CompilerError::ValidationFailed { message } && Some(message@)
            == config.defect())
    } else {
        &&& r is Ok
        &&& r->Ok_0.output_path@ == match options.output_path {
            Some(p) => p,
            None => generated_output_path,
        }
        &&& if config.source_format == Some(ConfigFormat::Json) {
            r->Ok_0.compiler_config_path@ == config_path && r->Ok_0.temp_config_path is None
        } else {
            r->Ok_0.compiler_config_path@ == temp_config_path && optional_text(
                r->Ok_0.temp_config_path,
            ) == Some(temp_config_path)
        }
    }
}

/// Plans the compilation of `config`, which was read from `config_path`.
///
/// # Errors
///
/// Returns `ValidationFailed` where the options ask for validation and the
/// configuration does not pass it.
pub fn plan_compilation(
    config: &CompilerConfig,
    options: &CompileOptions,
    config_path: &str,
    generated_output_path: &str,
    temp_config_path: &str,
) -> (r: Result<CompilePlan, CompilerError>)
    ensures
        planned(
            config@,
            options@,
            config_path@,
            generated_output_path@,
            temp_config_path@,
            r,
        ),
{
    if options.validate {
        match config.validate() {
            Ok(_) => {},
            Err(e) => {
                return Err(e);
            },
        }
    }
    let output_path = match &options.output_path {
        Some(p) => p.clone(),
        None => owned(generated_output_path),
    };
    let is_json = match config.source_format {
        Some(ConfigFormat::Json) => true,
        _ => false,
    };
    if is_json {
        Ok(
            CompilePlan {
                output_path,
                compiler_config_path: owned(config_path),
                temp_config_path: None,
            },
        )
    } else {
        Ok(
            CompilePlan {
                output_path,
                compiler_config_path: owned(temp_config_path),
                temp_config_path: Some(owned(temp_config_path)),
            },
        )
    }
}

} // verus!
