//! Runtime enforcement of validation.
//!
//! A compilation is only handed out together with the record of the
//! validation that went before it: every local file and every remote URL is
//! validated, and the first one that fails ends the compilation.

use crate::hashing::{hex_text, sha384_hex, sha384_of};
use crate::paths::{directory_of, parent_or_current};
use crate::text::{concat, decimal, decimal_string, owned, same_text, texts};
use crate::validation::config::{ValidationConfig, VerificationMode};
use crate::validation::error::ValidationError;
use crate::validation::syntax::SyntaxValidationResult;
use crate::validation::url_security::UrlValidationResult;
use vstd::prelude::*;
use vstd::utf8::encode_utf8;

verus! {

/// What `{:?}` writes for a list of strings: the strings between square
/// brackets, each in quotes and with its special characters escaped.
pub uninterp spec fn debug_list_text(items: Seq<Seq<char>>) -> Seq<char>;

/// Formats a list of strings with `{:?}`. The contract only gives the result
/// its name.
#[verifier::external_body]
pub(crate) fn debug_list(items: &Vec<String>) -> (r: String)
    ensures
        r@ == debug_list_text(texts(items@)),
{
    format!("{:?}", items)
}

/// A count after one more was counted: the count stays where it is once it
/// has reached the largest number that it can hold.
pub open spec fn counted(count: usize) -> usize {
    if count < usize::MAX {
        (count + 1) as usize
    } else {
        count
    }
}

/// Counts one more.
fn count_one_more(count: usize) -> (r: usize)
    ensures
        r == counted(count),
{
    if count < usize::MAX {
        count + 1
    } else {
        count
    }
}

/// Compilation result with validation metadata.
#[derive(Debug)]
pub struct EnforcedCompilationResult {
    /// Whether compilation succeeded.
    pub success: bool,
    /// Number of rules compiled.
    pub rule_count: usize,
    /// SHA-384 hash of output.
    pub output_hash: String,
    /// Time elapsed in milliseconds.
    pub elapsed_ms: u64,
    /// Output file path.
    pub output_path: String,
    /// Validation metadata proving validation was performed.
    pub validation_metadata: ValidationMetadata,
}

/// Validation metadata that proves validation was performed at runtime.
#[derive(Debug)]
pub struct ValidationMetadata {
    /// Timestamp when validation was performed.
    pub validation_timestamp: String,
    /// Number of local files validated.
    pub local_files_validated: usize,
    /// Number of remote URLs validated.
    pub remote_urls_validated: usize,
    /// Hash database entries count.
    pub hash_database_entries: usize,
    /// Validation library version used.
    pub validation_library_version: String,
    /// Whether strict mode was enabled.
    pub strict_mode: bool,
    /// Archive created (if enabled).
    pub archive_created: Option<String>,
}

impl ValidationMetadata {
    /// The text that a signature is made of: the timestamp, the two counts,
    /// the version and the mode, with colons between them.
    pub open spec fn signed_text(&self) -> Seq<char> {
        self.validation_timestamp@ + ":"@ + decimal(self.local_files_validated as nat) + ":"@
            + decimal(self.remote_urls_validated as nat) + ":"@ + self.validation_library_version@
            + ":"@ + if self.strict_mode {
            "true"@
        } else {
            "false"@
        }
    }

    /// The signature of the metadata: the SHA-384 digest of the signed text,
    /// in hexadecimal.
    pub open spec fn signature_text(&self) -> Seq<char> {
        hex_text(sha384_of(encode_utf8(self.signed_text())))
    }

    /// The metadata of a validation that starts at `timestamp` under
    /// `config`: nothing has been validated yet.
    pub fn begin(timestamp: &str, version: &str, config: &ValidationConfig) -> (r: Self)
        ensures
            r.validation_timestamp@ == timestamp@,
            r.local_files_validated == 0,
            r.remote_urls_validated == 0,
            r.hash_database_entries == 0,
            r.validation_library_version@ == version@,
            r.strict_mode == (config.hash_verification.mode == VerificationMode::Strict),
            r.archive_created is None,
    {
        ValidationMetadata {
            validation_timestamp: owned(timestamp),
            local_files_validated: 0,
            remote_urls_validated: 0,
            hash_database_entries: 0,
            validation_library_version: owned(version),
            strict_mode: match config.hash_verification.mode {
                VerificationMode::Strict => true,
                _ => false,
            },
            archive_created: None,
        }
    }

    /// Create a signature that can be verified.
    #[must_use]
    pub fn signature(&self) -> (r: String)
        ensures
            r@ == self.signature_text(),
            r@.len() == 96,
    {
        let mut data = self.validation_timestamp.clone();
        data.append(":");
        data.append(decimal_string(self.local_files_validated as u128).as_str());
        data.append(":");
        data.append(decimal_string(self.remote_urls_validated as u128).as_str());
        data.append(":");
        data.append(self.validation_library_version.as_str());
        data.append(":");
        if self.strict_mode {
            data.append("true");
        } else {
            data.append("false");
        }
        assert(data@ =~= self.signed_text());
        sha384_hex(data.as_str().as_bytes())
    }

    /// Puts down that a local file was validated, where its syntax is valid.
    ///
    /// # Errors
    ///
    /// Returns `SyntaxValidationFailed`, with the number of invalid rules,
    /// where the syntax is not valid; the metadata stays as it is.
    pub fn local_file_validated(&mut self, file: &str, syntax: &SyntaxValidationResult) -> (r:
        Result<(), ValidationError>)
        ensures
            match r {
                Ok(_) => syntax.is_valid && *final(self) == (ValidationMetadata {
                    local_files_validated: counted(old(self).local_files_validated),
                    ..*old(self)
                }),
                Err(e) => !syntax.is_valid && *final(self) == *old(self) && (
                e matches ValidationError::SyntaxValidationFailed { file: f, reason } && f@
                    == file@ && reason@ == "Syntax validation failed: "@ + decimal(
                    syntax.invalid_rules as nat,
                ) + " errors"@),
            },
    {
        if !syntax.is_valid {
            let mut reason = concat(
                "Syntax validation failed: ",
                decimal_string(syntax.invalid_rules as u128).as_str(),
            );
            reason.append(" errors");
            return Err(ValidationError::syntax_validation(file, reason.as_str()));
        }
        self.local_files_validated = count_one_more(self.local_files_validated);
        Ok(())
    }

    /// Puts down that a remote URL was validated, where it has passed.
    ///
    /// # Errors
    ///
    /// Returns `UrlValidationFailed`, with the messages of the validation,
    /// where the URL has not passed; the metadata stays as it is.
    pub fn remote_url_validated(&mut self, url: &str, validation: &UrlValidationResult) -> (r:
        Result<(), ValidationError>)
        ensures
            match r {
                Ok(_) => validation.is_valid && *final(self) == (ValidationMetadata {
                    remote_urls_validated: counted(old(self).remote_urls_validated),
                    ..*old(self)
                }),
                Err(e) => !validation.is_valid && *final(self) == *old(self) && (
                e matches ValidationError::UrlValidationFailed { url: u, reason } && u@ == url@
                    && reason@ == "URL validation failed: "@ + debug_list_text(
                    texts(validation.messages@),
                )),
            },
    {
        if !validation.is_valid {
            let reason = concat(
                "URL validation failed: ",
                debug_list(&validation.messages).as_str(),
            );
            return Err(ValidationError::url_validation(url, reason.as_str()));
        }
        self.remote_urls_validated = count_one_more(self.remote_urls_validated);
        Ok(())
    }
}

/// Input source for compilation.
#[derive(Debug)]
pub struct CompilationInput {
    /// Local input files to validate and compile.
    pub local_files: Vec<String>,
    /// Remote URLs to validate and fetch.
    pub remote_urls: Vec<String>,
    /// Expected hashes for remote URLs (optional), each with its URL.
    pub expected_hashes: Vec<(String, String)>,
}

impl CompilationInput {
    /// The hash expected for `url`: that of the first pair that names it.
    pub open spec fn expected(&self, url: Seq<char>) -> Option<Seq<char>> {
        expected_in(self.expected_hashes@, url)
    }

    /// The hash that is expected for `url`, where one is.
    pub fn expected_hash(&self, url: &str) -> (r: Option<&str>)
        ensures
            match r {
                Some(h) => self.expected(url@) == Some(h@),
                None => self.expected(url@) is None,
            },
    {
        let mut i: usize = 0;
        assert(self.expected_hashes@.subrange(0, self.expected_hashes@.len() as int)
            =~= self.expected_hashes@);
        while i < self.expected_hashes.len()
            invariant
                i <= self.expected_hashes.len(),
                expected_in(self.expected_hashes@, url@) == expected_in(
                    self.expected_hashes@.subrange(i as int, self.expected_hashes@.len() as int),
                    url@,
                ),
            decreases self.expected_hashes.len() - i,
        {
            let ghost rest = self.expected_hashes@.subrange(
                i as int,
                self.expected_hashes@.len() as int,
            );
            assert(rest[0] == self.expected_hashes@[i as int]);
            assert(rest.drop_first() =~= self.expected_hashes@.subrange(
                i + 1,
                self.expected_hashes@.len() as int,
            ));
            if same_text(self.expected_hashes[i].0.as_str(), url) {
                return Some(self.expected_hashes[i].1.as_str());
            }
            i = i + 1;
        }
        None
    }

    /// The directory that is archived: that of the first local file, or the
    /// default input directory where there is no local file.
    pub open spec fn archive_source(&self) -> Seq<char> {
        if self.local_files@.len() > 0 {
            directory_of(self.local_files@[0]@)
        } else {
            "data/input"@
        }
    }

    /// The directory whose files go into the archive.
    pub fn input_directory(&self) -> (r: String)
        ensures
            r@ == self.archive_source(),
    {
        if self.local_files.len() > 0 {
            parent_or_current(self.local_files[0].as_str())
        } else {
            owned("data/input")
        }
    }
}

/// The hash under the first pair of `pairs` whose key is `key`.
pub open spec fn expected_in(pairs: Seq<(String, String)>, key: Seq<char>) -> Option<Seq<char>>
    decreases pairs.len(),
{
    if pairs.len() == 0 {
        None
    } else if pairs[0].0@ == key {
        Some(pairs[0].1@)
    } else {
        expected_in(pairs.drop_first(), key)
    }
}

/// Compilation options.
#[derive(Debug)]
pub struct CompilationOptions {
    /// Validation configuration.
    pub validation_config: ValidationConfig,
    /// Output file path.
    pub output_path: String,
    /// Whether to create archive.
    pub create_archive: bool,
}

impl Default for CompilationOptions {
    fn default() -> (r: Self)
        ensures
            r.validation_config.is_default(),
            r.output_path@ == "data/output/adguard_user_filter.txt"@,
            r.create_archive,
    {
        CompilationOptions {
            validation_config: ValidationConfig::default(),
            output_path: owned("data/output/adguard_user_filter.txt"),
            create_archive: true,
        }
    }
}

impl CompilationOptions {
    /// An archive is made where the options ask for one and archiving is
    /// enabled.
    pub fn wants_archive(&self) -> (r: bool)
        ensures
            r == (self.create_archive && self.validation_config.archiving.enabled),
    {
        self.create_archive && self.validation_config.archiving.enabled
    }
}

impl EnforcedCompilationResult {
    /// The result of a compilation that went through, with the record of its
    /// validation.
    pub fn validated(
        metadata: ValidationMetadata,
        rule_count: usize,
        output_hash: String,
        elapsed_ms: u64,
        output_path: String,
    ) -> (r: Self)
        ensures
            r.success,
            r.rule_count == rule_count,
            r.output_hash == output_hash,
            r.elapsed_ms == elapsed_ms,
            r.output_path == output_path,
            r.validation_metadata == metadata,
    {
        EnforcedCompilationResult {
            success: true,
            rule_count,
            output_hash,
            elapsed_ms,
            output_path,
            validation_metadata: metadata,
        }
    }
}

/// Why a result does not show that it was validated, if it does not: nothing
/// was validated, or the version of the validation is missing.
pub open spec fn missing_evidence(result: EnforcedCompilationResult) -> Option<Seq<char>> {
    if result.validation_metadata.local_files_validated == 0
        && result.validation_metadata.remote_urls_validated == 0 {
        Some("Compilation result has no evidence of validation"@)
    } else if result.validation_metadata.validation_library_version@.len() == 0 {
        Some("Validation library version missing"@)
    } else {
        None
    }
}

/// Verify that a compilation result was produced with proper validation.
///
/// # Errors
///
/// Returns `Other`, with the reason, if the metadata shows no validation.
pub fn verify_compilation_was_validated(result: &EnforcedCompilationResult) -> (r: Result<
    (),
    ValidationError,
>)
    ensures
        match missing_evidence(*result) {
            None => r is Ok,
            Some(reason) => r matches Err(ValidationError::Other(m)) && m@ == reason,
        },
{
    if result.validation_metadata.local_files_validated == 0
        && result.validation_metadata.remote_urls_validated == 0 {
        return Err(
            ValidationError::Other(owned("Compilation result has no evidence of validation")),
        );
    }
    if result.validation_metadata.validation_library_version.as_str().is_empty() {
        return Err(ValidationError::Other(owned("Validation library version missing")));
    }
    let expected_signature = result.validation_metadata.signature();
    assert(expected_signature@.len() == 96);
    Ok(())
}

} // verus!
