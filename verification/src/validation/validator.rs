//! Main validator combining all validation features.

use crate::validation::config::{ValidationConfig, VerificationMode};
use crate::validation::error::ValidationError;
use crate::validation::hash::{verified, verify_and_update, HashDatabase};
use crate::validation::syntax::{is_validation_of, validate_syntax, SyntaxValidationResult};
use crate::validation::url_security::{
    response_check, url_check, validate_url, HttpResponse, UrlValidationResult,
};
use vstd::prelude::*;
use vstd::utf8::encode_utf8;

verus! {

/// Main validator for filter lists.
pub struct Validator {
    /// The configuration of the validation.
    pub config: ValidationConfig,
    /// The hashes of the files that were validated before.
    pub hash_db: HashDatabase,
}

impl Validator {
    /// Create a new validator with the specified configuration and the hash
    /// database that was read for it.
    #[must_use]
    pub fn new(config: ValidationConfig, hash_db: HashDatabase) -> (r: Self)
        ensures
            r.config == config,
            r.hash_db == hash_db,
    {
        Validator { config, hash_db }
    }

    /// The validator verifies strictly.
    pub open spec fn is_strict(&self) -> bool {
        self.config.hash_verification.mode == VerificationMode::Strict
    }

    /// The hash database of `after` is that of this validator once the file
    /// at `key`, which holds `text`, was verified against it at `now`, with
    /// the outcome `outcome`.
    pub open spec fn verified_as(
        self,
        after: Self,
        key: Seq<char>,
        text: Seq<char>,
        now: i64,
        outcome: Result<bool, ValidationError>,
    ) -> bool {
        verified(
            self.hash_db.map(),
            after.hash_db.map(),
            key,
            encode_utf8(text),
            encode_utf8(text).len() as u64,
            self.is_strict(),
            now,
            outcome,
        )
    }

    /// Validate a local file: `text` is what the file at `path` holds, `now`
    /// the time.
    ///
    /// Performs:
    /// - Syntax validation
    /// - Hash verification (at-rest), against the hash database, which is
    ///   brought up to date
    ///
    /// # Errors
    ///
    /// Returns `HashMismatch` if the file has changed and the mode is strict.
    pub fn validate_local_file(&mut self, path: &str, text: &str, now: i64) -> (r: Result<
        SyntaxValidationResult,
        ValidationError,
    >)
        requires
            old(self).hash_db.wf(),
        ensures
            final(self).hash_db.wf(),
            final(self).config == old(self).config,
            match r {
                Ok(syntax) => is_validation_of(syntax, text@) && (old(self).verified_as(
                    *final(self),
                    path@,
                    text@,
                    now,
                    Ok(true),
                ) || old(self).verified_as(*final(self), path@, text@, now, Ok(false))),
                Err(e) => old(self).verified_as(*final(self), path@, text@, now, Err(e)),
            },
    {
        let syntax_result = validate_syntax(text);
        let strict = match self.config.hash_verification.mode {
            VerificationMode::Strict => true,
            _ => false,
        };
        let bytes = text.as_bytes();
        let outcome = verify_and_update(
            path,
            bytes,
            bytes.len() as u64,
            &mut self.hash_db,
            strict,
            now,
        );
        match outcome {
            Ok(_) => Ok(syntax_result),
            Err(e) => Err(e),
        }
    }

    /// Validate a remote URL, given the response to the request for it.
    ///
    /// # Errors
    ///
    /// Returns `UrlValidationFailed` where the text is no URL.
    pub fn validate_remote_url(
        &self,
        url: &str,
        expected_hash: Option<&str>,
        response: &HttpResponse,
    ) -> (r: Result<UrlValidationResult, ValidationError>)
        ensures
            match url_check(url@) {
                Ok(view) => r matches Ok(result) && result@ == if view.is_valid {
                    response_check(
                        view,
                        *response,
                        match expected_hash {
                            Some(h) => Some(h@),
                            None => None,
                        },
                    )
                } else {
                    view
                },
                Err(reason) => r matches Err(
                    ValidationError::UrlValidationFailed { url: u, reason: x },
                ) && u@ == url@ && x@ == reason,
            },
    {
        validate_url(url, expected_hash, response)
    }

    /// Get the hash database.
    #[must_use]
    pub fn hash_database(&self) -> (r: &HashDatabase)
        ensures
            *r == self.hash_db,
    {
        &self.hash_db
    }

    /// Get the configuration.
    #[must_use]
    pub fn config(&self) -> (r: &ValidationConfig)
        ensures
            *r == self.config,
    {
        &self.config
    }
}

} // verus!
