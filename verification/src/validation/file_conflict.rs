//! File conflict resolution strategies.
//!
//! Whether a file exists is for the caller to find out. The resolver says
//! which path to use, or which path to look at next.

use crate::paths::{
    extension_of, file_stem_of, joined_path, parent_of, path_extension, path_file_stem,
    path_join, path_parent,
};
use crate::text::{concat, decimal, decimal_string, owned};
use crate::validation::config::ConflictStrategy;
use crate::validation::error::ValidationError;
use vstd::prelude::*;

verus! {

/// How many renamed paths are tried before the resolver gives up.
pub const MAX_RENAME_ATTEMPTS: u32 = 9999;

/// What the resolver asks of its caller.
#[derive(Debug)]
pub enum ConflictStep {
    /// Use this path.
    Use(String),
    /// Find out whether `candidate`, the renamed path number `attempt`,
    /// exists, and come back with the answer.
    Probe { attempt: u32, candidate: String },
}

/// File conflict resolver.
pub struct FileConflictResolver {
    /// How a conflict is resolved.
    pub strategy: ConflictStrategy,
}

/// The file name of the renamed path number `attempt`: the stem of the path,
/// a hyphen and the number, and the extension where the path has one. A path
/// without a stem is taken to be called `file`.
pub open spec fn renamed_file(path: Seq<char>, attempt: nat) -> Seq<char> {
    let stem = match file_stem_of(path) {
        Some(s) => s,
        None => "file"@,
    };
    let extension = match extension_of(path) {
        Some(e) => e,
        None => Seq::empty(),
    };
    if extension.len() == 0 {
        stem + "-"@ + decimal(attempt)
    } else {
        stem + "-"@ + decimal(attempt) + "."@ + extension
    }
}

/// The renamed path number `attempt`, in the directory of the path; none
/// where the path has no parent directory.
pub open spec fn renamed_path(path: Seq<char>, attempt: nat) -> Option<Seq<char>> {
    match parent_of(path) {
        Some(parent) => Some(joined_path(parent, renamed_file(path, attempt))),
        None => None,
    }
}

/// What a step of the resolver comes to.
pub enum StepView {
    /// This path is used.
    Use(Seq<char>),
    /// The renamed path of this number is looked at next.
    Probe(nat, Seq<char>),
    /// The resolver gives up, with this message.
    Fail(Seq<char>),
}

/// The step after a first look at `path`: a path that does not exist is
/// used; one that exists is used all the same, refused, or renamed, as the
/// strategy says.
pub open spec fn first_step(strategy: ConflictStrategy, path: Seq<char>, present: bool) -> StepView {
    if !present || strategy == ConflictStrategy::Overwrite {
        StepView::Use(path)
    } else if strategy == ConflictStrategy::Error {
        StepView::Fail("File already exists: "@ + path)
    } else {
        match renamed_path(path, 1) {
            Some(candidate) => StepView::Probe(1, candidate),
            None => StepView::Fail("Cannot determine parent directory"@),
        }
    }
}

/// The step after a look at the renamed path number `attempt`: it is used
/// where it does not exist; else the next one is looked at, and after the
/// last the resolver gives up.
pub open spec fn later_step(path: Seq<char>, attempt: nat, taken: bool) -> StepView {
    match renamed_path(path, attempt) {
        None => StepView::Fail("Cannot determine parent directory"@),
        Some(candidate) => if !taken {
            StepView::Use(candidate)
        } else if attempt >= MAX_RENAME_ATTEMPTS {
            StepView::Fail("Could not find available filename after 9999 attempts"@)
        } else {
            StepView::Probe(attempt + 1, renamed_path(path, attempt + 1)->0)
        },
    }
}

/// The step `r` is what `expected` describes.
pub open spec fn is_step(r: Result<ConflictStep, ValidationError>, expected: StepView) -> bool {
    match expected {
        StepView::Use(path) => r matches Ok(ConflictStep::Use(p)) && p@ == path,
        StepView::Probe(n, path) => r matches Ok(ConflictStep::Probe { attempt, candidate })
            && attempt == n && candidate@ == path,
        StepView::Fail(message) => r matches Err(ValidationError::FileConflict(m)) && m@
            == message,
    }
}

impl FileConflictResolver {
    /// Create a new resolver with the specified strategy.
    #[must_use]
    pub fn new(strategy: ConflictStrategy) -> (r: Self)
        ensures
            r.strategy == strategy,
    {
        FileConflictResolver { strategy }
    }

    /// The renamed path number `attempt` of `path`.
    ///
    /// # Errors
    ///
    /// Returns `FileConflict` where `path` has no parent directory.
    pub fn candidate(path: &str, attempt: u32) -> (r: Result<String, ValidationError>)
        ensures
            match renamed_path(path@, attempt as nat) {
                Some(candidate) => r matches Ok(c) && c@ == candidate,
                None => r matches Err(ValidationError::FileConflict(m)) && m@
                    == "Cannot determine parent directory"@,
            },
    {
        let parent = match path_parent(path) {
            Some(p) => p,
            None => {
                return Err(ValidationError::file_conflict("Cannot determine parent directory"));
            },
        };
        let stem = match path_file_stem(path) {
            Some(s) => s,
            None => owned("file"),
        };
        let extension = match path_extension(path) {
            Some(e) => e,
            None => String::new(),
        };
        let mut name = stem;
        name.append("-");
        name.append(decimal_string(attempt as u128).as_str());
        if !extension.as_str().is_empty() {
            name.append(".");
            name.append(extension.as_str());
        }
        Ok(path_join(parent.as_str(), name.as_str()))
    }

    /// Resolve a file conflict: given whether `path` exists, says which path
    /// to use, or which renamed path to look at first.
    ///
    /// # Errors
    ///
    /// Returns `FileConflict` if the strategy is `Error` and the file exists,
    /// or if the file is to be renamed and has no parent directory.
    pub fn resolve(&self, path: &str, present: bool) -> (r: Result<ConflictStep, ValidationError>)
        ensures
            is_step(r, first_step(self.strategy, path@, present)),
    {
        if !present {
            return Ok(ConflictStep::Use(owned(path)));
        }
        match self.strategy {
            ConflictStrategy::Overwrite => Ok(ConflictStep::Use(owned(path))),
            ConflictStrategy::Error => Err(
                ValidationError::FileConflict(concat("File already exists: ", path)),
            ),
            ConflictStrategy::Rename => match Self::candidate(path, 1) {
                Ok(candidate) => Ok(ConflictStep::Probe { attempt: 1, candidate }),
                Err(e) => Err(e),
            },
        }
    }

    /// Find an available filename by appending numbers: given whether the
    /// renamed path number `attempt` is taken, says to use it, or which one
    /// to look at next.
    ///
    /// # Errors
    ///
    /// Returns `FileConflict` after the last attempt, or if `path` has no
    /// parent directory.
    pub fn find_available_name(&self, path: &str, attempt: u32, taken: bool) -> (r: Result<
        ConflictStep,
        ValidationError,
    >)
        ensures
            is_step(r, later_step(path@, attempt as nat, taken)),
    {
        match Self::candidate(path, attempt) {
            Err(e) => Err(e),
            Ok(candidate) => {
                if !taken {
                    Ok(ConflictStep::Use(candidate))
                } else if attempt >= MAX_RENAME_ATTEMPTS {
                    Err(
                        ValidationError::file_conflict(
                            "Could not find available filename after 9999 attempts",
                        ),
                    )
                } else {
                    match Self::candidate(path, attempt + 1) {
                        Ok(next) => Ok(ConflictStep::Probe { attempt: attempt + 1, candidate: next }),
                        Err(e) => Err(e),
                    }
                }
            },
        }
    }
}

/// Resolve file conflict using the specified strategy: the first step of a
/// resolver with that strategy.
///
/// # Errors
///
/// Returns an error if resolution fails.
pub fn resolve_conflict(path: &str, strategy: ConflictStrategy, present: bool) -> (r: Result<
    ConflictStep,
    ValidationError,
>)
    ensures
        is_step(r, first_step(strategy, path@, present)),
{
    FileConflictResolver::new(strategy).resolve(path, present)
}

} // verus!
