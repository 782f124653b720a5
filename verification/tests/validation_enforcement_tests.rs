use rules_compiler::validation::config::{ConflictStrategy, ValidationConfig, VerificationMode};
use rules_compiler::validation::error::ValidationError;
use rules_compiler::validation::file_conflict::{
    resolve_conflict, ConflictStep, FileConflictResolver,
};
use rules_compiler::validation::hash::HashDatabase;
use rules_compiler::validation::runtime_enforcement::{
    verify_compilation_was_validated, CompilationInput, CompilationOptions,
    EnforcedCompilationResult, ValidationMetadata,
};
use rules_compiler::validation::syntax::validate_syntax;
use rules_compiler::validation::url_security::UrlValidationResult;
use rules_compiler::validation::validator::Validator;
use std::collections::HashSet;

fn metadata(local: usize, remote: usize, version: &str) -> ValidationMetadata {
    ValidationMetadata {
        validation_timestamp: "2024-12-27T10:00:00Z".to_string(),
        local_files_validated: local,
        remote_urls_validated: remote,
        hash_database_entries: local,
        validation_library_version: version.to_string(),
        strict_mode: false,
        archive_created: None,
    }
}

fn result_with(metadata: ValidationMetadata) -> EnforcedCompilationResult {
    EnforcedCompilationResult {
        success: true,
        rule_count: 100,
        output_hash: "abc123".to_string(),
        elapsed_ms: 1000,
        output_path: "output.txt".to_string(),
        validation_metadata: metadata,
    }
}

#[test]
fn test_validation_metadata_signature() {
    let metadata = ValidationMetadata {
        validation_timestamp: "2024-12-27T10:00:00Z".to_string(),
        local_files_validated: 5,
        remote_urls_validated: 3,
        hash_database_entries: 8,
        validation_library_version: "1.0.0".to_string(),
        strict_mode: true,
        archive_created: None,
    };

    let signature = metadata.signature();
    assert_eq!(signature.len(), 96); // SHA-384 produces 96 hex chars
    assert_eq!(
        signature,
        "203977b2acaf18e7b23b02a902ec3c5264928247a501796bc59d69c62adfcd25ae31bdb1ea2f3672317a18ecb6324d6d"
    );
}

#[test]
fn test_validation_metadata_signature_uniqueness() {
    let meta1 = ValidationMetadata {
        validation_timestamp: "2024-12-27T10:00:00Z".to_string(),
        local_files_validated: 5,
        remote_urls_validated: 3,
        hash_database_entries: 8,
        validation_library_version: "1.0.0".to_string(),
        strict_mode: true,
        archive_created: None,
    };

    let meta2 = ValidationMetadata {
        validation_timestamp: "2024-12-27T11:00:00Z".to_string(), // Different timestamp
        local_files_validated: 5,
        remote_urls_validated: 3,
        hash_database_entries: 8,
        validation_library_version: "1.0.0".to_string(),
        strict_mode: true,
        archive_created: None,
    };

    // Different metadata should produce different signatures
    assert_ne!(meta1.signature(), meta2.signature());
}

#[test]
fn test_verify_compilation_validates_presence() {
    let result = result_with(metadata(5, 0, "1.0.0"));
    assert!(verify_compilation_was_validated(&result).is_ok());
}

#[test]
fn test_verify_compilation_rejects_missing_validation() {
    let result = result_with(metadata(0, 0, "1.0.0"));
    assert!(verify_compilation_was_validated(&result).is_err());
}

#[test]
fn test_verification_rejects_forged_metadata() {
    // Create a result with fake metadata (0 validations)
    let fake_result = result_with(metadata(0, 0, "1.0.0"));

    // Verification should reject this
    let verification = verify_compilation_was_validated(&fake_result);
    assert!(verification.is_err());
    assert_eq!(
        verification.unwrap_err().to_string(),
        "Compilation result has no evidence of validation"
    );
}

#[test]
fn test_verification_wants_a_version() {
    assert!(verify_compilation_was_validated(&result_with(metadata(0, 1, "1.0.0"))).is_ok());
    match verify_compilation_was_validated(&result_with(metadata(1, 1, ""))) {
        Err(ValidationError::Other(m)) => assert_eq!(m, "Validation library version missing"),
        other => panic!("unexpected: {:?}", other),
    }
    // nothing validated is reported first
    match verify_compilation_was_validated(&result_with(metadata(0, 0, ""))) {
        Err(ValidationError::Other(m)) => {
            assert_eq!(m, "Compilation result has no evidence of validation")
        }
        other => panic!("unexpected: {:?}", other),
    }
}

#[test]
fn test_compilation_rejects_invalid_syntax() {
    let config = ValidationConfig::default();
    let mut record = ValidationMetadata::begin("2024-12-27T10:00:00Z", "0.1.0", &config);
    assert!(!record.strict_mode);
    let good = validate_syntax("||example.com^\n");
    assert!(record.local_file_validated("a.txt", &good).is_ok());
    assert_eq!(record.local_files_validated, 1);
    let bad = validate_syntax("||example.com^\nno rule\nnor this\n");
    match record.local_file_validated("b.txt", &bad) {
        Err(ValidationError::SyntaxValidationFailed { file, reason }) => {
            assert_eq!(file, "b.txt");
            assert_eq!(reason, "Syntax validation failed: 2 errors");
        }
        other => panic!("unexpected: {:?}", other),
    }
    assert_eq!(record.local_files_validated, 1);
    let strict = ValidationConfig::default().with_verification_mode(VerificationMode::Strict);
    assert!(ValidationMetadata::begin("t", "v", &strict).strict_mode);
}

#[test]
fn test_compilation_rejects_failed_url() {
    let config = ValidationConfig::default();
    let mut record = ValidationMetadata::begin("2024-12-27T10:00:00Z", "0.1.0", &config);
    assert!(record.remote_url_validated("https://a", &UrlValidationResult::valid()).is_ok());
    assert_eq!(record.remote_urls_validated, 1);
    let mut failed = UrlValidationResult::invalid("HTTP 404 Not Found");
    failed.add_message("say \"why\"");
    match record.remote_url_validated("https://b", &failed) {
        Err(ValidationError::UrlValidationFailed { url, reason }) => {
            assert_eq!(url, "https://b");
            assert_eq!(
                reason,
                "URL validation failed: [\"HTTP 404 Not Found\", \"say \\\"why\\\"\"]"
            );
        }
        other => panic!("unexpected: {:?}", other),
    }
    assert_eq!(record.remote_urls_validated, 1);
    let done = EnforcedCompilationResult::validated(record, 7, "hh".to_string(), 12, "o".to_string());
    assert!(done.success);
    assert_eq!(done.rule_count, 7);
    assert_eq!(done.validation_metadata.remote_urls_validated, 1);
    assert!(verify_compilation_was_validated(&done).is_ok());
}

#[test]
fn test_compilation_input_and_options() {
    let input = CompilationInput {
        local_files: vec!["data/in/a.txt".to_string(), "other/b.txt".to_string()],
        remote_urls: vec!["https://x".to_string()],
        expected_hashes: vec![
            ("https://x".to_string(), "h1".to_string()),
            ("https://y".to_string(), "h2".to_string()),
            ("https://x".to_string(), "h3".to_string()),
        ],
    };
    assert_eq!(input.expected_hash("https://x"), Some("h1"));
    assert_eq!(input.expected_hash("https://y"), Some("h2"));
    assert_eq!(input.expected_hash("https://z"), None);
    assert_eq!(input.input_directory(), "data/in");
    let bare = CompilationInput {
        local_files: vec!["a.txt".to_string()],
        remote_urls: vec![],
        expected_hashes: vec![],
    };
    assert_eq!(bare.input_directory(), "");
    let none = CompilationInput { local_files: vec![], remote_urls: vec![], expected_hashes: vec![] };
    assert_eq!(none.input_directory(), "data/input");
    let root = CompilationInput {
        local_files: vec!["/".to_string()],
        remote_urls: vec![],
        expected_hashes: vec![],
    };
    assert_eq!(root.input_directory(), ".");

    let options = CompilationOptions::default();
    assert!(options.create_archive);
    assert_eq!(options.output_path, "data/output/adguard_user_filter.txt");
    assert!(options.wants_archive());
    let mut off = CompilationOptions::default();
    off.validation_config = ValidationConfig::default().with_archiving(false);
    assert!(!off.wants_archive());
    let mut no = CompilationOptions::default();
    no.create_archive = false;
    assert!(!no.wants_archive());
}

/// Runs the resolver against a set of paths that exist.
fn resolve_among(
    resolver: &FileConflictResolver,
    path: &str,
    existing: &HashSet<String>,
) -> Result<String, ValidationError> {
    let mut step = resolver.resolve(path, existing.contains(path))?;
    loop {
        match step {
            ConflictStep::Use(p) => return Ok(p),
            ConflictStep::Probe { attempt, candidate } => {
                step = resolver.find_available_name(path, attempt, existing.contains(&candidate))?;
            }
        }
    }
}

#[test]
fn test_no_conflict() {
    let path = "/tmp/dir/new-file.txt";

    let resolver = FileConflictResolver::new(ConflictStrategy::Rename);
    let result = resolve_among(&resolver, path, &HashSet::new()).unwrap();

    assert_eq!(result, path);
}

#[test]
fn test_rename_strategy() {
    let path = "/tmp/dir/file.txt";
    let existing: HashSet<String> = [path.to_string()].into_iter().collect();

    let resolver = FileConflictResolver::new(ConflictStrategy::Rename);
    let result = resolve_among(&resolver, path, &existing).unwrap();

    assert_ne!(result, path);
    assert_eq!(result, "/tmp/dir/file-1.txt");
}

#[test]
fn test_overwrite_strategy() {
    let path = "/tmp/dir/file.txt";
    let existing: HashSet<String> = [path.to_string()].into_iter().collect();

    let resolver = FileConflictResolver::new(ConflictStrategy::Overwrite);
    let result = resolve_among(&resolver, path, &existing).unwrap();

    assert_eq!(result, path);
}

#[test]
fn test_error_strategy() {
    let path = "/tmp/dir/file.txt";
    let existing: HashSet<String> = [path.to_string()].into_iter().collect();

    let resolver = FileConflictResolver::new(ConflictStrategy::Error);
    let result = resolve_among(&resolver, path, &existing);

    assert!(result.is_err());
    assert_eq!(
        result.unwrap_err().to_string(),
        "File conflict: File already exists: /tmp/dir/file.txt"
    );
}

#[test]
fn test_file_conflict_rename_strategy() {
    let path = "/out/output.txt";
    let existing: HashSet<String> = [path, "/out/output-1.txt", "/out/output-2.txt"]
        .into_iter()
        .map(String::from)
        .collect();
    let resolver = FileConflictResolver::new(ConflictStrategy::Rename);
    let resolved = resolve_among(&resolver, path, &existing).unwrap();
    assert_ne!(resolved, path);
    assert!(resolved.contains("output-"));
    assert_eq!(resolved, "/out/output-3.txt");
}

#[test]
fn test_file_conflict_overwrite_strategy() {
    match resolve_conflict("/out/output.txt", ConflictStrategy::Overwrite, true).unwrap() {
        ConflictStep::Use(p) => assert_eq!(p, "/out/output.txt"),
        other => panic!("unexpected: {:?}", other),
    }
}

#[test]
fn test_file_conflict_error_strategy() {
    assert!(resolve_conflict("/out/output.txt", ConflictStrategy::Error, true).is_err());
    assert!(resolve_conflict("/out/output.txt", ConflictStrategy::Error, false).is_ok());
}

#[test]
fn test_file_conflict_candidates() {
    assert_eq!(FileConflictResolver::candidate("/a/b.tar.gz", 12).unwrap(), "/a/b.tar-12.gz");
    assert_eq!(FileConflictResolver::candidate("/a/noext", 1).unwrap(), "/a/noext-1");
    assert_eq!(FileConflictResolver::candidate("/a/.hidden", 2).unwrap(), "/a/.hidden-2");
    assert_eq!(FileConflictResolver::candidate("rel.txt", 9999).unwrap(), "rel-9999.txt");
    assert_eq!(FileConflictResolver::candidate("/a/..", 1).unwrap(), "/a/file-1");
    match FileConflictResolver::candidate("/", 1) {
        Err(ValidationError::FileConflict(m)) => assert_eq!(m, "Cannot determine parent directory"),
        other => panic!("unexpected: {:?}", other),
    }
    match FileConflictResolver::candidate("", 1) {
        Err(ValidationError::FileConflict(m)) => assert_eq!(m, "Cannot determine parent directory"),
        other => panic!("unexpected: {:?}", other),
    }
}

#[test]
fn test_file_conflict_gives_up_after_last_attempt() {
    let resolver = FileConflictResolver::new(ConflictStrategy::Rename);
    match resolver.find_available_name("/a/f.txt", 9998, true).unwrap() {
        ConflictStep::Probe { attempt, candidate } => {
            assert_eq!(attempt, 9999);
            assert_eq!(candidate, "/a/f-9999.txt");
        }
        other => panic!("unexpected: {:?}", other),
    }
    match resolver.find_available_name("/a/f.txt", 9999, false).unwrap() {
        ConflictStep::Use(p) => assert_eq!(p, "/a/f-9999.txt"),
        other => panic!("unexpected: {:?}", other),
    }
    match resolver.find_available_name("/a/f.txt", 9999, true) {
        Err(ValidationError::FileConflict(m)) => {
            assert_eq!(m, "Could not find available filename after 9999 attempts")
        }
        other => panic!("unexpected: {:?}", other),
    }
    assert!(resolver.resolve("/", true).is_err());
}

#[test]
fn test_multiple_local_files_validation() {
    let config = ValidationConfig::default();
    let mut validator = Validator::new(config.clone(), HashDatabase::new());
    let mut record = ValidationMetadata::begin("2024-12-27T10:00:00Z", "0.1.0", &config);
    let files = [
        ("rules1.txt", "||example1.com^\n"),
        ("rules2.txt", "||example2.com^\n"),
        ("rules3.txt", "||example3.com^\n"),
    ];
    for (path, text) in files {
        let syntax = validator.validate_local_file(path, text, 77).unwrap();
        record.local_file_validated(path, &syntax).unwrap();
    }
    record.hash_database_entries = validator.hash_database().len();
    let result =
        EnforcedCompilationResult::validated(record, 3, "hash".to_string(), 5, "out.txt".to_string());

    assert_eq!(result.validation_metadata.local_files_validated, 3);
    assert_eq!(result.validation_metadata.hash_database_entries, 3);
    assert!(verify_compilation_was_validated(&result).is_ok());
}
