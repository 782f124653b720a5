use rules_compiler::validation::config::{
    ArchivingConfig, ArchivingMode, ConflictStrategy, HashVerificationConfig, OutputConfig,
    ValidationConfig, VerificationMode,
};
use rules_compiler::validation::error::ValidationError;
use rules_compiler::validation::{NAME, VERSION};

#[test]
fn test_default_verification_mode() {
    assert_eq!(VerificationMode::default(), VerificationMode::Warning);
}

#[test]
fn test_config_builder() {
    let config = ValidationConfig::new()
        .with_verification_mode(VerificationMode::Strict)
        .with_archiving(false)
        .with_output_path("custom/output.txt");

    assert_eq!(config.hash_verification.mode, VerificationMode::Strict);
    assert!(!config.archiving.enabled);
    assert_eq!(config.output.path, "custom/output.txt");
}

#[test]
fn test_version() {
    assert!(!VERSION.is_empty());
}

#[test]
fn test_name() {
    assert_eq!(NAME, "adguard-validation-core");
}

#[test]
fn test_validation_config_defaults() {
    let config = ValidationConfig::default();
    assert_eq!(config.hash_verification.mode, VerificationMode::Warning);
    assert!(!config.hash_verification.require_hashes_for_remote);
    assert!(!config.hash_verification.fail_on_mismatch);
    assert_eq!(config.hash_verification.hash_database_path, "data/input/.hashes.json");
    assert!(config.archiving.enabled);
    assert_eq!(config.archiving.mode, ArchivingMode::Automatic);
    assert_eq!(config.archiving.retention_days, 90);
    assert_eq!(config.archiving.archive_path, "data/archive");
    assert_eq!(config.output.path, "data/output/adguard_user_filter.txt");
    assert_eq!(config.output.conflict_strategy, ConflictStrategy::Rename);
    assert_eq!(ArchivingMode::default(), ArchivingMode::Automatic);
    assert_eq!(ConflictStrategy::default(), ConflictStrategy::Rename);
    assert_eq!(HashVerificationConfig::default().mode, VerificationMode::Warning);
    assert!(ArchivingConfig::default().enabled);
    assert_eq!(OutputConfig::default().conflict_strategy, ConflictStrategy::Rename);
    let kept = ValidationConfig::new().with_archiving(true).with_output_path("o");
    assert_eq!(kept.archiving.retention_days, 90);
    assert_eq!(kept.hash_verification.hash_database_path, "data/input/.hashes.json");
}

#[test]
fn test_verification_mode_names() {
    assert_eq!(VerificationMode::from_name("strict"), Some(VerificationMode::Strict));
    assert_eq!(VerificationMode::from_name("warning"), Some(VerificationMode::Warning));
    assert_eq!(VerificationMode::from_name("disabled"), Some(VerificationMode::Disabled));
    assert_eq!(VerificationMode::from_name("Strict"), None);
    assert_eq!(VerificationMode::from_name(""), None);
}

#[test]
fn test_validation_error_messages() {
    assert_eq!(
        ValidationError::hash_mismatch("f.txt", "aa", "bb").to_string(),
        "Hash mismatch for f.txt: expected aa, got bb"
    );
    assert_eq!(
        ValidationError::url_validation("http://x", "bad").to_string(),
        "URL validation failed for http://x: bad"
    );
    assert_eq!(
        ValidationError::syntax_validation("f.txt", "bad").to_string(),
        "Syntax validation failed for f.txt: bad"
    );
    assert_eq!(ValidationError::FileSystem("e".to_string()).to_string(), "File system error: e");
    assert_eq!(ValidationError::Http("e".to_string()).to_string(), "HTTP error: e");
    assert_eq!(ValidationError::Json("e".to_string()).to_string(), "JSON error: e");
    assert_eq!(ValidationError::UrlParse("e".to_string()).to_string(), "URL parse error: e");
    assert_eq!(ValidationError::config("e").to_string(), "Configuration error: e");
    assert_eq!(ValidationError::archive("e").to_string(), "Archive error: e");
    assert_eq!(ValidationError::file_conflict("e").to_string(), "File conflict: e");
    assert_eq!(ValidationError::Other("just this".to_string()).to_string(), "just this");
}
