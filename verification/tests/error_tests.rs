use rules_compiler::error::CompilerError;

#[test]
fn test_config_not_found_display() {
    let err = CompilerError::config_not_found("/path/to/config.json");
    assert!(err.to_string().contains("/path/to/config.json"));
}

#[test]
fn test_unknown_extension_display() {
    let err = CompilerError::unknown_extension("xyz");
    assert!(err.to_string().contains("xyz"));
    assert!(err.to_string().contains(".json"));
}

#[test]
fn test_is_recoverable() {
    assert!(CompilerError::config_not_found("/path").is_recoverable());
    assert!(CompilerError::unknown_extension("xyz").is_recoverable());
    assert!(!CompilerError::CompilerNotFound.is_recoverable());
}

#[test]
fn test_validation_failed() {
    let err = CompilerError::validation_failed("missing required field 'name'");
    assert!(err.to_string().contains("missing required field"));
}

#[test]
fn test_error_messages_are_exact() {
    assert_eq!(
        CompilerError::config_not_found("a/b.json").to_string(),
        "configuration file not found: a/b.json"
    );
    assert_eq!(
        CompilerError::unknown_extension("xyz").to_string(),
        "unknown configuration file extension '.xyz' (expected: .json, .yaml, .yml, .toml)"
    );
    assert_eq!(
        CompilerError::JsonParse { source: "eof".to_string() }.to_string(),
        "failed to parse JSON configuration: eof"
    );
    assert_eq!(
        CompilerError::YamlParse { source: "eof".to_string() }.to_string(),
        "failed to parse YAML configuration: eof"
    );
    assert_eq!(
        CompilerError::TomlParse { source: "eof".to_string() }.to_string(),
        "failed to parse TOML configuration: eof"
    );
    assert_eq!(
        CompilerError::file_system("writing x", "denied").to_string(),
        "file system error: writing x"
    );
    assert_eq!(
        CompilerError::CompilerNotFound.to_string(),
        "hostlist-compiler not found (install with: npm install -g @adguard/hostlist-compiler)"
    );
    assert_eq!(
        CompilerError::compilation_failed("bad", Some(2), None).to_string(),
        "compilation failed: bad"
    );
    assert_eq!(
        CompilerError::output_not_created("out.txt").to_string(),
        "compilation completed but output file was not created at: out.txt"
    );
    assert_eq!(
        CompilerError::copy_failed("copying a to b", "denied").to_string(),
        "failed to copy output to rules directory: copying a to b"
    );
    assert_eq!(
        CompilerError::process_execution("npx x", "not found").to_string(),
        "failed to execute process 'npx x': not found"
    );
    assert_eq!(
        CompilerError::hash_mismatch("f", "aa", "bb").to_string(),
        "hash mismatch for f: expected aa, got bb"
    );
    assert_eq!(CompilerError::Io("broken pipe".to_string()).to_string(), "I/O error: broken pipe");
    assert!(CompilerError::validation_failed("x").is_recoverable());
    assert!(!CompilerError::hash_mismatch("f", "aa", "bb").is_recoverable());
    assert!(!CompilerError::Io("x".to_string()).is_recoverable());
}
