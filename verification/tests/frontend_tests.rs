use rules_compiler::frontend::compiler::{
    compute_hash, count_rules, find_typescript_compiler, typescript_compiler_candidates,
    CompileOptions, CompilerResult, RunOutcome,
};
use rules_compiler::frontend::config::{default_config_paths, find_default_config, ConfigFormat};
use rules_compiler::frontend::error::CompilerError;

#[test]
fn test_format_from_extension() {
    assert_eq!(
        ConfigFormat::from_path("config.json").unwrap(),
        ConfigFormat::Json
    );
    assert_eq!(
        ConfigFormat::from_path("config.yaml").unwrap(),
        ConfigFormat::Yaml
    );
    assert_eq!(
        ConfigFormat::from_path("config.yml").unwrap(),
        ConfigFormat::Yaml
    );
    assert_eq!(
        ConfigFormat::from_path("config.toml").unwrap(),
        ConfigFormat::Toml
    );
}

#[test]
fn test_format_from_str() {
    assert_eq!(ConfigFormat::from_str("json").unwrap(), ConfigFormat::Json);
    assert_eq!(ConfigFormat::from_str("YAML").unwrap(), ConfigFormat::Yaml);
    assert_eq!(ConfigFormat::from_str("toml").unwrap(), ConfigFormat::Toml);
}

#[test]
fn test_format_errors() {
    match ConfigFormat::from_path("config.JSON") {
        Err(CompilerError::InvalidFormat(m)) => assert_eq!(m, "Unknown extension: .JSON"),
        other => panic!("unexpected: {:?}", other),
    }
    match ConfigFormat::from_path("config") {
        Err(CompilerError::InvalidFormat(m)) => assert_eq!(m, "No file extension"),
        other => panic!("unexpected: {:?}", other),
    }
    match ConfigFormat::from_str("Ini") {
        Err(e) => assert_eq!(e.to_string(), "Invalid configuration format: Unknown format: Ini"),
        other => panic!("unexpected: {:?}", other),
    }
    assert_eq!(ConfigFormat::from_name("yml"), Some(ConfigFormat::Yaml));
    assert_eq!(ConfigFormat::from_name("YML"), None);
}

#[test]
fn test_frontend_error_messages() {
    assert_eq!(
        CompilerError::ConfigNotFound("a.json".to_string()).to_string(),
        "Configuration file not found: a.json"
    );
    assert_eq!(CompilerError::Io("x".to_string()).to_string(), "IO error: x");
    assert_eq!(CompilerError::Json("x".to_string()).to_string(), "JSON parsing error: x");
    assert_eq!(CompilerError::Yaml("x".to_string()).to_string(), "YAML parsing error: x");
    assert_eq!(CompilerError::Toml("x".to_string()).to_string(), "TOML parsing error: x");
    assert_eq!(
        CompilerError::CompilationFailed("x".to_string()).to_string(),
        "Compilation failed: x"
    );
    assert_eq!(
        CompilerError::NodeNotFound.to_string(),
        "Node.js not found. Please install Node.js 18+"
    );
    assert_eq!(
        CompilerError::CompilerNotFound("src/cli.ts".to_string()).to_string(),
        "TypeScript compiler not found at: src/cli.ts"
    );
}

#[test]
fn test_find_default_config_takes_first_present() {
    assert_eq!(
        default_config_paths(),
        vec![
            "compiler-config.json",
            "compiler-config.yaml",
            "compiler-config.yml",
            "compiler-config.toml",
            "../compiler-config.json"
        ]
    );
    assert_eq!(find_default_config(&vec![false; 5]), None);
    assert_eq!(find_default_config(&vec![]), None);
    assert_eq!(
        find_default_config(&vec![true, true, true, true, true]).as_deref(),
        Some("compiler-config.json")
    );
    assert_eq!(
        find_default_config(&vec![false, false, true, true, false]).as_deref(),
        Some("compiler-config.yml")
    );
    assert_eq!(
        find_default_config(&vec![false, false, false, false, true]).as_deref(),
        Some("../compiler-config.json")
    );
    assert_eq!(find_default_config(&vec![false, true]).as_deref(), Some("compiler-config.yaml"));
}

#[test]
fn frontend_test_count_rules() {
    let content = "! Comment line\n# Another comment\n||example.com^\n\n||test.net^\n";
    assert_eq!(count_rules(content), 2);
    assert_eq!(count_rules(""), 0);
}

#[test]
fn frontend_test_compute_hash() {
    let hash = compute_hash(b"test content\n");
    assert!(!hash.is_empty());
    assert_eq!(hash.len(), 96); // SHA-384 produces 96 hex chars
    assert_eq!(
        hash,
        "8a435d8d86866e9137410ee3c4092d5382dcd1549a18609e38ab09d8ee4b70053c536c4b1cafd09675e004485809a66d"
    );
}

fn options() -> CompileOptions {
    CompileOptions {
        config_path: "/project/ts/compiler-config.json".to_string(),
        output_path: None,
        copy_to_rules: false,
        rules_directory: None,
        format: None,
        debug: false,
    }
}

#[test]
fn test_typescript_arguments() {
    let plain = options();
    assert_eq!(
        plain.arguments("src/cli.ts", "out.txt"),
        vec!["src/cli.ts", "-c", "/project/ts/compiler-config.json", "-o", "out.txt"]
    );
    let mut all = options();
    all.debug = true;
    all.copy_to_rules = true;
    all.rules_directory = Some("/rules".to_string());
    assert_eq!(
        all.arguments("cli.ts", "o"),
        vec![
            "cli.ts",
            "-c",
            "/project/ts/compiler-config.json",
            "-o",
            "o",
            "-d",
            "-r",
            "--rules-dir",
            "/rules"
        ]
    );
    let mut copy = options();
    copy.copy_to_rules = true;
    assert_eq!(copy.arguments("cli.ts", "o").last().map(|s| s.as_str()), Some("-r"));
    let mut dir_only = options();
    dir_only.rules_directory = Some("/rules".to_string());
    assert_eq!(dir_only.arguments("cli.ts", "o").len(), 5);
}

#[test]
fn test_typescript_paths() {
    let plain = options();
    assert_eq!(
        plain.output_path_at("2024-12-27T10-00-00"),
        "/project/ts/output/compiled-2024-12-27T10-00-00.txt"
    );
    assert_eq!(
        plain.rules_destination(),
        "/project/ts/../../rules/adguard_user_filter.txt"
    );
    let mut named = options();
    named.output_path = Some("x/y.txt".to_string());
    named.rules_directory = Some("/rules".to_string());
    assert_eq!(named.output_path_at("t"), "x/y.txt");
    assert_eq!(named.rules_destination(), "/rules/adguard_user_filter.txt");
    assert_eq!(
        typescript_compiler_candidates("/project/ts/compiler-config.json"),
        vec!["/project/ts/src/cli.ts", "/project/ts/cli.ts", "src/cli.ts", "../src/cli.ts"]
    );
    assert_eq!(
        typescript_compiler_candidates("compiler-config.json"),
        vec!["src/cli.ts", "cli.ts", "src/cli.ts", "../src/cli.ts"]
    );
}

#[test]
fn test_find_typescript_compiler() {
    let path = "/project/ts/compiler-config.json";
    assert_eq!(
        find_typescript_compiler(path, &vec![false, true, true, false]).unwrap(),
        "/project/ts/cli.ts"
    );
    assert_eq!(
        find_typescript_compiler(path, &vec![false, false, false, true]).unwrap(),
        "../src/cli.ts"
    );
    match find_typescript_compiler(path, &vec![false, false, false, false]) {
        Err(CompilerError::CompilerNotFound(m)) => assert_eq!(m, "src/cli.ts"),
        other => panic!("unexpected: {:?}", other),
    }
    assert!(find_typescript_compiler(path, &vec![]).is_err());
}

#[test]
fn test_typescript_result() {
    let failed = CompilerResult::of_run(
        "List",
        "1.0",
        "out.txt",
        RunOutcome::ExitFailure { exit_code: Some(2) },
        10,
        25,
        15,
    );
    assert!(!failed.success);
    assert_eq!(failed.error_message.as_deref(), Some("Compiler exited with code: Some(2)"));
    assert_eq!(failed.rule_count, 0);
    assert_eq!(failed.output_hash, "");
    assert_eq!((failed.start_time, failed.end_time, failed.elapsed_ms), (10, 25, 15));
    let killed = CompilerResult::of_run(
        "List",
        "1.0",
        "out.txt",
        RunOutcome::ExitFailure { exit_code: None },
        0,
        0,
        0,
    );
    assert_eq!(killed.error_message.as_deref(), Some("Compiler exited with code: None"));
    let done = CompilerResult::of_run(
        "List",
        "1.0",
        "out.txt",
        RunOutcome::Compiled {
            rule_count: 7,
            output_hash: "ab".to_string(),
            copied_to: Some("rules/f.txt".to_string()),
        },
        1,
        2,
        1,
    );
    assert!(done.success);
    assert_eq!(done.config_name, "List");
    assert_eq!(done.config_version, "1.0");
    assert_eq!(done.output_path, "out.txt");
    assert_eq!(done.rule_count, 7);
    assert_eq!(done.output_hash, "ab");
    assert!(done.copied_to_rules);
    assert_eq!(done.rules_destination.as_deref(), Some("rules/f.txt"));
    assert_eq!(done.error_message, None);
}
