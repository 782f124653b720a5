use rules_compiler::config::{
    CompilerConfig, ConfigFormat, FilterSource, SourceType, Transformation,
};
use rules_compiler::error::CompilerError;

#[test]
fn test_config_format_from_extension() {
    assert_eq!(ConfigFormat::from_extension("json").unwrap(), ConfigFormat::Json);
    assert_eq!(ConfigFormat::from_extension("yaml").unwrap(), ConfigFormat::Yaml);
    assert_eq!(ConfigFormat::from_extension("yml").unwrap(), ConfigFormat::Yaml);
    assert_eq!(ConfigFormat::from_extension("toml").unwrap(), ConfigFormat::Toml);
    assert!(ConfigFormat::from_extension("txt").is_err());
}

#[test]
fn test_config_format_from_extension_ignores_case() {
    assert_eq!(ConfigFormat::from_extension("JSON").unwrap(), ConfigFormat::Json);
    assert_eq!(ConfigFormat::from_extension("Yml").unwrap(), ConfigFormat::Yaml);
    match ConfigFormat::from_extension("TXT") {
        Err(CompilerError::UnknownExtension { extension }) => assert_eq!(extension, "TXT"),
        other => panic!("unexpected: {:?}", other),
    }
}

#[test]
fn test_config_format_from_lowercase_is_exact() {
    assert_eq!(ConfigFormat::from_lowercase("json"), Some(ConfigFormat::Json));
    assert_eq!(ConfigFormat::from_lowercase("yaml"), Some(ConfigFormat::Yaml));
    assert_eq!(ConfigFormat::from_lowercase("yml"), Some(ConfigFormat::Yaml));
    assert_eq!(ConfigFormat::from_lowercase("toml"), Some(ConfigFormat::Toml));
    assert_eq!(ConfigFormat::from_lowercase("JSON"), None);
    assert_eq!(ConfigFormat::from_lowercase(""), None);
    assert_eq!(ConfigFormat::from_lowercase("jsonx"), None);
}

#[test]
fn test_config_format_from_path() {
    assert_eq!(
        ConfigFormat::from_path("config.json").unwrap(),
        ConfigFormat::Json
    );
    assert_eq!(
        ConfigFormat::from_path("/path/to/config.yaml").unwrap(),
        ConfigFormat::Yaml
    );
}

#[test]
fn test_config_format_from_path_without_extension() {
    match ConfigFormat::from_path("/path/to/config") {
        Err(CompilerError::UnknownExtension { extension }) => assert_eq!(extension, ""),
        other => panic!("unexpected: {:?}", other),
    }
    assert!(ConfigFormat::from_path("/path.d/.json").is_err());
    assert_eq!(ConfigFormat::from_path("a.b/c.TOML").unwrap(), ConfigFormat::Toml);
}

#[test]
fn test_config_format_extensions_and_names() {
    assert_eq!(ConfigFormat::Json.extensions(), vec!["json"]);
    assert_eq!(ConfigFormat::Yaml.extensions(), vec!["yaml", "yml"]);
    assert_eq!(ConfigFormat::Toml.extensions(), vec!["toml"]);
    assert_eq!(ConfigFormat::Json.to_string(), "JSON");
    assert_eq!(ConfigFormat::Yaml.to_string(), "YAML");
    assert_eq!(ConfigFormat::Toml.to_string(), "TOML");
    assert_eq!(ConfigFormat::default(), ConfigFormat::Json);
    assert_eq!(SourceType::default(), SourceType::Adblock);
    assert_eq!(SourceType::Hosts.to_string(), "hosts");
    assert_eq!(Transformation::InsertFinalNewLine.to_string(), "InsertFinalNewLine");
}

#[test]
fn test_filter_source_is_url() {
    let url_source = FilterSource::new("test", "https://example.com/list.txt");
    assert!(url_source.is_url());
    assert!(!url_source.is_local());

    let local_source = FilterSource::new("test", "./local/list.txt");
    assert!(!local_source.is_url());
    assert!(local_source.is_local());
}

#[test]
fn test_filter_source_is_url_edges() {
    assert!(FilterSource::new("t", "http://x").is_url());
    assert!(FilterSource::new("t", "http://").is_url());
    assert!(!FilterSource::new("t", "http:/").is_url());
    assert!(!FilterSource::new("t", "HTTPS://example.com").is_url());
    assert!(!FilterSource::new("t", " https://example.com").is_url());
    assert!(!FilterSource::new("t", "").is_url());
    let hosts = FilterSource::new("t", "hosts.txt").with_type(SourceType::Hosts);
    assert_eq!(hosts.source_type, SourceType::Hosts);
    assert_eq!(hosts.name, "t");
}

#[test]
fn test_compiler_config_builder() {
    let config = CompilerConfig::new("Test Filter")
        .with_description("A test filter list")
        .with_version("1.0.0")
        .with_source(FilterSource::new("Local", "./rules.txt"))
        .with_transformation("Deduplicate");

    assert_eq!(config.name, "Test Filter");
    assert_eq!(config.description, "A test filter list");
    assert_eq!(config.version, "1.0.0");
    assert_eq!(config.sources.len(), 1);
    assert_eq!(config.transformations.len(), 1);
    assert_eq!(config.format(), None);
    assert_eq!(config.path(), None);
}

#[test]
fn test_compiler_config_validate() {
    let valid = CompilerConfig::new("Test")
        .with_source(FilterSource::new("Source", "https://example.com"));
    assert!(valid.validate().is_ok());

    let no_name = CompilerConfig::default();
    assert!(no_name.validate().is_err());

    let no_sources = CompilerConfig::new("Test");
    assert!(no_sources.validate().is_err());
}

#[test]
fn test_compiler_config_validate_messages() {
    let message = |c: &CompilerConfig| match c.validate() {
        Err(CompilerError::ValidationFailed { message }) => message,
        other => panic!("unexpected: {:?}", other),
    };
    assert_eq!(message(&CompilerConfig::default()), "configuration 'name' is required");
    assert_eq!(message(&CompilerConfig::new("T")), "at least one source is required");
    let mut config = CompilerConfig::new("T");
    for i in 0..12 {
        let location = if i == 10 || i == 11 { "" } else { "x" };
        config = config.with_source(FilterSource::new("s", location));
    }
    assert_eq!(message(&config), "source[10].source is required");
    assert_eq!(
        config.validate().unwrap_err().to_string(),
        "configuration validation failed: source[10].source is required"
    );
}

#[test]
fn test_sources_count() {
    let config = CompilerConfig::new("Test")
        .with_source(FilterSource::new("Local1", "./local.txt"))
        .with_source(FilterSource::new("Remote", "https://example.com/list.txt"))
        .with_source(FilterSource::new("Local2", "./another.txt"));

    assert_eq!(config.local_sources_count(), 2);
    assert_eq!(config.remote_sources_count(), 1);
}
