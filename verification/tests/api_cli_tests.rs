use rules_compiler::api_cli::config::{default_api_url, AppConfig, EnvironmentSettings};
use rules_compiler::api_cli::menu::MenuHelper;

#[test]
fn test_config_default() {
    let config = AppConfig::default();
    assert_eq!(config.api_url, "https://api.adguard-dns.io");
    assert_eq!(config.api_token, None);
}

#[test]
fn test_config_set_token() {
    let mut config = AppConfig::default();
    assert!(!config.has_token());

    config.set_token("test-token".to_string());
    assert!(config.has_token());
    assert_eq!(config.get_token().unwrap(), "test-token");
}

#[test]
fn test_config_get_token_error_when_none() {
    let config = AppConfig::default();
    let result = config.get_token();
    assert!(result.is_err());
    assert!(result
        .unwrap_err()
        .to_string()
        .contains("API token not configured"));
}

fn environment() -> EnvironmentSettings {
    EnvironmentSettings {
        base_url: None,
        dotnet_base_url: None,
        legacy_url: None,
        api_key: None,
        dotnet_api_key: None,
        legacy_token: None,
    }
}

#[test]
fn test_config_environment_overrides_in_order() {
    assert_eq!(default_api_url(), "https://api.adguard-dns.io");
    let file = AppConfig { api_url: "https://file".to_string(), api_token: Some("file".to_string()) };

    let untouched = file.clone().load(environment());
    assert_eq!(untouched.api_url, "https://file");
    assert_eq!(untouched.api_token.as_deref(), Some("file"));

    let mut all = environment();
    all.base_url = Some("https://standard".to_string());
    all.dotnet_base_url = Some("https://custom.api.example.com".to_string());
    all.legacy_url = Some("https://legacy".to_string());
    all.api_key = Some("standard-key".to_string());
    all.dotnet_api_key = Some("test-dotnet-token".to_string());
    all.legacy_token = Some("legacy-token".to_string());
    let config = file.clone().load(all);
    assert_eq!(config.api_url, "https://standard");
    assert_eq!(config.api_token.as_deref(), Some("standard-key"));

    let mut dotnet = environment();
    dotnet.dotnet_base_url = Some("https://custom.api.example.com".to_string());
    dotnet.legacy_url = Some("https://legacy".to_string());
    dotnet.dotnet_api_key = Some("test-dotnet-token".to_string());
    dotnet.legacy_token = Some("legacy-token".to_string());
    let config = file.clone().load(dotnet);
    assert_eq!(config.api_url, "https://custom.api.example.com");
    assert_eq!(config.api_token.as_deref(), Some("test-dotnet-token"));

    let mut legacy = environment();
    legacy.legacy_url = Some("https://legacy".to_string());
    legacy.legacy_token = Some("legacy-token".to_string());
    let config = AppConfig::default().load(legacy);
    assert_eq!(config.api_url, "https://legacy");
    assert_eq!(config.api_token.as_deref(), Some("legacy-token"));

    let mut only_token = environment();
    only_token.api_key = Some("k".to_string());
    let config = file.load(only_token);
    assert_eq!(config.api_url, "https://file");
    assert_eq!(config.api_token.as_deref(), Some("k"));
}

#[test]
fn test_menu_messages() {
    assert_eq!(MenuHelper::no_items("devices"), "No devices found.");
    assert_eq!(MenuHelper::no_items(""), "No  found.");
    assert_eq!(MenuHelper::cancelled(), "Operation cancelled.");
    assert_eq!(MenuHelper::table_row(&vec![]), "");
    assert_eq!(MenuHelper::table_row(&vec!["a".to_string()]), "a");
    assert_eq!(
        MenuHelper::table_row(&vec!["a".to_string(), "".to_string(), "c".to_string()]),
        "a │  │ c"
    );
}
