use rules_compiler::compiler::ToolProbe;
use rules_compiler::{CompileOptions, PlatformInfo, RulesCompiler, VersionInfo, NAME, VERSION};

#[test]
fn test_version_constant() {
    assert!(!VERSION.is_empty());
    assert!(VERSION.contains('.'));
}

#[test]
fn test_name_constant() {
    assert_eq!(NAME, "rules-compiler");
}

#[test]
fn test_exports() {
    // Verify all main types are exported
    let _: fn() -> RulesCompiler = RulesCompiler::new;
    let _: fn() -> CompileOptions = CompileOptions::new;
    let _: fn(&str, &str, PlatformInfo, ToolProbe) -> VersionInfo = VersionInfo::collect;
    let _: fn(&str, &str) -> PlatformInfo = PlatformInfo::detect;
}
