use rules_compiler::validation::syntax::{
    detect_format, is_valid_adblock_rule, is_valid_hosts_rule, is_valid_rule, validate_syntax,
    FilterFormat,
};

#[test]
fn test_detect_format_adblock() {
    let content = "||example.com^\n@@||allowed.com\n##.ad-banner";
    assert_eq!(detect_format(content), FilterFormat::Adblock);
}

#[test]
fn test_detect_format_hosts() {
    let content = "127.0.0.1 localhost\n0.0.0.0 example.com\n0.0.0.0 ads.com";
    assert_eq!(detect_format(content), FilterFormat::Hosts);
}

#[test]
fn test_detect_format_unknown_and_sample() {
    assert_eq!(detect_format(""), FilterFormat::Unknown);
    assert_eq!(detect_format("! only\n# comments\n\n"), FilterFormat::Unknown);
    assert_eq!(detect_format("||a^\n0.0.0.0 b"), FilterFormat::Unknown);
    // a hosts entry with a dollar sign counts for both
    assert_eq!(detect_format("0.0.0.0 a$b"), FilterFormat::Unknown);
    // only the first fifty lines are looked at, comments among them
    let mut content = String::new();
    for _ in 0..49 {
        content.push_str("! comment\n");
    }
    content.push_str("0.0.0.0 example.com\n");
    for _ in 0..10 {
        content.push_str("||example.com^\n");
    }
    assert_eq!(detect_format(&content), FilterFormat::Hosts);
}

#[test]
fn test_is_valid_adblock_rule() {
    assert!(is_valid_adblock_rule("||example.com^"));
    assert!(is_valid_adblock_rule("@@||allowed.com"));
    assert!(is_valid_adblock_rule("##.ad-class"));
    assert!(!is_valid_adblock_rule(""));
}

#[test]
fn test_is_valid_adblock_rule_forms() {
    assert!(is_valid_adblock_rule("example.com"));
    assert!(is_valid_adblock_rule("example.com^"));
    assert!(is_valid_adblock_rule("/banner[0-9]+/"));
    assert!(is_valid_adblock_rule("a$third-party"));
    assert!(is_valid_adblock_rule("site.com##.ad"));
    assert!(!is_valid_adblock_rule("invalid rule"));
    assert!(!is_valid_adblock_rule("example.com^^"));
    assert!(!is_valid_adblock_rule("0.0.0.0 example.com"));
}

#[test]
fn test_is_valid_hosts_rule() {
    assert!(is_valid_hosts_rule("0.0.0.0 example.com"));
    assert!(is_valid_hosts_rule("127.0.0.1 localhost"));
    assert!(!is_valid_hosts_rule("invalid rule"));
}

#[test]
fn test_is_valid_rule_by_format() {
    assert!(is_valid_hosts_rule("::1 localhost"));
    assert!(is_valid_hosts_rule(":: localhost"));
    assert!(!is_valid_hosts_rule(" 0.0.0.0 example.com"));
    assert!(!is_valid_hosts_rule("0.0.0.0"));
    assert!(is_valid_rule("0.0.0.0 example.com", FilterFormat::Hosts));
    assert!(!is_valid_rule("0.0.0.0 example.com", FilterFormat::Adblock));
    assert!(is_valid_rule("0.0.0.0 example.com", FilterFormat::Unknown));
    assert!(is_valid_rule("||example.com^", FilterFormat::Unknown));
    assert!(!is_valid_rule("||example.com^", FilterFormat::Hosts));
    assert!(!is_valid_rule("not a rule", FilterFormat::Unknown));
}

#[test]
fn test_validate_syntax() {
    let result = validate_syntax("! Comment\n||example.com^\n@@||allowed.com\n");
    assert!(result.is_valid);
    assert_eq!(result.format, FilterFormat::Adblock);
    assert!(result.valid_rules >= 2);
}

#[test]
fn test_syntax_validation_adblock_format() {
    let result =
        validate_syntax("! Title: Test Filter\n||example.com^\n@@||allowed.com^\n##.ad-banner\n");

    assert!(result.is_valid);
    assert_eq!(result.format, FilterFormat::Adblock);
    assert!(result.valid_rules >= 2); // At least ||example.com^ and @@||allowed.com^
    assert_eq!(result.invalid_rules, 0);
}

#[test]
fn test_syntax_validation_hosts_format() {
    let result = validate_syntax(
        "# Comment\n0.0.0.0 example.com\n0.0.0.0 ads.example.com\n127.0.0.1 localhost\n",
    );

    assert!(result.is_valid);
    assert_eq!(result.format, FilterFormat::Hosts);
    assert!(result.valid_rules >= 3);
}

#[test]
fn test_validate_syntax_reports_invalid_lines() {
    let result = validate_syntax("||a.com^\n\n  not a rule  \r\n! c\n||b.com^\nalso bad here");
    assert!(!result.is_valid);
    assert_eq!(result.format, FilterFormat::Adblock);
    assert_eq!(result.valid_rules, 2);
    assert_eq!(result.invalid_rules, 2);
    assert_eq!(
        result.messages,
        vec![
            "Line 3: Invalid syntax: not a rule".to_string(),
            "Line 6: Invalid syntax: also bad here".to_string()
        ]
    );
}

#[test]
fn test_validate_syntax_without_rules() {
    let result = validate_syntax("! nothing\n\n# here\n");
    assert!(!result.is_valid);
    assert_eq!(result.format, FilterFormat::Unknown);
    assert_eq!((result.valid_rules, result.invalid_rules), (0, 0));
    assert_eq!(result.messages, vec!["No valid rules found".to_string()]);
    let result = validate_syntax("one bad line");
    assert!(!result.is_valid);
    assert_eq!(
        result.messages,
        vec![
            "Line 1: Invalid syntax: one bad line".to_string(),
            "No valid rules found".to_string()
        ]
    );
    let empty = validate_syntax("");
    assert!(!empty.is_valid);
    assert_eq!(empty.messages, vec!["No valid rules found".to_string()]);
}
