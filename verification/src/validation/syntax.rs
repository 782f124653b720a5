//! Syntax validation for filter rules.

use crate::patterns::{is_match, matches_pattern};
use crate::text::{
    concat, contains, decimal, decimal_string, has_prefix, has_substring, is_rule_line,
    line_is_rule, lines_of, split_lines, starts_with, texts, trim, trimmed,
};
use vstd::prelude::*;

verus! {

/// Filter format type.
#[derive(Debug, Clone, Copy, PartialEq, Eq, Structural)]
pub enum FilterFormat {
    /// AdBlock format.
    Adblock,
    /// Hosts file format.
    Hosts,
    /// Unknown format.
    Unknown,
}

/// Syntax validation result.
#[derive(Debug, Clone)]
pub struct SyntaxValidationResult {
    /// Whether syntax is valid.
    pub is_valid: bool,
    /// Detected format.
    pub format: FilterFormat,
    /// Number of valid rules.
    pub valid_rules: usize,
    /// Number of invalid rules.
    pub invalid_rules: usize,
    /// Errors and warnings.
    pub messages: Vec<String>,
}

/// How many lines of a list are looked at to tell its format.
pub const FORMAT_SAMPLE_LINES: usize = 50;

/// The pattern of a line that starts like a hosts entry: a dotted address
/// and white space.
pub open spec fn hosts_start_pattern() -> Seq<char> {
    "^[0-9]+\\.[0-9]+\\.[0-9]+\\.[0-9]+\\s+"@
}

/// The pattern of a plain domain, with a separator mark after it or not.
pub open spec fn plain_domain_pattern() -> Seq<char> {
    "^[a-zA-Z0-9\\-\\.]+\\^?$"@
}

/// The pattern of a hosts entry: an address, white space, a host name.
pub open spec fn hosts_rule_pattern() -> Seq<char> {
    "^([0-9]+\\.[0-9]+\\.[0-9]+\\.[0-9]+|::1?)\\s+[a-zA-Z0-9\\-\\.]+"@
}

/// A line that shows an adblock list: a domain rule, an exception, a
/// cosmetic rule or a rule with options.
pub open spec fn looks_like_adblock(line: Seq<char>) -> bool {
    has_prefix(line, "||"@) || has_prefix(line, "@@"@) || has_substring(line, "##"@)
        || has_substring(line, "$"@)
}

/// A valid adblock rule: not empty, and one of the forms that show an
/// adblock list, a regular expression rule, or a plain domain.
pub open spec fn valid_adblock_rule(line: Seq<char>) -> bool {
    line.len() > 0 && (looks_like_adblock(line) || has_prefix(line, "/"@) || matches_pattern(
        plain_domain_pattern(),
        line,
    ))
}

/// A valid hosts rule: an address and a host name.
pub open spec fn valid_hosts_rule(line: Seq<char>) -> bool {
    matches_pattern(hosts_rule_pattern(), line)
}

/// A valid rule of a format; where the format is unknown, a valid rule of
/// either.
pub open spec fn valid_rule(line: Seq<char>, format: FilterFormat) -> bool {
    match format {
        FilterFormat::Adblock => valid_adblock_rule(line),
        FilterFormat::Hosts => valid_hosts_rule(line),
        FilterFormat::Unknown => valid_adblock_rule(line) || valid_hosts_rule(line),
    }
}

/// The scores of the two formats over some lines: each rule that shows an
/// adblock list counts two for adblock, each rule that starts like a hosts
/// entry counts two for hosts. Comments and blank lines count for nothing.
pub open spec fn format_scores(lines: Seq<Seq<char>>) -> (nat, nat)
    decreases lines.len(),
{
    if lines.len() == 0 {
        (0, 0)
    } else {
        let before = format_scores(lines.drop_last());
        let line = trimmed(lines.last());
        if !is_rule_line(lines.last()) {
            before
        } else {
            (
                before.0 + if looks_like_adblock(line) {
                    2nat
                } else {
                    0nat
                },
                before.1 + if matches_pattern(hosts_start_pattern(), line) {
                    2nat
                } else {
                    0nat
                },
            )
        }
    }
}

/// The lines by which the format of a list is told: its first fifty.
pub open spec fn format_sample(lines: Seq<Seq<char>>) -> Seq<Seq<char>> {
    if lines.len() <= FORMAT_SAMPLE_LINES {
        lines
    } else {
        lines.subrange(0, FORMAT_SAMPLE_LINES as int)
    }
}

/// The format that the scores speak for.
pub open spec fn format_of_scores(scores: (nat, nat)) -> FilterFormat {
    if scores.0 > scores.1 {
        FilterFormat::Adblock
    } else if scores.1 > scores.0 {
        FilterFormat::Hosts
    } else {
        FilterFormat::Unknown
    }
}

/// The format of a list, told by its first lines: the one with the higher
/// score, or unknown where the scores are level.
pub open spec fn detected_format(content: Seq<char>) -> FilterFormat {
    format_of_scores(format_scores(format_sample(lines_of(content))))
}

/// Tells whether a line shows an adblock list.
fn line_looks_like_adblock(line: &str) -> (r: bool)
    ensures
        r == looks_like_adblock(line@),
{
    starts_with(line, "||") || starts_with(line, "@@") || contains(line, "##") || contains(
        line,
        "$",
    )
}

/// Detect filter format from content.
pub fn detect_format(content: &str) -> (r: FilterFormat)
    ensures
        r == detected_format(content@),
{
    let lines = split_lines(content);
    let sample: usize = if lines.len() <= FORMAT_SAMPLE_LINES {
        lines.len()
    } else {
        FORMAT_SAMPLE_LINES
    };
    let ghost all = format_sample(lines_of(content@));
    assert(all =~= texts(lines@).subrange(0, sample as int));
    let mut adblock_score: usize = 0;
    let mut hosts_score: usize = 0;
    let mut i: usize = 0;
    while i < sample
        invariant
            i <= sample <= lines.len(),
            sample <= 50,
            all == texts(lines@).subrange(0, sample as int),
            (adblock_score as nat, hosts_score as nat) == format_scores(all.subrange(0, i as int)),
            adblock_score <= 2 * i,
            hosts_score <= 2 * i,
        decreases sample - i,
    {
        assert(all.subrange(0, i + 1).drop_last() =~= all.subrange(0, i as int));
        assert(all.subrange(0, i + 1).last() == lines@[i as int]@);
        if line_is_rule(lines[i].as_str()) {
            let line = trim(lines[i].as_str());
            if line_looks_like_adblock(line.as_str()) {
                adblock_score = adblock_score + 2;
            }
            if is_match("^[0-9]+\\.[0-9]+\\.[0-9]+\\.[0-9]+\\s+", line.as_str()) {
                hosts_score = hosts_score + 2;
            }
        }
        i = i + 1;
    }
    assert(all.subrange(0, sample as int) =~= all);
    format_for_scores(adblock_score, hosts_score)
}

/// The format that the scores of the two formats speak for: the one with
/// the higher score, or unknown where the scores are level.
pub fn format_for_scores(adblock_score: usize, hosts_score: usize) -> (r: FilterFormat)
    ensures
        r == format_of_scores((adblock_score as nat, hosts_score as nat)),
{
    if adblock_score > hosts_score {
        FilterFormat::Adblock
    } else if hosts_score > adblock_score {
        FilterFormat::Hosts
    } else {
        FilterFormat::Unknown
    }
}

/// Validate AdBlock rule.
pub fn is_valid_adblock_rule(line: &str) -> (r: bool)
    ensures
        r == valid_adblock_rule(line@),
{
    !line.is_empty() && (line_looks_like_adblock(line) || starts_with(line, "/") || is_match(
        "^[a-zA-Z0-9\\-\\.]+\\^?$",
        line,
    ))
}

/// Validate hosts file rule.
pub fn is_valid_hosts_rule(line: &str) -> (r: bool)
    ensures
        r == valid_hosts_rule(line@),
{
    is_match("^([0-9]+\\.[0-9]+\\.[0-9]+\\.[0-9]+|::1?)\\s+[a-zA-Z0-9\\-\\.]+", line)
}

/// Check if a line is a valid rule.
pub fn is_valid_rule(line: &str, format: FilterFormat) -> (r: bool)
    ensures
        r == valid_rule(line@, format),
{
    match format {
        FilterFormat::Adblock => is_valid_adblock_rule(line),
        FilterFormat::Hosts => is_valid_hosts_rule(line),
        FilterFormat::Unknown => is_valid_adblock_rule(line) || is_valid_hosts_rule(line),
    }
}

/// What a check of some lines has found: the valid rules, the invalid rules,
/// and a message for every invalid rule.
pub struct SyntaxReport {
    pub valid_rules: nat,
    pub invalid_rules: nat,
    pub messages: Seq<Seq<char>>,
}

/// The message for an invalid rule at line `number`, counted from one.
pub open spec fn invalid_line_message(number: nat, line: Seq<char>) -> Seq<char> {
    "Line "@ + decimal(number) + ": Invalid syntax: "@ + line
}

/// The check of some lines against a format. Comments and blank lines are
/// passed over; every other line is trimmed and counted as a valid or an
/// invalid rule.
pub open spec fn syntax_report(lines: Seq<Seq<char>>, format: FilterFormat) -> SyntaxReport
    decreases lines.len(),
{
    if lines.len() == 0 {
        SyntaxReport { valid_rules: 0, invalid_rules: 0, messages: Seq::empty() }
    } else {
        let before = syntax_report(lines.drop_last(), format);
        let line = trimmed(lines.last());
        if !is_rule_line(lines.last()) {
            before
        } else if valid_rule(line, format) {
            SyntaxReport { valid_rules: before.valid_rules + 1, ..before }
        } else {
            SyntaxReport {
                invalid_rules: before.invalid_rules + 1,
                messages: before.messages.push(invalid_line_message(lines.len(), line)),
                ..before
            }
        }
    }
}

/// The result `r` is the one of validating `content`: the format is the one
/// detected; the syntax is valid when there is a valid rule and no invalid
/// one; a list without a valid rule gets one more message, which says so.
pub open spec fn is_validation_of(r: SyntaxValidationResult, content: Seq<char>) -> bool {
    let report = syntax_report(lines_of(content), detected_format(content));
    &&& r.format == detected_format(content)
    &&& r.valid_rules == report.valid_rules
    &&& r.invalid_rules == report.invalid_rules
    &&& r.is_valid == (report.invalid_rules == 0 && report.valid_rules > 0)
    &&& texts(r.messages@) == if report.valid_rules == 0 {
        report.messages.push("No valid rules found"@)
    } else {
        report.messages
    }
}

/// Validate filter list syntax: `content` is what the list holds.
pub fn validate_syntax(content: &str) -> (r: SyntaxValidationResult)
    ensures
        is_validation_of(r, content@),
{
    let format = detect_format(content);
    let lines = split_lines(content);
    let mut valid_rules: usize = 0;
    let mut invalid_rules: usize = 0;
    let mut messages: Vec<String> = Vec::new();
    let ghost all = lines_of(content@);
    let mut i: usize = 0;
    while i < lines.len()
        invariant
            i <= lines.len(),
            all == texts(lines@),
            valid_rules + invalid_rules <= i,
            valid_rules == syntax_report(all.subrange(0, i as int), format).valid_rules,
            invalid_rules == syntax_report(all.subrange(0, i as int), format).invalid_rules,
            texts(messages@) == syntax_report(all.subrange(0, i as int), format).messages,
        decreases lines.len() - i,
    {
        assert(all.subrange(0, i + 1).drop_last() =~= all.subrange(0, i as int));
        assert(all.subrange(0, i + 1).last() == lines@[i as int]@);
        if line_is_rule(lines[i].as_str()) {
            let line = trim(lines[i].as_str());
            if is_valid_rule(line.as_str(), format) {
                valid_rules = valid_rules + 1;
            } else {
                invalid_rules = invalid_rules + 1;
                let mut message = concat("Line ", decimal_string(i as u128 + 1).as_str());
                message.append(": Invalid syntax: ");
                message.append(line.as_str());
                let ghost before = texts(messages@);
                messages.push(message);
                assert(texts(messages@) =~= before.push(
                    invalid_line_message((i + 1) as nat, line@),
                ));
            }
        }
        i = i + 1;
    }
    assert(all.subrange(0, i as int) =~= all);
    SyntaxValidationResult::of_counts(format, valid_rules, invalid_rules, messages)
}

impl SyntaxValidationResult {
    /// The result of a check that has counted `valid_rules` valid rules and
    /// `invalid_rules` invalid ones: the syntax is valid when there is a valid
    /// rule and no invalid one; a list without a valid rule gets one more
    /// message, which says so.
    pub fn of_counts(
        format: FilterFormat,
        valid_rules: usize,
        invalid_rules: usize,
        messages: Vec<String>,
    ) -> (r: Self)
        ensures
            r.format == format,
            r.valid_rules == valid_rules,
            r.invalid_rules == invalid_rules,
            r.is_valid == (invalid_rules == 0 && valid_rules > 0),
            texts(r.messages@) == if valid_rules == 0 {
                texts(messages@).push("No valid rules found"@)
            } else {
                texts(messages@)
            },
    {
        let mut messages = messages;
        let is_valid = invalid_rules == 0 && valid_rules > 0;
        if valid_rules == 0 {
            let ghost before = texts(messages@);
            messages.push("No valid rules found".to_owned());
            assert(texts(messages@) =~= before.push("No valid rules found"@));
        }
        SyntaxValidationResult { is_valid, format, valid_rules, invalid_rules, messages }
    }
}

} // verus!
