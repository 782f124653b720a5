//! URL security validation module.
//!
//! The download is for the caller. The module decides, before it, whether a
//! URL may be fetched at all; and after it, what to make of the response.

use crate::patterns::{is_match, matches_pattern};
use crate::text::{
    concat, contains, decimal, decimal_string, has_substring, lines_of, optional_text, owned,
    same_text, split_lines, texts, trim, trimmed,
};
use crate::validation::error::ValidationError;
use crate::validation::hash::{compute_hash, content_hash};
use vstd::prelude::*;
use vstd::slice::slice_subrange;

verus! {

/// What `url::Url::parse` makes of a text: the scheme and the host of the
/// URL, or the message of the error where the text is no URL.
pub uninterp spec fn url_parts(input: Seq<char>) -> Result<
    (Seq<char>, Option<Seq<char>>),
    Seq<char>,
>;

/// What `String::from_utf8_lossy` makes of bytes: the text that they encode
/// in UTF-8, with a replacement character for what encodes none.
pub uninterp spec fn lossy_text(bytes: Seq<u8>) -> Seq<char>;

/// The parts of a URL that the validation reads.
#[derive(Debug)]
pub struct ParsedUrl {
    /// The scheme, in lower case and without its colon.
    pub scheme: String,
    /// The host, where the URL has one.
    pub host: Option<String>,
}

/// The parts of a parsed URL, or the message of its error, as text.
pub open spec fn parsed_view(r: Result<ParsedUrl, String>) -> Result<
    (Seq<char>, Option<Seq<char>>),
    Seq<char>,
> {
    match r {
        Ok(u) => Ok((u.scheme@, optional_text(u.host))),
        Err(e) => Err(e@),
    }
}

/// Calls `url::Url::parse`, and `scheme` and `host_str` on the URL. The
/// contract only gives the result its name.
#[verifier::external_body]
pub(crate) fn parse_url(input: &str) -> (r: Result<ParsedUrl, String>)
    ensures
        parsed_view(r) == url_parts(input@),
{
    match url::Url::parse(input) {
        Ok(u) => Ok(
            ParsedUrl {
                scheme: u.scheme().to_string(),
                host: match u.host_str() {
                    Some(h) => Some(h.to_string()),
                    None => None,
                },
            },
        ),
        Err(e) => Err(e.to_string()),
    }
}

/// Calls `String::from_utf8_lossy`. The contract only gives the result its
/// name.
#[verifier::external_body]
pub(crate) fn text_from_utf8_lossy(bytes: &[u8]) -> (r: String)
    ensures
        r@ == lossy_text(bytes@),
{
    String::from_utf8_lossy(bytes).into_owned()
}

/// URL validation result.
#[derive(Debug, Clone)]
pub struct UrlValidationResult {
    /// Whether the URL passed validation.
    pub is_valid: bool,
    /// Validation errors/warnings.
    pub messages: Vec<String>,
    /// Content SHA-384 hash (if downloaded).
    pub content_hash: Option<String>,
    /// Content size in bytes.
    pub content_size: Option<u64>,
}

/// What a URL validation result holds, as plain values.
pub struct UrlValidationView {
    pub is_valid: bool,
    pub messages: Seq<Seq<char>>,
    pub content_hash: Option<Seq<char>>,
    pub content_size: Option<u64>,
}

impl View for UrlValidationResult {
    type V = UrlValidationView;

    open spec fn view(&self) -> UrlValidationView {
        UrlValidationView {
            is_valid: self.is_valid,
            messages: texts(self.messages@),
            content_hash: optional_text(self.content_hash),
            content_size: self.content_size,
        }
    }
}

impl UrlValidationView {
    /// The result of a validation that has found nothing.
    pub open spec fn passed() -> Self {
        UrlValidationView {
            is_valid: true,
            messages: Seq::empty(),
            content_hash: None,
            content_size: None,
        }
    }

    /// The same result, failed for the reason that `message` gives.
    pub open spec fn failed(self, message: Seq<char>) -> Self {
        UrlValidationView { is_valid: false, messages: self.messages.push(message), ..self }
    }

    /// The same result, with one more message.
    pub open spec fn noted(self, message: Seq<char>) -> Self {
        UrlValidationView { messages: self.messages.push(message), ..self }
    }
}

impl UrlValidationResult {
    /// Create a successful validation result.
    #[must_use]
    pub fn valid() -> (r: Self)
        ensures
            r@ == UrlValidationView::passed(),
    {
        let r = UrlValidationResult {
            is_valid: true,
            messages: Vec::new(),
            content_hash: None,
            content_size: None,
        };
        assert(texts(r.messages@) =~= Seq::empty());
        r
    }

    /// Create a failed validation result.
    #[must_use]
    pub fn invalid(message: &str) -> (r: Self)
        ensures
            r@ == UrlValidationView::passed().failed(message@),
    {
        let mut messages: Vec<String> = Vec::new();
        messages.push(owned(message));
        let r = UrlValidationResult {
            is_valid: false,
            messages,
            content_hash: None,
            content_size: None,
        };
        assert(texts(r.messages@) =~= Seq::<Seq<char>>::empty().push(message@));
        r
    }

    /// Add a message.
    pub fn add_message(&mut self, message: &str)
        ensures
            final(self)@ == old(self)@.noted(message@),
    {
        self.messages.push(owned(message));
        assert(texts(self.messages@) =~= texts(old(self).messages@).push(message@));
    }
}

/// The largest content that is accepted, in bytes: 50 MB.
pub const MAX_CONTENT_BYTES: usize = 52_428_800;

/// How many bytes of the content are read for a look at its syntax.
pub const PREVIEW_BYTES: usize = 1024;

/// How many lines of the preview are read.
pub const PREVIEW_LINES: usize = 20;

/// How many lines of the preview must look like filter rules.
pub const PREVIEW_HITS: usize = 3;

/// A line matches one of the patterns that are common in filter lists: a
/// comment, a domain rule, an exception, an address, a cosmetic rule, or
/// rule options.
pub open spec fn looks_like_filter_line(line: Seq<char>) -> bool {
    ||| matches_pattern("^!"@, line)
    ||| matches_pattern("^#"@, line)
    ||| matches_pattern("^\\|\\|"@, line)
    ||| matches_pattern("^@@"@, line)
    ||| matches_pattern("^[0-9]+\\.[0-9]+"@, line)
    ||| matches_pattern("##"@, line)
    ||| matches_pattern("\\$"@, line)
}

/// How many of the lines are not blank and look like filter lines.
pub open spec fn filter_line_hits(lines: Seq<Seq<char>>) -> nat
    decreases lines.len(),
{
    if lines.len() == 0 {
        0
    } else {
        let line = trimmed(lines.last());
        filter_line_hits(lines.drop_last()) + if line.len() > 0 && looks_like_filter_line(line) {
            1nat
        } else {
            0nat
        }
    }
}

/// The lines of the content that are read: its first twenty.
pub open spec fn preview_lines(lines: Seq<Seq<char>>) -> Seq<Seq<char>> {
    if lines.len() <= PREVIEW_LINES {
        lines
    } else {
        lines.subrange(0, PREVIEW_LINES as int)
    }
}

/// Content looks like a filter list when at least three of its first twenty
/// lines look like filter lines.
pub open spec fn valid_filter_content(content: Seq<char>) -> bool {
    filter_line_hits(preview_lines(lines_of(content))) >= PREVIEW_HITS
}

/// Tells whether a line matches one of the common patterns.
fn line_looks_like_filter(line: &str) -> (r: bool)
    ensures
        r == looks_like_filter_line(line@),
{
    is_match("^!", line) || is_match("^#", line) || is_match("^\\|\\|", line) || is_match(
        "^@@",
        line,
    ) || is_match("^[0-9]+\\.[0-9]+", line) || is_match("##", line) || is_match("\\$", line)
}

/// Check if content appears to be a valid filter list.
pub fn is_valid_filter_content(content: &str) -> (r: bool)
    ensures
        r == valid_filter_content(content@),
{
    let lines = split_lines(content);
    let sample: usize = if lines.len() <= PREVIEW_LINES {
        lines.len()
    } else {
        PREVIEW_LINES
    };
    let ghost all = preview_lines(lines_of(content@));
    assert(all =~= texts(lines@).subrange(0, sample as int));
    let mut found: usize = 0;
    let mut i: usize = 0;
    while i < sample
        invariant
            i <= sample <= lines.len(),
            all == texts(lines@).subrange(0, sample as int),
            found == filter_line_hits(all.subrange(0, i as int)),
            found <= i,
        decreases sample - i,
    {
        assert(all.subrange(0, i + 1).drop_last() =~= all.subrange(0, i as int));
        assert(all.subrange(0, i + 1).last() == lines@[i as int]@);
        let line = trim(lines[i].as_str());
        if !line.as_str().is_empty() && line_looks_like_filter(line.as_str()) {
            found = found + 1;
        }
        i = i + 1;
    }
    assert(all.subrange(0, sample as int) =~= all);
    found >= PREVIEW_HITS
}

/// What a look at a URL, before anything is fetched, comes to: an error
/// where the text is no URL; a failed result where the URL is not fetched
/// over HTTPS or names no host; a result that has passed otherwise.
pub open spec fn url_check(url: Seq<char>) -> Result<UrlValidationView, Seq<char>> {
    parts_check(url_parts(url))
}

/// What the parts of a URL, or the error of its parsing, come to.
pub open spec fn parts_check(parts: Result<(Seq<char>, Option<Seq<char>>), Seq<char>>) -> Result<
    UrlValidationView,
    Seq<char>,
> {
    match parts {
        Err(e) => Err("Invalid URL: "@ + e),
        Ok((scheme, host)) => if scheme != "https"@ {
            Ok(
                UrlValidationView::passed().failed(
                    "Insecure protocol '"@ + scheme + "' - only HTTPS is allowed"@,
                ),
            )
        } else if host is None {
            Ok(UrlValidationView::passed().failed("Missing or invalid host"@))
        } else {
            Ok(UrlValidationView::passed())
        },
    }
}

/// Looks at a URL before anything is fetched. The caller fetches the URL
/// only where the result is valid.
///
/// # Errors
///
/// Returns `UrlValidationFailed` where the text is no URL.
pub fn check_url(url_str: &str) -> (r: Result<UrlValidationResult, ValidationError>)
    ensures
        match url_check(url_str@) {
            Ok(view) => r matches Ok(result) && result@ == view,
            Err(reason) => r matches Err(ValidationError::UrlValidationFailed { url, reason: x })
                && url@ == url_str@ && x@ == reason,
        },
{
    check_parsed_url(url_str, parse_url(url_str))
}

/// Looks at what parsing has made of a URL: its parts, or the message of
/// the error.
///
/// # Errors
///
/// Returns `UrlValidationFailed`, for the URL `url_str`, where there was an
/// error.
pub fn check_parsed_url(url_str: &str, parsed: Result<ParsedUrl, String>) -> (r: Result<
    UrlValidationResult,
    ValidationError,
>)
    ensures
        match parts_check(parsed_view(parsed)) {
            Ok(view) => r matches Ok(result) && result@ == view,
            Err(reason) => r matches Err(ValidationError::UrlValidationFailed { url, reason: x })
                && url@ == url_str@ && x@ == reason,
        },
{
    let parsed = match parsed {
        Ok(u) => u,
        Err(e) => {
            let reason = concat("Invalid URL: ", e.as_str());
            return Err(ValidationError::url_validation(url_str, reason.as_str()));
        },
    };
    if !same_text(parsed.scheme.as_str(), "https") {
        let mut message = concat("Insecure protocol '", parsed.scheme.as_str());
        message.append("' - only HTTPS is allowed");
        return Ok(UrlValidationResult::invalid(message.as_str()));
    }
    if parsed.host.is_none() {
        return Ok(UrlValidationResult::invalid("Missing or invalid host"));
    }
    Ok(UrlValidationResult::valid())
}

/// What came back for a request.
#[derive(Debug)]
pub struct HttpResponse {
    /// The status code.
    pub status: u16,
    /// The reason phrase that goes with the status, where it has one.
    pub reason: Option<String>,
    /// The content type, where the response names one.
    pub content_type: Option<String>,
    /// The body.
    pub content: Vec<u8>,
}

impl HttpResponse {
    /// A status from 200 to 299 is a success.
    pub open spec fn is_success(&self) -> bool {
        200 <= self.status < 300
    }

    /// The message for a status that is no success.
    pub open spec fn status_message(&self) -> Seq<char> {
        "HTTP "@ + decimal(self.status as nat) + " "@ + match self.reason {
            Some(r) => r@,
            None => "Unknown"@,
        }
    }

    /// The content type is named and is no kind of text.
    pub open spec fn has_unexpected_type(&self) -> bool {
        self.content_type matches Some(t) && !has_substring(t@, "text/plain"@) && !has_substring(
            t@,
            "text/"@,
        )
    }

    /// The start of the content, read as text.
    pub open spec fn preview(&self) -> Seq<char> {
        lossy_text(
            self.content@.subrange(
                0,
                if self.content@.len() <= PREVIEW_BYTES {
                    self.content@.len() as int
                } else {
                    PREVIEW_BYTES as int
                },
            ),
        )
    }
}

/// What the response makes of a result that had passed so far.
///
/// A status that is no success fails the validation, and nothing else is
/// looked at. A content type that is no text is noted. The size of the
/// content is put down; content over 50 MB fails the validation, and nothing
/// else is looked at. Content that does not look like a filter list is
/// noted. The hash of the content is put down; where a hash was expected and
/// it is another, the validation fails.
pub open spec fn response_check(
    before: UrlValidationView,
    response: HttpResponse,
    expected_hash: Option<Seq<char>>,
) -> UrlValidationView {
    if !response.is_success() {
        before.failed(response.status_message())
    } else {
        let typed = if response.has_unexpected_type() {
            before.noted(
                "Unexpected Content-Type: "@ + response.content_type->0@
                    + " (expected text/plain)"@,
            )
        } else {
            before
        };
        let sized = UrlValidationView {
            content_size: Some(response.content@.len() as u64),
            ..typed
        };
        if response.content@.len() > MAX_CONTENT_BYTES {
            sized.failed(
                "File too large: "@ + decimal(response.content@.len()) + " bytes (max 50MB)"@,
            )
        } else {
            let looked = if !valid_filter_content(response.preview()) {
                sized.noted("Content does not appear to be a valid filter list"@)
            } else {
                sized
            };
            let hashed = UrlValidationView {
                content_hash: Some(content_hash(response.content@)),
                ..looked
            };
            match expected_hash {
                Some(expected) => if content_hash(response.content@) != expected {
                    hashed.failed(
                        "Hash mismatch: expected "@ + expected + ", got "@ + content_hash(
                            response.content@,
                        ),
                    )
                } else {
                    hashed
                },
                None => hashed,
            }
        }
    }
}

/// Looks at the response to the request for a URL, and carries on the
/// result of the look at the URL itself.
pub fn check_response(
    result: UrlValidationResult,
    response: &HttpResponse,
    expected_hash: Option<&str>,
) -> (r: UrlValidationResult)
    ensures
        r@ == response_check(
            result@,
            *response,
            match expected_hash {
                Some(h) => Some(h@),
                None => None,
            },
        ),
{
    let mut result = result;
    if !(200 <= response.status && response.status < 300) {
        let mut message = concat("HTTP ", decimal_string(response.status as u128).as_str());
        message.append(" ");
        match &response.reason {
            Some(r) => {
                message.append(r.as_str());
            },
            None => {
                message.append("Unknown");
            },
        }
        result.is_valid = false;
        result.add_message(message.as_str());
        return result;
    }
    match &response.content_type {
        Some(t) => {
            if !contains(t.as_str(), "text/plain") && !contains(t.as_str(), "text/") {
                let mut message = concat("Unexpected Content-Type: ", t.as_str());
                message.append(" (expected text/plain)");
                result.add_message(message.as_str());
            }
        },
        None => {},
    }
    let size = response.content.len();
    result.content_size = Some(size as u64);
    if size > MAX_CONTENT_BYTES {
        let mut message = concat("File too large: ", decimal_string(size as u128).as_str());
        message.append(" bytes (max 50MB)");
        result.is_valid = false;
        result.add_message(message.as_str());
        return result;
    }
    let preview_end: usize = if size <= PREVIEW_BYTES {
        size
    } else {
        PREVIEW_BYTES
    };
    let preview = text_from_utf8_lossy(slice_subrange(response.content.as_slice(), 0, preview_end));
    if !is_valid_filter_content(preview.as_str()) {
        result.add_message("Content does not appear to be a valid filter list");
    }
    let actual_hash = compute_hash(response.content.as_slice());
    match expected_hash {
        Some(expected) => {
            if !same_text(actual_hash.as_str(), expected) {
                let mut message = concat("Hash mismatch: expected ", expected);
                message.append(", got ");
                message.append(actual_hash.as_str());
                result.content_hash = Some(actual_hash);
                result.is_valid = false;
                result.add_message(message.as_str());
                return result;
            }
        },
        None => {},
    }
    result.content_hash = Some(actual_hash);
    result
}

/// Validate a URL for security and proper filter list format, given the
/// response to the request for it: the look at the URL, and where that has
/// passed, the look at the response.
///
/// # Errors
///
/// Returns `UrlValidationFailed` where the text is no URL.
pub fn validate_url(url_str: &str, expected_hash: Option<&str>, response: &HttpResponse) -> (r:
    Result<UrlValidationResult, ValidationError>)
    ensures
        match url_check(url_str@) {
            Ok(view) => r matches Ok(result) && result@ == if view.is_valid {
                response_check(
                    view,
                    *response,
                    match expected_hash {
                        Some(h) => Some(h@),
                        None => None,
                    },
                )
            } else {
                view
            },
            Err(reason) => r matches Err(ValidationError::UrlValidationFailed { url, reason: x })
                && url@ == url_str@ && x@ == reason,
        },
{
    match check_url(url_str) {
        Ok(result) => {
            if result.is_valid {
                Ok(check_response(result, response, expected_hash))
            } else {
                Ok(result)
            }
        },
        Err(e) => Err(e),
    }
}

} // verus!
