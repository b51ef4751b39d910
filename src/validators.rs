//! Syntactic checks on submitted email addresses and free-text fields.
use vstd::prelude::*;
use vstd::string::StrSliceExecFns;

verus! {

/// Longest email address accepted, in characters.
pub const MAX_EMAIL_LENGTH_CHARS: usize = 1024;

/// Text fields must be strictly shorter than this many characters.
pub const MAX_TEXT_FIELD_CHARS: usize = 50000;

/// The email grammar: a dot-atom or quoted local part, `@`, then a dotted
/// domain name or a bracketed IPv4 or general address literal. Letters match
/// in either case.
pub const EMAIL_PATTERN: &'static str = r#"(?i)(?:[a-z0-9!#$%&'*+/=?^_`{|}~-]+(?:\.[a-z0-9!#$%&'*+/=?^_`{|}~-]+)*|"(?:[\x01-\x08\x0b\x0c\x0e-\x1f\x21\x23-\x5b\x5d-\x7f]|\\[\x01-\x09\x0b\x0c\x0e-\x7f])*")@(?:(?:[a-z0-9](?:[a-z0-9-]*[a-z0-9])?\.)+[a-z0-9](?:[a-z0-9-]*[a-z0-9])?|\[(?:(?:25[0-5]|2[0-4][0-9]|[01]?[0-9][0-9]?)\.){3}(?:25[0-5]|2[0-4][0-9]|[01]?[0-9][0-9]?|[a-z0-9-]*[a-z0-9]:(?:[\x01-\x08\x0b\x0c\x0e-\x1f\x21-\x5a\x53-\x7f]|\\[\x01-\x09\x0b\x0c\x0e-\x7f])+)\])"#;

/// Why a submitted value was refused.
#[derive(Clone, Copy, Debug, PartialEq, Eq, Structural)]
pub enum ValidationError {
    TooLong,
    InvalidFormat,
    Empty,
}

/// Whether the regular-expression engine accepts `pattern` as a pattern.
pub uninterp spec fn pattern_compiles(pattern: Seq<char>) -> bool;

/// Whether the compiled `pattern` matches somewhere in `text`.
pub uninterp spec fn pattern_finds(pattern: Seq<char>, text: Seq<char>) -> bool;

/// Relies on `regex::Regex::new` (compiles `pattern`, or reports why it
/// cannot) and `regex::Regex::is_match` (true if and only if the pattern
/// matches anywhere in the haystack). Both depend on their arguments alone.
#[verifier::external_body]
fn regex_search(pattern: &str, text: &str) -> (r: Option<bool>)
    ensures
        r is Some <==> pattern_compiles(pattern@),
        r matches Some(found) ==> found == pattern_finds(pattern@, text@),
{
    match regex::Regex::new(pattern) {
        Ok(re) => Some(re.is_match(text)),
        Err(_) => None,
    }
}

/// Whether `s` is an email address under the grammar of `EMAIL_PATTERN`.
pub open spec fn matches_email_grammar(s: Seq<char>) -> bool {
    pattern_compiles(EMAIL_PATTERN@) && pattern_finds(EMAIL_PATTERN@, s)
}

/// The outcome of checking an email address of characters `s`.
pub open spec fn email_check(s: Seq<char>) -> Result<(), ValidationError> {
    if s.len() > MAX_EMAIL_LENGTH_CHARS {
        Err(ValidationError::TooLong)
    } else if !matches_email_grammar(s) {
        Err(ValidationError::InvalidFormat)
    } else {
        Ok(())
    }
}

/// The outcome of checking a free-text field of characters `s`.
pub open spec fn text_field_check(s: Seq<char>) -> Result<(), ValidationError> {
    if s.len() == 0 {
        Err(ValidationError::Empty)
    } else if s.len() >= MAX_TEXT_FIELD_CHARS {
        Err(ValidationError::TooLong)
    } else {
        Ok(())
    }
}

/// Checks an email address: at most 1024 characters, and of the email grammar.
pub fn email_validator(email: String) -> (r: Result<(), ValidationError>)
    ensures
        r == email_check(email@),
{
    if email.as_str().unicode_len() > MAX_EMAIL_LENGTH_CHARS {
        return Err(ValidationError::TooLong);
    }
    let found = match regex_search(EMAIL_PATTERN, email.as_str()) {
        Some(found) => found,
        None => false,
    };
    if !found {
        return Err(ValidationError::InvalidFormat);
    }
    Ok(())
}

/// Checks a free-text field: non-empty and under 50,000 characters.
pub fn validate_text_field(s: &str) -> (r: Result<(), ValidationError>)
    ensures
        r == text_field_check(s@),
{
    let length = s.unicode_len();
    if length == 0 {
        Err(ValidationError::Empty)
    } else if length >= MAX_TEXT_FIELD_CHARS {
        Err(ValidationError::TooLong)
    } else {
        Ok(())
    }
}

/// Whether a free-text field has between 1 and 49,999 characters.
pub fn string_appropriate_size(s: String) -> (r: bool)
    ensures
        r == (0 < s@.len() < MAX_TEXT_FIELD_CHARS),
{
    validate_text_field(s.as_str()).is_ok()
}

} // verus!
