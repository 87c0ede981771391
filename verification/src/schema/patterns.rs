use vstd::prelude::*;
use crate::text::str_eq;

verus! {

/// Whether `regex::Regex::new` accepts the pattern text; compilation with
/// the default configuration is a function of the text alone.
pub uninterp spec fn regex_valid(pattern: Seq<char>) -> bool;

/// Whether the compiled pattern matches somewhere in the text; a function
/// of pattern and text alone.
pub uninterp spec fn regex_match(pattern: Seq<char>, text: Seq<char>) -> bool;

/// What a pattern constraint demands of a string: the pattern compiles and
/// matches the string. A pattern text outside the regular-expression
/// grammar never matches anything.
pub open spec fn pattern_ok(pattern: Seq<char>, text: Seq<char>) -> bool {
    regex_valid(pattern) && regex_match(pattern, text)
}

/// Relies on regex::Regex::new and regex::Regex::is_match: `new` accepts or
/// rejects a pattern deterministically (returning a result, never
/// panicking), and `is_match` reports whether the haystack contains a match,
/// a function of pattern and haystack alone.
#[verifier::external_body]
pub(crate) fn regex_find(pattern: &str, text: &str) -> (r: Option<bool>)
    ensures
        r == if regex_valid(pattern@) {
            Some(regex_match(pattern@, text@))
        } else {
            None::<bool>
        },
{
    match regex::Regex::new(pattern) {
        Ok(re) => Some(re.is_match(text)),
        Err(_) => None,
    }
}

/// Common pattern types for string validation: the built-in named patterns
/// and a custom regular expression.
#[derive(Debug, Clone, PartialEq, Eq)]
pub enum Pattern {
    /// Email address pattern
    Email,
    /// URL pattern
    Url,
    /// Date pattern (YYYY-MM-DD)
    Date,
    /// Time pattern (HH:MM:SS)
    Time,
    /// UUID pattern (version 4)
    Uuid,
    /// IPv4 address pattern
    Ipv4,
    /// Phone number pattern
    Phone,
    /// Username pattern
    Username,
    /// Strong password pattern
    StrongPassword,
    /// A custom regular expression
    Custom(String),
}

impl Pattern {
    /// The regular expression text of this pattern.
    pub open spec fn spec_source(&self) -> Seq<char> {
        match self {
            Pattern::Email => r"^[a-zA-Z0-9._%+-]+@[a-zA-Z0-9.-]+\.[a-zA-Z]{2,}$"@,
            Pattern::Url => r"^https?://[a-zA-Z0-9.-]+\.[a-zA-Z]{2,}[a-zA-Z0-9./_?=&-]*$"@,
            Pattern::Date => r"^\d{4}-(?:0[1-9]|1[0-2])-(?:0[1-9]|[12]\d|3[01])$"@,
            Pattern::Time => r"^(?:[01]\d|2[0-3]):[0-5]\d:[0-5]\d$"@,
            Pattern::Uuid => r"^[0-9a-f]{8}-[0-9a-f]{4}-4[0-9a-f]{3}-[89ab][0-9a-f]{3}-[0-9a-f]{12}$"@,
            Pattern::Ipv4 => r"^(?:(?:25[0-5]|2[0-4][0-9]|[01]?[0-9][0-9]?)\.){3}(?:25[0-5]|2[0-4][0-9]|[01]?[0-9][0-9]?)$"@,
            Pattern::Phone => r"^\+?[1-9]\d{1,14}$"@,
            Pattern::Username => r"^[a-zA-Z0-9_-]{3,16}$"@,
            Pattern::StrongPassword => r"^[A-Z][a-zA-Z0-9\W_]{7,}$"@,
            Pattern::Custom(s) => s@,
        }
    }

    /// The regular expression text of this pattern.
    pub fn regex<'a>(&'a self) -> (r: &'a str)
        ensures
            r@ == self.spec_source(),
    {
        match self {
            Pattern::Email => r"^[a-zA-Z0-9._%+-]+@[a-zA-Z0-9.-]+\.[a-zA-Z]{2,}$",
            Pattern::Url => r"^https?://[a-zA-Z0-9.-]+\.[a-zA-Z]{2,}[a-zA-Z0-9./_?=&-]*$",
            Pattern::Date => r"^\d{4}-(?:0[1-9]|1[0-2])-(?:0[1-9]|[12]\d|3[01])$",
            Pattern::Time => r"^(?:[01]\d|2[0-3]):[0-5]\d:[0-5]\d$",
            Pattern::Uuid => r"^[0-9a-f]{8}-[0-9a-f]{4}-4[0-9a-f]{3}-[89ab][0-9a-f]{3}-[0-9a-f]{12}$",
            Pattern::Ipv4 => r"^(?:(?:25[0-5]|2[0-4][0-9]|[01]?[0-9][0-9]?)\.){3}(?:25[0-5]|2[0-4][0-9]|[01]?[0-9][0-9]?)$",
            Pattern::Phone => r"^\+?[1-9]\d{1,14}$",
            Pattern::Username => r"^[a-zA-Z0-9_-]{3,16}$",
            Pattern::StrongPassword => r"^[A-Z][a-zA-Z0-9\W_]{7,}$",
            Pattern::Custom(s) => s.as_str(),
        }
    }

    /// The human-readable description of this pattern.
    pub open spec fn spec_description(&self) -> Seq<char> {
        match self {
            Pattern::Email => "valid email address"@,
            Pattern::Url => "valid URL starting with http:// or https://"@,
            Pattern::Date => "date in YYYY-MM-DD format"@,
            Pattern::Time => "time in HH:MM:SS format"@,
            Pattern::Uuid => "UUID version 4"@,
            Pattern::Ipv4 => "IPv4 address"@,
            Pattern::Phone => "phone number in international format"@,
            Pattern::Username => "username (3-16 characters, alphanumeric with underscore and dash)"@,
            Pattern::StrongPassword => "strong password (min 8 chars, at least one uppercase, one lowercase, one number)"@,
            Pattern::Custom(_) => "custom pattern"@,
        }
    }

    /// Get a human-readable description of the pattern.
    pub fn description(&self) -> (r: &'static str)
        ensures
            r@ == self.spec_description(),
    {
        match self {
            Pattern::Email => "valid email address",
            Pattern::Url => "valid URL starting with http:// or https://",
            Pattern::Date => "date in YYYY-MM-DD format",
            Pattern::Time => "time in HH:MM:SS format",
            Pattern::Uuid => "UUID version 4",
            Pattern::Ipv4 => "IPv4 address",
            Pattern::Phone => "phone number in international format",
            Pattern::Username => "username (3-16 characters, alphanumeric with underscore and dash)",
            Pattern::StrongPassword => "strong password (min 8 chars, at least one uppercase, one lowercase, one number)",
            Pattern::Custom(_) => "custom pattern",
        }
    }

    /// The built-in pattern whose regular expression equals the given text,
    /// if any.
    pub open spec fn spec_from_regex(pattern: Seq<char>) -> Option<Pattern> {
        if pattern == Pattern::Email.spec_source() {
            Some(Pattern::Email)
        } else if pattern == Pattern::Url.spec_source() {
            Some(Pattern::Url)
        } else if pattern == Pattern::Date.spec_source() {
            Some(Pattern::Date)
        } else if pattern == Pattern::Time.spec_source() {
            Some(Pattern::Time)
        } else if pattern == Pattern::Uuid.spec_source() {
            Some(Pattern::Uuid)
        } else if pattern == Pattern::Ipv4.spec_source() {
            Some(Pattern::Ipv4)
        } else if pattern == Pattern::Phone.spec_source() {
            Some(Pattern::Phone)
        } else if pattern == Pattern::Username.spec_source() {
            Some(Pattern::Username)
        } else if pattern == Pattern::StrongPassword.spec_source() {
            Some(Pattern::StrongPassword)
        } else {
            None
        }
    }

    /// Try to find a predefined pattern that matches the given regex string.
    pub fn from_regex(pattern: &str) -> (r: Option<Pattern>)
        ensures
            r == Self::spec_from_regex(pattern@),
    {
        if str_eq(pattern, Pattern::Email.regex()) {
            Some(Pattern::Email)
        } else if str_eq(pattern, Pattern::Url.regex()) {
            Some(Pattern::Url)
        } else if str_eq(pattern, Pattern::Date.regex()) {
            Some(Pattern::Date)
        } else if str_eq(pattern, Pattern::Time.regex()) {
            Some(Pattern::Time)
        } else if str_eq(pattern, Pattern::Uuid.regex()) {
            Some(Pattern::Uuid)
        } else if str_eq(pattern, Pattern::Ipv4.regex()) {
            Some(Pattern::Ipv4)
        } else if str_eq(pattern, Pattern::Phone.regex()) {
            Some(Pattern::Phone)
        } else if str_eq(pattern, Pattern::Username.regex()) {
            Some(Pattern::Username)
        } else if str_eq(pattern, Pattern::StrongPassword.regex()) {
            Some(Pattern::StrongPassword)
        } else {
            None
        }
    }

    /// Whether the string satisfies this pattern (see [`pattern_ok`]).
    pub fn matches(&self, text: &str) -> (r: bool)
        ensures
            r == pattern_ok(self.spec_source(), text@),
    {
        match regex_find(self.regex(), text) {
            Some(b) => b,
            None => false,
        }
    }
}

} // verus!
