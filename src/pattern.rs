//! Username validity patterns, evaluated by the `fancy_regex` engine.
use vstd::prelude::*;
use fancy_regex::Regex;
use crate::query::QueryError;

verus! {

#[verifier::external_type_specification]
#[verifier::external_body]
pub struct ExRegex(fancy_regex::Regex);

#[verifier::external_type_specification]
#[verifier::external_body]
pub struct ExRegexError(fancy_regex::Error);

/// Whether `fancy_regex` accepts a pattern.
pub uninterp spec fn regex_compiles(pattern: Seq<char>) -> bool;

/// What `fancy_regex`'s `is_match` gives for a compiled pattern and a text:
/// whether the pattern matches somewhere in it, or `None` where evaluation
/// fails (a backtracking limit).
pub uninterp spec fn regex_search(pattern: Seq<char>, text: Seq<char>) -> Option<bool>;

/// Relies on `fancy_regex::Regex::new`: whether it succeeds depends on the
/// pattern alone.
#[verifier::external_body]
fn compile_regex(pattern: &str) -> (r: Result<Regex, fancy_regex::Error>)
    ensures
        r is Ok <==> regex_compiles(pattern@),
{
    Regex::new(pattern)
}

/// Relies on the `Display` impl of `fancy_regex::Error` for its message.
#[verifier::external_body]
fn regex_error_text(e: &fancy_regex::Error) -> String {
    e.to_string()
}

/// A compiled pattern together with the text it was compiled from.
pub struct UsernamePattern {
    source: String,
    regex: Regex,
}

impl UsernamePattern {
    /// The text the pattern was compiled from.
    pub closed spec fn source(&self) -> Seq<char> {
        self.source@
    }

    pub fn compile(pattern: &str) -> (r: Result<UsernamePattern, fancy_regex::Error>)
        ensures
            r is Ok <==> regex_compiles(pattern@),
            r matches Ok(p) ==> p.source() == pattern@,
    {
        match compile_regex(pattern) {
            Ok(regex) => Ok(UsernamePattern { source: pattern.to_owned(), regex }),
            Err(e) => Err(e),
        }
    }

    /// Relies on `fancy_regex::Regex::is_match` of the regex compiled from
    /// `source` (the only way a `UsernamePattern` is made).
    #[verifier::external_body]
    fn is_match(&self, text: &str) -> (r: Result<bool, fancy_regex::Error>)
        ensures
            match r {
                Ok(b) => regex_search(self.source(), text@) == Some(b),
                Err(_) => regex_search(self.source(), text@) is None,
            },
    {
        self.regex.is_match(text)
    }
}

/// The result of checking a username against a site's optional pattern.
pub enum PatternCheck {
    /// No pattern, or the username matches it.
    Admitted,
    /// The username does not match.
    Rejected,
    /// The pattern does not compile, or its evaluation fails.
    Broken,
}

pub open spec fn pattern_check(regex_check: Option<String>, username: Seq<char>) -> PatternCheck {
    match regex_check {
        None => PatternCheck::Admitted,
        Some(p) => if !regex_compiles(p@) {
            PatternCheck::Broken
        } else {
            match regex_search(p@, username) {
                Some(true) => PatternCheck::Admitted,
                Some(false) => PatternCheck::Rejected,
                None => PatternCheck::Broken,
            }
        },
    }
}

/// Checks a username against a site's validity pattern. A rejected username
/// gives `InvalidUsernameError`; a pattern that does not compile or cannot
/// be evaluated gives `RegexError` with the engine's message.
pub fn check_pattern(regex_check: &Option<String>, username: &str) -> (r: Result<(), QueryError>)
    ensures
        match pattern_check(*regex_check, username@) {
            PatternCheck::Admitted => r is Ok,
            PatternCheck::Rejected => r == Err::<(), QueryError>(QueryError::InvalidUsernameError),
            PatternCheck::Broken => r matches Err(QueryError::RegexError(_)),
        },
{
    match regex_check {
        None => Ok(()),
        Some(p) => match UsernamePattern::compile(p.as_str()) {
            Err(e) => Err(QueryError::RegexError(regex_error_text(&e))),
            Ok(re) => match re.is_match(username) {
                Ok(true) => Ok(()),
                Ok(false) => Err(QueryError::InvalidUsernameError),
                Err(e) => Err(QueryError::RegexError(regex_error_text(&e))),
            },
        },
    }
}

} // verus!
