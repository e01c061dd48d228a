//! The compiled pattern that entries are held against.
//!
//! Patterns are regular expressions of the `regex` crate. What that crate
//! accepts and what it finds is not restated: both are named here, and the
//! contracts of this crate speak of them through [`compiles`] and [`finds`].

use regex::Regex;
use regex::RegexBuilder;
use vstd::prelude::*;

verus! {

#[verifier::external_type_specification]
#[verifier::external_body]
pub struct ExRegex(regex::Regex);

#[verifier::external_type_specification]
#[verifier::external_body]
pub struct ExRegexError(regex::Error);

/// Whether `regex::RegexBuilder` builds a regular expression from `source`,
/// with case-insensitive matching switched as `case_insensitive` says and
/// every other setting left at its default.
pub uninterp spec fn regex_compiles(source: Seq<char>, case_insensitive: bool) -> bool;

/// Whether the regular expression built so from `source` has a match
/// anywhere in `haystack`.
pub uninterp spec fn regex_finds(
    source: Seq<char>,
    case_insensitive: bool,
    haystack: Seq<char>,
) -> bool;

/// That `regex` is what `regex::RegexBuilder` built from `source` with
/// case-insensitive matching switched as `case_insensitive` says.
pub uninterp spec fn compiled_from(regex: Regex, source: Seq<char>, case_insensitive: bool) -> bool;

/// That `error` is the one with which `regex::RegexBuilder` rejected
/// `source`, with case-insensitive matching switched as `case_insensitive`
/// says.
pub uninterp spec fn rejected_from(
    error: regex::Error,
    source: Seq<char>,
    case_insensitive: bool,
) -> bool;

/// What the regular expression compiler says of `source` when it rejects it:
/// the description of the error that building it gives.
pub uninterp spec fn regex_error_text(source: Seq<char>, case_insensitive: bool) -> Seq<char>;

/// Whether `source` is accepted as a pattern. The empty pattern always is.
pub open spec fn compiles(source: Seq<char>, case_insensitive: bool) -> bool {
    source.len() == 0 || regex_compiles(source, case_insensitive)
}

/// Whether the pattern `source` occurs somewhere in `haystack`. The empty
/// pattern occurs in every text, at its start.
pub open spec fn finds(source: Seq<char>, case_insensitive: bool, haystack: Seq<char>) -> bool {
    source.len() == 0 || regex_finds(source, case_insensitive, haystack)
}

/// Calls `RegexBuilder::new(source).case_insensitive(..).build()`.
///
/// Trusted: the call succeeds exactly on the sources that [`regex_compiles`]
/// names, among them the empty one, which the crate documents as valid, and
/// what it returns, the regular expression or the error, is the one that
/// building from these arguments gives.
#[verifier::external_body]
fn build_regex(source: &str, case_insensitive: bool) -> (built: Result<Regex, regex::Error>)
    ensures
        built is Ok == regex_compiles(source@, case_insensitive),
        source@.len() == 0 ==> built is Ok,
        built matches Ok(regex) ==> compiled_from(regex, source@, case_insensitive),
        built matches Err(error) ==> rejected_from(error, source@, case_insensitive),
{
    RegexBuilder::new(source).case_insensitive(case_insensitive).build()
}

/// Calls `Regex::find` and tells whether it found a match.
///
/// Trusted: for the source and the switch that `regex` was built from, the
/// answer is the one that [`regex_finds`] names; the crate documents that the
/// empty regular expression matches in every haystack.
#[verifier::external_body]
fn regex_find(regex: &Regex, haystack: &str) -> (found: bool)
    ensures
        forall|source: Seq<char>, case_insensitive: bool| #[trigger]
            compiled_from(*regex, source, case_insensitive) ==> found == regex_finds(
                source,
                case_insensitive,
                haystack@,
            ),
        forall|source: Seq<char>, case_insensitive: bool| #[trigger]
            compiled_from(*regex, source, case_insensitive) && source.len() == 0 ==> found,
{
    regex.find(haystack).is_some()
}

/// Calls `description` on an error of `RegexBuilder::build`.
///
/// Trusted: the text follows from the error alone, so for the source and the
/// switch that were rejected with `error` it is the one that
/// [`regex_error_text`] names. What the text says is not claimed.
#[verifier::external_body]
#[allow(deprecated)]
fn error_description(error: &regex::Error) -> (text: String)
    ensures
        forall|source: Seq<char>, case_insensitive: bool| #[trigger]
            rejected_from(*error, source, case_insensitive) ==> text@ == regex_error_text(
                source,
                case_insensitive,
            ),
{
    std::error::Error::description(error).to_string()
}

/// Why a pattern was not accepted.
#[derive(Clone, Debug, PartialEq, Eq)]
pub struct PatternError {
    /// What the regular expression compiler said of the pattern.
    pub message: String,
}

/// What a [`Pattern`] stands for: its source text and how it treats case.
pub struct PatternView {
    pub source: Seq<char>,
    pub case_insensitive: bool,
}

/// A compiled pattern. It is built once and only read afterwards.
#[derive(Debug)]
pub struct Pattern {
    source: String,
    case_insensitive: bool,
    regex: Regex,
}

impl View for Pattern {
    type V = PatternView;

    closed spec fn view(&self) -> PatternView {
        PatternView { source: self.source@, case_insensitive: self.case_insensitive }
    }
}

impl Pattern {
    #[verifier::type_invariant]
    spec fn compiled(self) -> bool {
        compiled_from(self.regex, self.source@, self.case_insensitive)
    }

    /// Compiles `source`. The result is a pattern exactly if the source is an
    /// acceptable one, and otherwise an error with what the compiler says of
    /// the source.
    pub fn compile(source: &str, case_insensitive: bool) -> (result: Result<Pattern, PatternError>)
        ensures
            result is Ok == compiles(source@, case_insensitive),
            result matches Ok(pattern) ==> pattern@ == (PatternView {
                source: source@,
                case_insensitive,
            }),
            result matches Err(error) ==> error.message@ == regex_error_text(
                source@,
                case_insensitive,
            ),
    {
        match build_regex(source, case_insensitive) {
            Ok(regex) => Ok(Pattern { source: source.to_owned(), case_insensitive, regex }),
            Err(error) => Err(PatternError { message: error_description(&error) }),
        }
    }

    /// The text that the pattern was compiled from.
    pub fn source(&self) -> (source: &str)
        ensures
            source@ == self@.source,
    {
        self.source.as_str()
    }

    /// Whether letters of the pattern match either case.
    pub fn case_insensitive(&self) -> (flag: bool)
        ensures
            flag == self@.case_insensitive,
    {
        self.case_insensitive
    }

    /// Tells whether the pattern occurs somewhere in `text`. The match need
    /// not cover the whole text.
    pub fn is_match(&self, text: &str) -> (found: bool)
        ensures
            found == finds(self@.source, self@.case_insensitive, text@),
    {
        proof {
            use_type_invariant(self);
        }
        regex_find(&self.regex, text)
    }
}

} // verus!
