//! The check that the book forms apply to an ISBN, made with the `regex` crate.
use vstd::prelude::*;

verus! {

#[verifier::external_type_specification]
#[verifier::external_body]
pub struct ExRegex(regex::Regex);

#[verifier::external_type_specification]
#[verifier::external_body]
pub struct ExRegexError(regex::Error);

/// Whether the regex that `regex::Regex::new` compiles from `pattern` finds a
/// match anywhere in `haystack` (the result of `regex::Regex::is_match`).
pub uninterp spec fn regex_finds(pattern: Seq<char>, haystack: Seq<char>) -> bool;

/// Whether `regex::Regex::new` compiles `pattern` (it refuses a pattern of
/// bad syntax, or one whose compiled form exceeds the crate's default size
/// limit).
pub uninterp spec fn regex_compiles(pattern: Seq<char>) -> bool;

/// Calls `regex::Regex::new`, which compiles `pattern` or reports why it
/// cannot: it succeeds exactly when the named outcome for `pattern` says so.
/// Nothing is claimed of the compiled regex itself here; what it matches is
/// stated by `regex_is_match`.
#[verifier::external_body]
fn regex_new(pattern: &str) -> (compiled: Result<regex::Regex, regex::Error>)
    ensures
        compiled is Ok <==> regex_compiles(pattern@),
{
    regex::Regex::new(pattern)
}

/// A regular expression together with the text it was compiled from.
/// Only [`Pattern::compile`] makes one, so `compiled` always comes from
/// `source`.
pub struct Pattern {
    source: String,
    compiled: regex::Regex,
}

impl View for Pattern {
    type V = Seq<char>;

    closed spec fn view(&self) -> Seq<char> {
        self.source@
    }
}

/// Calls `regex::Regex::is_match` on the compiled form of `pattern`: the
/// result is the named outcome for the pattern's text and `haystack`.
#[verifier::external_body]
fn regex_is_match(pattern: &Pattern, haystack: &str) -> (found: bool)
    ensures
        found == regex_finds(pattern@, haystack@),
{
    pattern.compiled.is_match(haystack)
}

/// Why a pattern could not be used.
#[derive(Clone, Copy, Debug, PartialEq, Eq, Structural)]
pub enum PatternError {
    /// The regex crate refused to compile the pattern.
    Invalid,
}

impl Pattern {
    /// Compiles `source`.
    pub fn compile(source: &str) -> (result: Result<Pattern, PatternError>)
        ensures
            result is Ok <==> regex_compiles(source@),
            result matches Ok(p) ==> p@ == source@,
    {
        match regex_new(source) {
            Ok(compiled) => Ok(Pattern { source: source.to_owned(), compiled }),
            Err(_) => Err(PatternError::Invalid),
        }
    }

    /// Whether the pattern matches somewhere in `haystack`.
    pub fn is_match(&self, haystack: &str) -> (found: bool)
        ensures
            found == regex_finds(self@, haystack@),
    {
        regex_is_match(self, haystack)
    }
}

/// The pattern that an ISBN typed into a book form must match somewhere:
/// ten to thirteen digits in a row.
pub open spec fn isbn_pattern() -> Seq<char> {
    "\\d{10,13}"@
}

/// The ISBN check uses exactly the pattern `\d{10,13}`: a decimal digit
/// (`\d`) repeated ten to thirteen times, searched for anywhere in the text.
pub proof fn law_isbn_pattern()
    ensures
        isbn_pattern() == seq!['\\', 'd', '{', '1', '0', ',', '1', '3', '}'],
{
    reveal_strlit("\\d{10,13}");
    assert(isbn_pattern() =~= seq!['\\', 'd', '{', '1', '0', ',', '1', '3', '}']);
}

/// Whether `candidate` passes the ISBN check of the book forms.
pub fn is_valid_isbn(candidate: &str) -> (result: Result<bool, PatternError>)
    ensures
        result is Ok <==> regex_compiles(isbn_pattern()),
        result matches Ok(valid) ==> valid == regex_finds(isbn_pattern(), candidate@),
{
    let pattern = Pattern::compile("\\d{10,13}")?;
    Ok(pattern.is_match(candidate))
}

} // verus!
