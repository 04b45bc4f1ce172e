//! Regular expressions, compiled once and then tested against many lines.

use vstd::prelude::*;

use crate::SearchError;

verus! {

#[verifier::external_type_specification]
#[verifier::external_body]
pub struct ExRegex(regex::Regex);

#[verifier::external_type_specification]
#[verifier::external_body]
pub struct ExRegexError(regex::Error);

/// Whether `regex::Regex::new` accepts the pattern `p`.
pub uninterp spec fn regex_compiles(p: Seq<char>) -> bool;

/// Whether the regular expression `p` matches somewhere in `hay`, as
/// `regex::Regex::is_match` decides it.
pub uninterp spec fn regex_finds(p: Seq<char>, hay: Seq<char>) -> bool;

/// Relies on `regex::Regex::new`: it returns `Ok` exactly when the pattern
/// parses and compiles, which depends on the pattern's text alone.
#[verifier::external_body]
fn compile_regex(p: &str) -> (r: Result<regex::Regex, regex::Error>)
    ensures
        r is Ok <==> regex_compiles(p@),
{
    regex::Regex::new(p)
}

/// Relies on the `Display` impl of `regex::Error` for a readable message.
#[verifier::external_body]
fn regex_error_text(e: &regex::Error) -> String {
    e.to_string()
}

/// The characters that `regex::escape` puts a backslash before.
pub open spec fn is_meta(c: char) -> bool {
    c == '\\' || c == '.' || c == '+' || c == '*' || c == '?' || c == '(' || c == ')'
        || c == '|' || c == '[' || c == ']' || c == '{' || c == '}' || c == '^' || c == '$'
        || c == '#' || c == '&' || c == '-' || c == '~'
}

/// `s` with a backslash before each meta character, so that a regular
/// expression made of it matches `s` literally.
pub open spec fn escaped(s: Seq<char>) -> Seq<char>
    decreases s.len(),
{
    if s.len() == 0 {
        s
    } else if is_meta(s.last()) {
        escaped(s.drop_last()) + seq!['\\', s.last()]
    } else {
        escaped(s.drop_last()).push(s.last())
    }
}

/// Relies on `regex::escape`: each meta character is preceded by a
/// backslash, every other character is kept as it is.
#[verifier::external_body]
pub(crate) fn escape(s: &str) -> (r: String)
    ensures
        r@ == escaped(s@),
{
    regex::escape(s)
}

/// A regular expression together with the text it was compiled from.
pub struct CompiledPattern {
    source: Ghost<Seq<char>>,
    re: regex::Regex,
}

impl CompiledPattern {
    /// The text the expression was compiled from.
    pub closed spec fn source(&self) -> Seq<char> {
        self.source@
    }

    /// Compiles `p`; fails with [`SearchError::InvalidPattern`] exactly when
    /// `p` is not an expression that `regex` accepts.
    pub fn compile(p: &str) -> (r: Result<CompiledPattern, SearchError>)
        ensures
            r is Ok <==> regex_compiles(p@),
            r matches Ok(c) ==> c.source() == p@,
            r matches Err(e) ==> e is InvalidPattern,
    {
        match compile_regex(p) {
            Ok(re) => Ok(CompiledPattern { source: Ghost(p@), re }),
            Err(e) => Err(SearchError::InvalidPattern(regex_error_text(&e))),
        }
    }
}

/// Relies on `regex::Regex::is_match`: whether the expression matches
/// anywhere in `hay`, which depends on the expression's text and on `hay`
/// alone. `c.re` was compiled from `c.source()` by `CompiledPattern::compile`,
/// the only place that builds a `CompiledPattern`.
#[verifier::external_body]
pub(crate) fn regex_is_match(c: &CompiledPattern, hay: &str) -> (r: bool)
    ensures
        r == regex_finds(c.source(), hay@),
{
    c.re.is_match(hay)
}

} // verus!
