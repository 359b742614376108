//! The configured file-name pattern.

use vstd::prelude::*;

verus! {

/// `regex::Regex`, a compiled expression; nothing inside it is looked at.
#[verifier::external_type_specification]
#[verifier::external_body]
pub struct ExRegex(regex::Regex);

/// `regex::Error`, the reason a pattern did not compile; nothing inside it is
/// looked at.
#[verifier::external_type_specification]
#[verifier::external_body]
pub struct ExRegexError(regex::Error);

/// Whether `regex::Regex::new` accepts `pattern`: the text is a well-formed
/// expression and its program stays within the default size limit.
pub uninterp spec fn compiles(pattern: Seq<char>) -> bool;

/// What the expression that `regex::Regex::new` makes of `pattern` answers on
/// `text`: whether it finds a match anywhere in it.
pub uninterp spec fn pattern_matches(pattern: Seq<char>, text: Seq<char>) -> bool;

/// What `regex::Regex::is_match` answers for a compiled expression on `text`.
/// The answer belongs to the expression as it was compiled, not to its text:
/// the same text compiled under other flags may answer otherwise.
pub uninterp spec fn expression_matches(re: regex::Regex, text: Seq<char>) -> bool;

/// Whether a name passes the pattern: the empty pattern admits every name,
/// any other pattern admits the names in which it finds a match.
pub open spec fn admits(pattern: Seq<char>, name: Seq<char>) -> bool {
    pattern.len() == 0 || pattern_matches(pattern, name)
}

/// `regex::Regex::new`, which compiles under the default flags. Whether it
/// succeeds depends on the pattern alone, and the empty pattern always
/// compiles. The expression it gives answers as the pattern does, and the
/// empty pattern matches every text.
#[verifier::external_body]
fn compile(pattern: &str) -> (r: Result<regex::Regex, regex::Error>)
    ensures
        r is Ok <==> compiles(pattern@),
        pattern@.len() == 0 ==> r is Ok,
        r matches Ok(re) ==> forall|text: Seq<char>| #[trigger]
            expression_matches(re, text) == (pattern@.len() == 0 || pattern_matches(
                pattern@,
                text,
            )),
{
    regex::Regex::new(pattern)
}

/// `regex::Regex::is_match`: an unanchored search of `text`. The answer
/// depends on the compiled expression and the text alone.
#[verifier::external_body]
fn is_match(re: &regex::Regex, text: &str) -> (b: bool)
    ensures
        b == expression_matches(*re, text@),
{
    re.is_match(text)
}

/// The pattern text could not be compiled.
#[derive(Debug, Clone, Copy, PartialEq, Eq)]
pub struct InvalidPattern;

/// A file-name pattern, compiled once and applied to raw names.
///
/// A filter is only ever made from pattern text, by [`NameFilter::new`], so
/// its expression answers as that text does.
pub struct NameFilter {
    source: Ghost<Seq<char>>,
    regex: regex::Regex,
}

impl NameFilter {
    /// The expression answers on every text as the pattern text does.
    #[verifier::type_invariant]
    spec fn answers_as_its_pattern(self) -> bool {
        forall|text: Seq<char>| #[trigger]
            expression_matches(self.regex, text) == admits(self.source@, text)
    }

    /// The pattern text the filter was built from.
    pub closed spec fn pattern(&self) -> Seq<char> {
        self.source@
    }

    /// Compiles `pattern`. A filter comes back exactly for the patterns that
    /// compile, among them the empty one.
    pub fn new(pattern: &str) -> (r: Result<NameFilter, InvalidPattern>)
        ensures
            r is Ok <==> compiles(pattern@),
            r matches Ok(filter) ==> filter.pattern() == pattern@,
            pattern@.len() == 0 ==> r is Ok,
    {
        match compile(pattern) {
            Ok(regex) => Ok(NameFilter { source: Ghost(pattern@), regex }),
            Err(_) => Err(InvalidPattern),
        }
    }

    /// Whether `name` passes the filter.
    pub fn matches(&self, name: &str) -> (b: bool)
        ensures
            b == admits(self.pattern(), name@),
    {
        proof {
            use_type_invariant(self);
        }
        is_match(&self.regex, name)
    }
}

} // verus!
