//! Regular-expression patterns with identity by source text.
//!
//! A compiled pattern object is not naturally comparable; equality and
//! hashing of [`Pattern`] therefore go by the pattern's source text alone, so
//! two structurally identical patterns are equal however each was compiled.

use vstd::prelude::*;

verus! {

/// `regex::Regex`, declared so a compiled pattern can stand in a field; the
/// value itself is opaque to verification.
#[verifier::external_type_specification]
#[verifier::external_body]
pub struct ExRegex(regex::Regex);

/// `regex::Error`, what a failed compilation returns.
#[verifier::external_type_specification]
#[verifier::external_body]
pub struct ExRegexError(regex::Error);

/// Whether `regex::Regex::new` accepts a pattern; acceptance is a function of
/// the pattern text alone.
pub uninterp spec fn regex_valid(pattern: Seq<char>) -> bool;

/// Relies on regex::Regex::new: it compiles the pattern text, succeeding
/// exactly on the patterns the crate accepts.
#[verifier::external_body]
fn compile(pattern: &str) -> (r: Result<regex::Regex, regex::Error>)
    ensures
        r is Ok <==> regex_valid(pattern@),
{
    regex::Regex::new(pattern)
}

/// Relies on regex::Regex::clone.
#[verifier::external_body]
fn clone_compiled(re: &regex::Regex) -> regex::Regex {
    re.clone()
}

/// A compiled pattern together with its source text. Its view, equality and
/// hash are the source text; the compiled form is carried for matching.
#[derive(Debug)]
pub struct Pattern {
    compiled: regex::Regex,
    source: String,
}

impl View for Pattern {
    type V = Seq<char>;

    closed spec fn view(&self) -> Seq<char> {
        self.source@
    }
}

impl Pattern {
    /// Compile `pattern`; succeeds exactly when the pattern is a valid
    /// regular expression.
    pub fn new(pattern: &str) -> (r: Result<Pattern, regex::Error>)
        ensures
            r matches Ok(re) ==> re@ == pattern@ && regex_valid(pattern@),
            r is Err <==> !regex_valid(pattern@),
    {
        match compile(pattern) {
            Ok(c) => Ok(
                Pattern {
                    compiled: c,
                    source: pattern.to_owned(),
                },
            ),
            Err(e) => Err(e),
        }
    }

    /// The pattern's source text.
    pub fn as_str(&self) -> (r: &str)
        ensures
            r@ == self@,
    {
        self.source.as_str()
    }
}

impl Clone for Pattern {
    /// The clone carries the same pattern text.
    fn clone(&self) -> (r: Self)
        ensures
            r@ == self@,
    {
        Pattern {
            compiled: clone_compiled(&self.compiled),
            source: self.source.clone(),
        }
    }
}

impl PartialEq for Pattern {
    fn eq(&self, other: &Self) -> (r: bool) {
        crate::strings::str_eq(self.source.as_str(), other.source.as_str())
    }
}

impl Eq for Pattern {

}

impl vstd::std_specs::cmp::PartialEqSpecImpl for Pattern {
    open spec fn obeys_eq_spec() -> bool {
        true
    }

    open spec fn eq_spec(&self, other: &Self) -> bool {
        self@ == other@
    }
}

impl core::hash::Hash for Pattern {
    /// Relies on String's Hash: the hash is that of the source text alone.
    #[verifier::external_body]
    fn hash<H: core::hash::Hasher>(&self, state: &mut H) {
        self.source.hash(state)
    }
}

} // verus!
