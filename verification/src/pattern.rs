use vstd::prelude::*;

verus! {

#[verifier::external_type_specification]
#[verifier::external_body]
pub struct ExRegex(regex::Regex);

/// Whether `regex::Regex::new` accepts a pattern; decided by the pattern text alone.
pub uninterp spec fn regex_valid(pattern: Seq<char>) -> bool;

/// What `regex::Regex::is_match` answers for a pattern and a text; decided by both alone.
pub uninterp spec fn regex_match(pattern: Seq<char>, text: Seq<char>) -> bool;

/// Relies on regex::Regex::new: compilation succeeds or fails by the pattern text alone.
#[verifier::external_body]
fn regex_new(pattern: &str) -> (r: Option<regex::Regex>)
    ensures
        r is Some <==> regex_valid(pattern@),
{
    regex::Regex::new(pattern).ok()
}

/// A regular-expression pattern together with its compiled form, compiled once
/// at validation time and never re-compiled per match.
#[derive(Debug)]
pub struct CompiledPattern {
    pattern: String,
    compiled: regex::Regex,
}

impl CompiledPattern {
    /// The pattern text this matcher was compiled from.
    pub closed spec fn spec_pattern(&self) -> Seq<char> {
        self.pattern@
    }

    pub fn pattern(&self) -> (r: &String)
        ensures
            r@ == self.spec_pattern(),
    {
        &self.pattern
    }

    pub fn new(pattern: &str) -> (r: Option<CompiledPattern>)
        ensures
            r is Some <==> regex_valid(pattern@),
            r is Some ==> r->Some_0.spec_pattern() == pattern@,
    {
        match regex_new(pattern) {
            Some(compiled) => Some(CompiledPattern { pattern: pattern.to_owned(), compiled }),
            None => None,
        }
    }

    /// Relies on regex::Regex::is_match: the answer depends on the pattern and
    /// the text alone. `compiled` is always the compilation of `pattern`: both
    /// fields are private and set only by `new`.
    #[verifier::external_body]
    pub fn is_match(&self, text: &str) -> (r: bool)
        ensures
            r == regex_match(self.spec_pattern(), text@),
    {
        self.compiled.is_match(text)
    }
}

} // verus!
