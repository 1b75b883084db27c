//! Case-insensitive search over the log buffer, compiled through the `regex`
//! crate.  The compiled matcher is opaque; contracts speak of the pattern
//! text it was built from.

use vstd::prelude::*;

verus! {

/// Declares `regex::Regex` to the verifier; values of it are opaque here.
#[verifier::external_type_specification]
#[verifier::external_body]
pub struct ExRegex(regex::Regex);

/// Whether `pat`, compiled as a case-insensitive regular expression, is a
/// valid pattern.  `regex::RegexBuilder::build` accepts or rejects a pattern
/// as a function of its text alone.
pub uninterp spec fn pattern_compiles(pat: Seq<char>) -> bool;

/// Whether the case-insensitive regular expression `pat` matches somewhere in
/// `text`.  `regex::Regex::is_match` is a function of the pattern the matcher
/// was compiled from and of the text searched.
pub uninterp spec fn pattern_matches(pat: Seq<char>, text: Seq<char>) -> bool;

/// A compiled case-insensitive search pattern, kept with its source text.
#[derive(Debug)]
pub struct SearchPattern {
    regex: regex::Regex,
    source: String,
}

impl View for SearchPattern {
    type V = Seq<char>;

    closed spec fn view(&self) -> Seq<char> {
        self.source@
    }
}

impl SearchPattern {
    /// The pattern text this matcher was compiled from.
    pub fn source(&self) -> (r: &String)
        ensures
            r@ == self@,
    {
        &self.source
    }

    /// Relies on `regex::RegexBuilder::new(pat).case_insensitive(true).build()`:
    /// it returns a matcher exactly when the pattern text is valid.
    #[verifier::external_body]
    pub(crate) fn compile(pat: &str) -> (r: Result<SearchPattern, String>)
        ensures
            r is Ok <==> pattern_compiles(pat@),
            r matches Ok(p) ==> p@ == pat@,
    {
        match regex::RegexBuilder::new(pat).case_insensitive(true).build() {
            Ok(regex) => Ok(SearchPattern { regex, source: pat.to_owned() }),
            Err(e) => Err(e.to_string()),
        }
    }

    /// Relies on `regex::Regex::is_match`: the answer is a function of the
    /// compiled pattern and the searched text.
    #[verifier::external_body]
    pub(crate) fn is_match(&self, text: &str) -> (r: bool)
        ensures
            r == pattern_matches(self@, text@),
    {
        self.regex.is_match(text)
    }
}

} // verus!
