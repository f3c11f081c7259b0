//! Case-insensitive regular expressions, compiled by the regex crate.
use regex::{Regex, RegexBuilder};
use vstd::prelude::*;

verus! {

#[verifier::external_type_specification]
#[verifier::external_body]
pub struct ExRegex(Regex);

#[verifier::external_type_specification]
#[verifier::external_body]
pub struct ExRegexError(regex::Error);

/// Whether `pat` compiles as a regular expression under the default
/// configuration with case-insensitive matching switched on.
pub uninterp spec fn icase_compiles(pat: Seq<char>) -> bool;

/// Whether the case-insensitive regular expression compiled from `pat`
/// matches somewhere in `hay`.
pub uninterp spec fn icase_finds(pat: Seq<char>, hay: Seq<char>) -> bool;

/// A regular expression compiled case-insensitively, kept with its source.
///
/// Only [`compile_icase`] builds one, so `re` is always the compilation of
/// `source`.
pub(crate) struct IcaseRegex {
    re: Regex,
    source: String,
}

impl IcaseRegex {
    /// The pattern this regular expression was compiled from.
    pub closed spec fn source(&self) -> Seq<char> {
        self.source@
    }
}

/// Relies on regex::RegexBuilder::new, case_insensitive(true) and build:
/// compilation succeeds exactly on the patterns that are valid regular
/// expressions within the default size limits, a property of the pattern alone.
#[verifier::external_body]
pub(crate) fn compile_icase(pat: &str) -> (r: Result<IcaseRegex, regex::Error>)
    ensures
        r is Ok <==> icase_compiles(pat@),
        r matches Ok(c) ==> c.source() == pat@,
{
    match RegexBuilder::new(pat).case_insensitive(true).build() {
        Ok(re) => Ok(IcaseRegex { re, source: pat.to_owned() }),
        Err(e) => Err(e),
    }
}

/// Relies on regex::Regex::is_match: whether the compiled expression matches
/// anywhere in `hay`. Every `IcaseRegex` comes from `compile_icase`, with one
/// fixed configuration, so the answer depends on its source and `hay` alone.
#[verifier::external_body]
pub(crate) fn icase_is_match(c: &IcaseRegex, hay: &str) -> (r: bool)
    ensures
        r == icase_finds(c.source(), hay@),
{
    c.re.is_match(hay)
}

} // verus!
