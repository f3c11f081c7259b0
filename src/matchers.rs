use crate::icase::{compile_icase, icase_compiles, icase_finds, icase_is_match, IcaseRegex};
use vstd::prelude::*;
use vstd::string::StringSliceAdditionalSpecFns;
use vstd::utf8::encode_utf8_decode_utf8;

verus! {

/// The error returned when a pattern cannot be turned into a matcher.
#[derive(Debug)]
pub struct InvalidPattern {
    /// The pattern that was refused.
    pub pattern: String,
}

/// A way of comparing a record field with a pattern fixed at construction.
pub trait Matcher: Sized {
    /// The pattern this matcher was built from.
    spec fn pattern(&self) -> Seq<char>;

    /// Whether a matcher built from `pat` accepts the field value `v`.
    spec fn accepts(pat: Seq<char>, v: Seq<char>) -> bool;

    /// Whether a matcher can be built from `pat`.
    spec fn valid_pattern(pat: Seq<char>) -> bool;

    /// Tests one field value against the pattern.
    fn match_field(&self, rec_field: &str) -> (r: bool)
        ensures
            r == Self::accepts(self.pattern(), rec_field@),
    ;

    /// Builds a matcher for `pat`, or reports why it cannot be built.
    fn new(pat: &str) -> (r: Result<Self, InvalidPattern>)
        ensures
            r is Ok <==> Self::valid_pattern(pat@),
            r matches Ok(m) ==> m.pattern() == pat@,
            r matches Err(e) ==> e.pattern@ == pat@,
    ;
}

/// Accepts a field that equals the pattern exactly, case included.
pub struct ExactMatcher {
    pattern: String,
}

/// Whether two strings hold the same characters, compared by their UTF-8 bytes.
fn same_text(a: &str, b: &str) -> (r: bool)
    ensures
        r == (a@ == b@),
{
    let x = a.as_bytes();
    let y = b.as_bytes();
    if x.len() != y.len() {
        return false;
    }
    let mut i: usize = 0;
    while i < x.len()
        invariant
            x@ == a.spec_bytes(),
            y@ == b.spec_bytes(),
            x@.len() == y@.len(),
            0 <= i <= x@.len(),
            forall|k: int| 0 <= k < i ==> x@[k] == y@[k],
        decreases x@.len() - i,
    {
        if x[i] != y[i] {
            return false;
        }
        i = i + 1;
    }
    proof {
        assert(x@ =~= y@);
        encode_utf8_decode_utf8(a@);
        encode_utf8_decode_utf8(b@);
    }
    true
}

impl Matcher for ExactMatcher {
    closed spec fn pattern(&self) -> Seq<char> {
        self.pattern@
    }

    open spec fn accepts(pat: Seq<char>, v: Seq<char>) -> bool {
        pat == v
    }

    open spec fn valid_pattern(pat: Seq<char>) -> bool {
        true
    }

    fn match_field(&self, rec_field: &str) -> (r: bool) {
        same_text(self.pattern.as_str(), rec_field)
    }

    fn new(pat: &str) -> (r: Result<Self, InvalidPattern>) {
        Ok(ExactMatcher { pattern: pat.to_owned() })
    }
}

/// Accepts a field in which the pattern, read as a regular expression and
/// compared without regard to case, matches somewhere.
pub struct IContainsMatcher {
    pattern: IcaseRegex,
}

impl Matcher for IContainsMatcher {
    closed spec fn pattern(&self) -> Seq<char> {
        self.pattern.source()
    }

    open spec fn accepts(pat: Seq<char>, v: Seq<char>) -> bool {
        icase_finds(pat, v)
    }

    open spec fn valid_pattern(pat: Seq<char>) -> bool {
        icase_compiles(pat)
    }

    fn match_field(&self, rec_field: &str) -> (r: bool) {
        icase_is_match(&self.pattern, rec_field)
    }

    fn new(pat: &str) -> (r: Result<Self, InvalidPattern>) {
        match compile_icase(pat) {
            Ok(re) => Ok(IContainsMatcher { pattern: re }),
            Err(_) => Err(InvalidPattern { pattern: pat.to_owned() }),
        }
    }
}

} // verus!
