use crate::city_filter::CityFilter;
use crate::matchers::{InvalidPattern, Matcher};
use crate::record::{Record, RecordView};
use vstd::prelude::*;

verus! {

/// Tests the name field of a record with a matcher.
pub struct Name<T: Matcher> {
    m: T,
}

impl<T: Matcher> Name<T> {
    /// The pattern the filter's matcher was built from.
    pub closed spec fn pattern(&self) -> Seq<char> {
        self.m.pattern()
    }

    /// Builds a filter on the name field, with a matcher for `name`.
    pub fn new(name: &str) -> (r: Result<Self, InvalidPattern>)
        ensures
            r is Ok <==> T::valid_pattern(name@),
            r matches Ok(f) ==> f.pattern() == name@,
            r matches Err(e) ==> e.pattern@ == name@,
    {
        match T::new(name) {
            Ok(m) => Ok(Name { m }),
            Err(e) => Err(e),
        }
    }
}

impl<T: Matcher> CityFilter for Name<T> {
    open spec fn spec_rec_match(&self, r: RecordView) -> bool {
        T::accepts(self.pattern(), r.name)
    }

    fn rec_match(&self, r: &Record) -> (b: bool) {
        self.m.match_field(r.name.as_str())
    }
}

/// Tests the admin1 field of a record with a matcher.
pub struct Admin1<T: Matcher> {
    m: T,
}

impl<T: Matcher> Admin1<T> {
    /// The pattern the filter's matcher was built from.
    pub closed spec fn pattern(&self) -> Seq<char> {
        self.m.pattern()
    }

    /// Builds a filter on the admin1 field, with a matcher for `admin1`.
    pub fn new(admin1: &str) -> (r: Result<Self, InvalidPattern>)
        ensures
            r is Ok <==> T::valid_pattern(admin1@),
            r matches Ok(f) ==> f.pattern() == admin1@,
            r matches Err(e) ==> e.pattern@ == admin1@,
    {
        match T::new(admin1) {
            Ok(m) => Ok(Admin1 { m }),
            Err(e) => Err(e),
        }
    }
}

impl<T: Matcher> CityFilter for Admin1<T> {
    open spec fn spec_rec_match(&self, r: RecordView) -> bool {
        T::accepts(self.pattern(), r.admin1)
    }

    fn rec_match(&self, r: &Record) -> (b: bool) {
        self.m.match_field(r.admin1.as_str())
    }
}

/// Tests the admin2 field of a record with a matcher.
pub struct Admin2<T: Matcher> {
    m: T,
}

impl<T: Matcher> Admin2<T> {
    /// The pattern the filter's matcher was built from.
    pub closed spec fn pattern(&self) -> Seq<char> {
        self.m.pattern()
    }

    /// Builds a filter on the admin2 field, with a matcher for `admin2`.
    pub fn new(admin2: &str) -> (r: Result<Self, InvalidPattern>)
        ensures
            r is Ok <==> T::valid_pattern(admin2@),
            r matches Ok(f) ==> f.pattern() == admin2@,
            r matches Err(e) ==> e.pattern@ == admin2@,
    {
        match T::new(admin2) {
            Ok(m) => Ok(Admin2 { m }),
            Err(e) => Err(e),
        }
    }
}

impl<T: Matcher> CityFilter for Admin2<T> {
    open spec fn spec_rec_match(&self, r: RecordView) -> bool {
        T::accepts(self.pattern(), r.admin2)
    }

    fn rec_match(&self, r: &Record) -> (b: bool) {
        self.m.match_field(r.admin2.as_str())
    }
}

/// Tests the country code of a record for exact equality.
pub struct Country {
    country_code: String,
}

impl Country {
    /// The country code the filter accepts.
    pub closed spec fn code(&self) -> Seq<char> {
        self.country_code@
    }

    /// Builds a filter for an ISO 3166-1 alpha-2 code such as `"US"`.
    pub fn new(country_code: &str) -> (r: Self)
        ensures
            r.code() == country_code@,
    {
        Country { country_code: country_code.to_owned() }
    }
}

impl CityFilter for Country {
    open spec fn spec_rec_match(&self, r: RecordView) -> bool {
        r.cc == self.code()
    }

    fn rec_match(&self, r: &Record) -> (b: bool) {
        r.cc == self.country_code
    }
}

/// Accepts a record that both of its filters accept.
///
/// The second filter is evaluated only when the first one accepts.
pub struct And<T: CityFilter, U: CityFilter> {
    fa: T,
    fb: U,
}

impl<T: CityFilter, U: CityFilter> And<T, U> {
    /// The filter evaluated first.
    pub closed spec fn first(&self) -> T {
        self.fa
    }

    /// The filter evaluated second.
    pub closed spec fn second(&self) -> U {
        self.fb
    }

    /// Combines two filters.
    pub fn new(fa: T, fb: U) -> (r: Self)
        ensures
            r.first() == fa,
            r.second() == fb,
    {
        And { fa, fb }
    }
}

impl<T: CityFilter, U: CityFilter> CityFilter for And<T, U> {
    open spec fn spec_rec_match(&self, r: RecordView) -> bool {
        self.first().spec_rec_match(r) && self.second().spec_rec_match(r)
    }

    fn rec_match(&self, r: &Record) -> (b: bool) {
        self.fa.rec_match(r) && self.fb.rec_match(r)
    }
}

/// A conjunction built from `a` and `b` accepts a record exactly when `a`
/// accepts it and `b` accepts it.
pub proof fn lemma_and_is_conjunction<T: CityFilter, U: CityFilter>(a: T, b: U, r: RecordView)
    ensures
        forall|f: And<T, U>|
            f.first() == a && f.second() == b ==> (#[trigger] f.spec_rec_match(r) == (
            a.spec_rec_match(r) && b.spec_rec_match(r))),
{
}

} // verus!
