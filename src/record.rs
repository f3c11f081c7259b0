use vstd::prelude::*;

verus! {

/// The attributes of one place.
#[derive(Clone, Debug)]
pub struct Record {
    /// Place name.
    pub name: String,
    /// Two-letter ISO 3166-1 country code.
    pub cc: String,
    /// First-level administrative division.
    pub admin1: String,
    /// Second-level administrative division.
    pub admin2: String,
}

/// The text of a record's fields.
pub struct RecordView {
    pub name: Seq<char>,
    pub cc: Seq<char>,
    pub admin1: Seq<char>,
    pub admin2: Seq<char>,
}

impl View for Record {
    type V = RecordView;

    open spec fn view(&self) -> RecordView {
        RecordView {
            name: self.name@,
            cc: self.cc@,
            admin1: self.admin1@,
            admin2: self.admin2@,
        }
    }
}

impl Record {
    /// Builds a record from its four fields.
    pub fn new(name: &str, cc: &str, admin1: &str, admin2: &str) -> (r: Record)
        ensures
            r.name@ == name@,
            r.cc@ == cc@,
            r.admin1@ == admin1@,
            r.admin2@ == admin2@,
    {
        Record {
            name: name.to_owned(),
            cc: cc.to_owned(),
            admin1: admin1.to_owned(),
            admin2: admin2.to_owned(),
        }
    }
}

} // verus!
