use crate::record::{Record, RecordView};
use vstd::prelude::*;

verus! {

/// A condition that a record may or may not satisfy.
///
/// Evaluation is a pure function of the filter and the record.
pub trait CityFilter {
    /// Whether the record with fields `r` satisfies this filter.
    spec fn spec_rec_match(&self, r: RecordView) -> bool;

    /// Tests one record.
    fn rec_match(&self, r: &Record) -> (b: bool)
        ensures
            b == self.spec_rec_match(r@),
    ;
}

} // verus!
