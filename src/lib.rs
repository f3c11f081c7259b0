//! Attribute search over an in-memory collection of place records.
//!
//! Callers build matchers, bind them to record fields with leaf filters,
//! combine filters, and hand the result to [`ReverseGeocoder::search_city`],
//! which returns the matching entries in dataset order.
pub mod city_filter;
pub mod filters;
pub mod geocoder;
pub mod icase;
pub mod matchers;
pub mod record;

pub use geocoder::ReverseGeocoder;
pub use record::{Record, RecordView};
