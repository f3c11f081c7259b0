use std::cell::Cell;

use reverse_geocoder::city_filter::CityFilter;
use reverse_geocoder::filters::{Admin2, And, Country, Name};
use reverse_geocoder::matchers::{ExactMatcher, IContainsMatcher};
use reverse_geocoder::{Record, RecordView, ReverseGeocoder};

fn places() -> ReverseGeocoder<u32> {
    ReverseGeocoder::new(vec![
        (0, Record::new("Lyon", "FR", "Auvergne-Rhone-Alpes", "Rhone")),
        (1, Record::new("Paris", "US", "Texas", "Lamar County")),
        (2, Record::new("Nice", "FR", "Provence-Alpes-Cote d'Azur", "Alpes-Maritimes")),
        (3, Record::new("Paris", "FR", "Ile-de-France", "Paris")),
        (4, Record::new("Austin", "US", "Texas", "Travis County")),
    ])
}

/// A filter with a fixed answer that counts its evaluations.
struct Counting<'a> {
    calls: &'a Cell<usize>,
    answer: bool,
}

impl<'a> CityFilter for Counting<'a> {
    fn spec_rec_match(&self, _r: RecordView) -> bool {
        self.answer
    }

    fn rec_match(&self, _r: &Record) -> bool {
        self.calls.set(self.calls.get() + 1);
        self.answer
    }
}

#[test]
fn search_keeps_dataset_order() {
    let g = places();
    let ci = g.search_city(Country::new("FR"));
    let ids: Vec<u32> = ci.iter().map(|(c, _)| **c).collect();
    assert_eq!(ids, vec![0, 2, 3]);
}

#[test]
fn search_without_match_is_empty() {
    let g = places();
    let ci = g.search_city(Country::new("DE"));
    assert!(ci.is_empty());
}

#[test]
fn search_on_empty_dataset() {
    let g: ReverseGeocoder<u32> = ReverseGeocoder::new(Vec::new());
    assert_eq!(g.len(), 0);
    assert!(g.search_city(Country::new("FR")).is_empty());
}

#[test]
fn search_twice_gives_same_result() {
    let g = places();
    let a: Vec<u32> = g
        .search_city(Name::<IContainsMatcher>::new("i").unwrap())
        .iter()
        .map(|(c, _)| **c)
        .collect();
    let b: Vec<u32> = g
        .search_city(Name::<IContainsMatcher>::new("i").unwrap())
        .iter()
        .map(|(c, _)| **c)
        .collect();
    assert_eq!(a, vec![1, 2, 3, 4]);
    assert_eq!(a, b);
}

#[test]
fn and_is_conjunction() {
    let g = places();
    let f = And::new(Name::<ExactMatcher>::new("Paris").unwrap(), Country::new("US"));
    let ci = g.search_city(f);
    assert_eq!(ci.len(), 1);
    assert_eq!(*ci[0].0, 1);
    let r = Record::new("Paris", "FR", "Ile-de-France", "Paris");
    let f2 = And::new(Name::<ExactMatcher>::new("Paris").unwrap(), Country::new("FR"));
    assert!(f2.rec_match(&r));
    let f3 = And::new(Name::<ExactMatcher>::new("Lyon").unwrap(), Country::new("FR"));
    assert!(!f3.rec_match(&r));
}

#[test]
fn and_skips_second_when_first_fails() {
    let calls = Cell::new(0usize);
    let r = Record::new("Paris", "FR", "Ile-de-France", "Paris");
    let f = And::new(Country::new("US"), Counting { calls: &calls, answer: true });
    assert!(!f.rec_match(&r));
    assert_eq!(calls.get(), 0);
    let f = And::new(Country::new("FR"), Counting { calls: &calls, answer: true });
    assert!(f.rec_match(&r));
    assert_eq!(calls.get(), 1);
}

#[test]
fn and_evaluates_second_filter_per_record() {
    let calls = Cell::new(0usize);
    let g = places();
    let ci = g.search_city(And::new(Country::new("FR"), Counting { calls: &calls, answer: false }));
    assert!(ci.is_empty());
    assert_eq!(calls.get(), 3);
}

#[test]
fn leaf_filter_with_invalid_pattern_is_refused() {
    let e = Admin2::<IContainsMatcher>::new("[a-").err().unwrap();
    assert_eq!(e.pattern, "[a-");
    assert!(Admin2::<ExactMatcher>::new("[a-").is_ok());
}
