use crate::city_filter::CityFilter;
use crate::record::{Record, RecordView};
use vstd::prelude::*;

verus! {

/// The entries of `d` whose records `f` accepts, in the order of `d`.
pub open spec fn matching<C, F: CityFilter>(d: Seq<(C, RecordView)>, f: F) -> Seq<(C, RecordView)>
    decreases d.len(),
{
    if d.len() == 0 {
        Seq::empty()
    } else {
        let rest = matching(d.drop_last(), f);
        if f.spec_rec_match(d.last().1) {
            rest.push(d.last())
        } else {
            rest
        }
    }
}

/// The indices in `d` of the entries whose records `f` accepts, ascending.
pub open spec fn match_positions<C, F: CityFilter>(d: Seq<(C, RecordView)>, f: F) -> Seq<int>
    decreases d.len(),
{
    if d.len() == 0 {
        Seq::empty()
    } else {
        let rest = match_positions(d.drop_last(), f);
        if f.spec_rec_match(d.last().1) {
            rest.push(d.len() - 1)
        } else {
            rest
        }
    }
}

/// `m` is the subsequence of `d` at the strictly ascending indices `p`, and
/// `p` holds exactly the indices of the entries that `f` accepts.
pub open spec fn ordered_selection<C, F: CityFilter>(
    d: Seq<(C, RecordView)>,
    f: F,
    m: Seq<(C, RecordView)>,
    p: Seq<int>,
) -> bool {
    &&& p.len() == m.len()
    &&& forall|k: int| 0 <= k < p.len() ==> 0 <= #[trigger] p[k] < d.len() && m[k] == d[p[k]]
    &&& forall|k: int, l: int| 0 <= k < l < p.len() ==> #[trigger] p[k] < #[trigger] p[l]
    &&& forall|i: int| 0 <= i < d.len() ==> (f.spec_rec_match(#[trigger] d[i].1) <==> p.contains(i))
}

/// A search result seen as coordinate / record-fields pairs.
pub open spec fn result_view<C>(r: Seq<(&C, &Record)>) -> Seq<(C, RecordView)> {
    r.map_values(|e: (&C, &Record)| (*e.0, e.1@))
}

/// A dataset of coordinates of type `C`, each with the record of its place,
/// held in a fixed order.
pub struct ReverseGeocoder<C> {
    entries: Vec<(C, Record)>,
}

impl<C> ReverseGeocoder<C> {
    /// The dataset's entries, in order.
    pub closed spec fn entries(&self) -> Seq<(C, RecordView)> {
        self.entries@.map_values(|e: (C, Record)| (e.0, e.1@))
    }

    /// Builds the dataset from its entries; their order is kept.
    pub fn new(entries: Vec<(C, Record)>) -> (r: Self)
        ensures
            r.entries() == entries@.map_values(|e: (C, Record)| (e.0, e.1@)),
    {
        ReverseGeocoder { entries }
    }

    /// The number of entries.
    pub fn len(&self) -> (n: usize)
        ensures
            n == self.entries().len(),
    {
        self.entries.len()
    }

    /// Scans every entry once, in order, and returns those whose record
    /// `f` accepts.
    pub fn search_city<F: CityFilter>(&self, f: F) -> (r: Vec<(&C, &Record)>)
        ensures
            result_view(r@) == matching(self.entries(), f),
    {
        let ghost d = self.entries();
        let mut out: Vec<(&C, &Record)> = Vec::new();
        let mut i: usize = 0;
        while i < self.entries.len()
            invariant
                d == self.entries(),
                0 <= i <= d.len(),
                result_view(out@) == matching(d.take(i as int), f),
            decreases d.len() - i,
        {
            let e = &self.entries[i];
            let ghost before = out@;
            if f.rec_match(&e.1) {
                out.push((&e.0, &e.1));
                assert(result_view(out@) =~= result_view(before).push(d[i as int]));
            }
            assert(d.take(i + 1).drop_last() =~= d.take(i as int));
            i = i + 1;
        }
        assert(d.take(i as int) =~= d);
        out
    }
}

/// The entries that a search returns are a subsequence of the dataset in its
/// original order; each of them satisfies the filter, and every entry left
/// out does not.
pub proof fn lemma_search_is_ordered_selection<C, F: CityFilter>(d: Seq<(C, RecordView)>, f: F)
    ensures
        ordered_selection(d, f, matching(d, f), match_positions(d, f)),
    decreases d.len(),
{
    if d.len() > 0 {
        let s = d.drop_last();
        lemma_search_is_ordered_selection(s, f);
        let p = match_positions(d, f);
        let ps = match_positions(s, f);
        assert forall|i: int| 0 <= i < d.len() implies (f.spec_rec_match(#[trigger] d[i].1)
            <==> p.contains(i)) by {
            if i < d.len() - 1 {
                assert(d[i] == s[i]);
                if ps.contains(i) {
                    let k = choose|k: int| 0 <= k < ps.len() && ps[k] == i;
                    assert(p[k] == i);
                }
                if p.contains(i) {
                    let k = choose|k: int| 0 <= k < p.len() && p[k] == i;
                    assert(k < ps.len());
                    assert(ps[k] == i);
                }
            } else {
                if f.spec_rec_match(d.last().1) {
                    assert(p[p.len() - 1] == i);
                }
            }
        }
    }
}

/// Searching one dataset twice with the same filter gives the same result.
pub proof fn lemma_search_deterministic<C, F: CityFilter>(
    g: ReverseGeocoder<C>,
    f: F,
    r1: Seq<(&C, &Record)>,
    r2: Seq<(&C, &Record)>,
)
    requires
        result_view(r1) == matching(g.entries(), f),
        result_view(r2) == matching(g.entries(), f),
    ensures
        result_view(r1) == result_view(r2),
{
}

} // verus!
