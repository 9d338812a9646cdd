//! The column browser's facet lists and its cascading Genre → Artist →
//! Album filter.
//!
//! Each pane lists "All" followed by every distinct value of its facet among
//! the tracks, sorted case-insensitively, with the number of tracks carrying
//! it. A track passes the browser when every pane's selection lets its facet
//! value through.

use vstd::prelude::*;

use crate::library::TrackInfo;
use crate::selection::{PaneSelection, string_set};
use crate::text::{
    Order, chars_of, ci, ci_order, lemma_lex_equal, lemma_lex_flip, lemma_lex_transitive, lex,
    lex_compare, lower_seq,
};

verus! {

/// The three panes of the column browser.
#[derive(Debug, Clone, Copy, PartialEq, Eq, Structural)]
pub enum Pane {
    Genre,
    Artist,
    Album,
}

/// A track's value for the facet a pane lists.
pub open spec fn facet(t: TrackInfo, pane: Pane) -> Seq<char> {
    match pane {
        Pane::Genre => t.genre@,
        Pane::Artist => t.artist@,
        Pane::Album => t.album@,
    }
}

/// How many of `ts` carry `v` as their facet value.
pub open spec fn facet_count(ts: Seq<&TrackInfo>, pane: Pane, v: Seq<char>) -> nat
    decreases ts.len(),
{
    if ts.len() == 0 {
        0
    } else {
        facet_count(ts.drop_last(), pane, v) + if facet(*ts.last(), pane) == v {
            1nat
        } else {
            0nat
        }
    }
}

/// Whether some track of `ts` carries `v` as its facet value.
pub open spec fn has_facet(ts: Seq<&TrackInfo>, pane: Pane, v: Seq<char>) -> bool {
    exists|i: int| 0 <= i < ts.len() && facet(*ts[i], pane) == v
}

/// The order of facet values in a pane: case-insensitive first, exact
/// characters breaking ties between spellings that differ only in case.
pub open spec fn facet_order(a: Seq<char>, b: Seq<char>) -> Order {
    ci(a, b).tie_break(lex(a, b))
}

/// `facet_order` is a strict total order: `Equal` only for equal values,
/// antisymmetric, and transitive.
pub proof fn lemma_facet_order(a: Seq<char>, b: Seq<char>, c: Seq<char>)
    ensures
        (facet_order(a, b) == Order::Equal) == (a == b),
        facet_order(b, a) == facet_order(a, b).flip(),
        facet_order(a, b) == Order::Less && facet_order(b, c) == Order::Less ==> facet_order(a, c)
            == Order::Less,
{
    lemma_lex_equal(a, b);
    lemma_lex_flip(a, b);
    lemma_lex_flip(lower_seq(a), lower_seq(b));
    lemma_lex_equal(lower_seq(a), lower_seq(b));
    if facet_order(a, b) == Order::Less && facet_order(b, c) == Order::Less {
        lemma_lex_equal(lower_seq(b), lower_seq(c));
        lemma_lex_equal(lower_seq(a), lower_seq(c));
        lemma_lex_transitive(lower_seq(a), lower_seq(b), lower_seq(c));
        if ci(a, b) == Order::Equal && ci(b, c) == Order::Equal {
            lemma_lex_transitive(a, b, c);
        }
    }
}

/// Compares two facet values in pane order.
pub fn facet_compare(a: &str, b: &str) -> (o: Order)
    ensures
        o == facet_order(a@, b@),
{
    match ci_order(a, b) {
        Order::Equal => lex_compare(&chars_of(a), &chars_of(b)),
        other => other,
    }
}

/// One row of a pane: a facet value (`None` for the "All" row) and how many
/// tracks carry it.
#[derive(Debug, Clone)]
pub struct FacetEntry {
    pub value: Option<String>,
    pub count: usize,
}

/// The text a pane row shows.
pub open spec fn entry_label(value: Option<Seq<char>>) -> Seq<char> {
    match value {
        None => "All"@,
        Some(v) => if v.len() == 0 {
            "(unknown)"@
        } else {
            v
        },
    }
}

impl FacetEntry {
    /// The row text: "All" for the "All" row, "(unknown)" for tracks without
    /// the tag, otherwise the value itself.
    pub fn label(&self) -> (s: String)
        ensures
            s@ == entry_label(
                match self.value {
                    Some(v) => Some(v@),
                    None => None,
                },
            ),
    {
        match &self.value {
            None => {
                proof {
                    reveal_strlit("All");
                }
                "All".to_string()
            },
            Some(v) => {
                if v.as_str().is_empty() {
                    proof {
                        reveal_strlit("(unknown)");
                    }
                    "(unknown)".to_string()
                } else {
                    v.clone()
                }
            },
        }
    }
}

/// A track's facet value for `pane`.
fn facet_of(t: &TrackInfo, pane: Pane) -> (s: &String)
    ensures
        s@ == facet(*t, pane),
{
    match pane {
        Pane::Genre => &t.genre,
        Pane::Artist => &t.artist,
        Pane::Album => &t.album,
    }
}

/// A distinct facet value and its running count.
struct Tally {
    value: String,
    count: usize,
}

/// The pane rows for `tracks`: "All" with the number of tracks, then each
/// distinct facet value, in facet order, with the number of tracks carrying
/// it.
pub fn entries_for(tracks: &[&TrackInfo], pane: Pane) -> (r: Vec<FacetEntry>)
    ensures
        r@.len() >= 1,
        r@[0].value is None,
        r@[0].count == tracks@.len(),
        forall|i: int| 1 <= i < r@.len() ==> (#[trigger] r@[i]).value is Some,
        forall|i: int|
            1 <= i < r@.len() ==> (#[trigger] r@[i]).count == facet_count(
                tracks@,
                pane,
                r@[i].value.unwrap()@,
            ),
        forall|i: int, j: int|
            1 <= i < j < r@.len() ==> facet_order(
                (#[trigger] r@[i]).value.unwrap()@,
                (#[trigger] r@[j]).value.unwrap()@,
            ) == Order::Less,
        forall|v: Seq<char>|
            has_facet(tracks@, pane, v) <==> exists|i: int|
                1 <= i < r@.len() && (#[trigger] r@[i]).value.unwrap()@ == v,
{
    let n = tracks.len();
    let mut tally: Vec<Tally> = Vec::new();
    let mut k: usize = 0;
    while k < n
        invariant
            n == tracks@.len(),
            k <= n,
            forall|i: int, j: int|
                0 <= i < j < tally@.len() ==> facet_order(
                    (#[trigger] tally@[i]).value@,
                    (#[trigger] tally@[j]).value@,
                ) == Order::Less,
            forall|i: int|
                0 <= i < tally@.len() ==> (#[trigger] tally@[i]).count == facet_count(
                    tracks@.take(k as int),
                    pane,
                    tally@[i].value@,
                ) && tally@[i].count <= k,
            forall|v: Seq<char>|
                has_facet(tracks@.take(k as int), pane, v) <==> exists|i: int|
                    0 <= i < tally@.len() && (#[trigger] tally@[i]).value@ == v,
        decreases n - k,
    {
        let v = facet_of(tracks[k], pane);
        let ghost fv = v@;
        let ghost pre = tracks@.take(k as int);
        let ghost next = tracks@.take(k + 1);
        proof {
            assert(next.drop_last() =~= pre);
            assert(next.last() == tracks@[k as int]);
        }
        let mut p: usize = 0;
        let mut found = false;
        while p < tally.len()
            invariant
                p <= tally@.len(),
                fv == v@,
                forall|q: int| 0 <= q < p ==> facet_order(fv, (#[trigger] tally@[q]).value@)
                    == Order::Greater,
                found ==> p < tally@.len() && tally@[p as int].value@ == fv,
                !found ==> forall|q: int| 0 <= q < p ==> (#[trigger] tally@[q]).value@ != fv,
            ensures
                p <= tally@.len(),
                forall|q: int| 0 <= q < p ==> facet_order(fv, (#[trigger] tally@[q]).value@)
                    == Order::Greater,
                found ==> p < tally@.len() && tally@[p as int].value@ == fv,
                !found ==> forall|q: int| 0 <= q < p ==> (#[trigger] tally@[q]).value@ != fv,
                !found && p < tally@.len() ==> facet_order(fv, tally@[p as int].value@)
                    == Order::Less,
            decreases tally@.len() - p,
        {
            let o = facet_compare(v.as_str(), tally[p].value.as_str());
            proof {
                lemma_facet_order(fv, tally@[p as int].value@, fv);
            }
            if o == Order::Greater {
                p = p + 1;
            } else {
                if o == Order::Equal {
                    found = true;
                }
                break;
            }
        }
        let ghost old_tally = tally@;
        if found {
            let entry = Tally { value: tally[p].value.clone(), count: tally[p].count + 1 };
            tally.set(p, entry);
            proof {
                assert forall|i: int| 0 <= i < tally@.len() implies (#[trigger] tally@[i]).count
                    == facet_count(next, pane, tally@[i].value@) && tally@[i].count <= k + 1 by {
                    if i != p {
                        assert(old_tally[i].value@ != fv) by {
                            if i < p {
                                lemma_facet_order(fv, old_tally[i].value@, fv);
                            } else {
                                lemma_facet_order(old_tally[p as int].value@, old_tally[i].value@, fv);
                            }
                        }
                    }
                }
                assert forall|v2: Seq<char>| has_facet(next, pane, v2) <==> exists|i: int|
                    0 <= i < tally@.len() && (#[trigger] tally@[i]).value@ == v2 by {
                    if has_facet(next, pane, v2) {
                        let t = choose|t: int| 0 <= t < next.len() && facet(*next[t], pane) == v2;
                        if t < k {
                            assert(pre[t] == next[t]);
                            assert(has_facet(pre, pane, v2));
                            let i = choose|i: int| 0 <= i < old_tally.len() && (#[trigger] old_tally[i]).value@ == v2;
                            assert(tally@[i].value@ == v2);
                        } else {
                            assert(tally@[p as int].value@ == v2);
                        }
                    }
                    if exists|i: int| 0 <= i < tally@.len() && (#[trigger] tally@[i]).value@ == v2 {
                        let i = choose|i: int| 0 <= i < tally@.len() && (#[trigger] tally@[i]).value@ == v2;
                        assert(old_tally[i].value@ == v2);
                        assert(has_facet(pre, pane, v2));
                        let t = choose|t: int| 0 <= t < pre.len() && facet(*pre[t], pane) == v2;
                        assert(next[t] == pre[t]);
                    }
                }
            }
        } else {
            tally.insert(p, Tally { value: v.clone(), count: 1 });
            proof {
                assert forall|q: int| 0 <= q < tally@.len() implies #[trigger] tally@[q] == if q < p {
                    old_tally[q]
                } else if q == p {
                    tally@[p as int]
                } else {
                    old_tally[q - 1]
                } by {}
                assert(tally@[p as int].value@ == fv);
                assert forall|q: int| p <= q < old_tally.len() implies facet_order(
                    fv,
                    (#[trigger] old_tally[q]).value@,
                ) == Order::Less by {
                    if q > p {
                        lemma_facet_order(fv, old_tally[p as int].value@, old_tally[q].value@);
                    }
                }
                assert forall|i: int, j: int| 0 <= i < j < tally@.len() implies facet_order(
                    (#[trigger] tally@[i]).value@,
                    (#[trigger] tally@[j]).value@,
                ) == Order::Less by {
                    if j < p {
                    } else if j == p {
                        lemma_facet_order(fv, old_tally[i].value@, fv);
                    } else if i < p {
                        assert(old_tally[i].value@ == tally@[i].value@);
                        assert(old_tally[j - 1].value@ == tally@[j].value@);
                    } else if i == p {
                        assert(old_tally[j - 1].value@ == tally@[j].value@);
                    } else {
                        assert(old_tally[i - 1].value@ == tally@[i].value@);
                        assert(old_tally[j - 1].value@ == tally@[j].value@);
                    }
                }
                assert(!has_facet(pre, pane, fv)) by {
                    if has_facet(pre, pane, fv) {
                        let i = choose|i: int| 0 <= i < old_tally.len() && (#[trigger] old_tally[i]).value@ == fv;
                        if i >= p {
                            lemma_facet_order(fv, old_tally[i].value@, fv);
                        }
                    }
                }
                assert(facet_count(pre, pane, fv) == 0) by {
                    lemma_count_absent(pre, pane, fv);
                }
                assert forall|i: int| 0 <= i < tally@.len() implies (#[trigger] tally@[i]).count
                    == facet_count(next, pane, tally@[i].value@) && tally@[i].count <= k + 1 by {
                    if i < p {
                        assert(tally@[i] == old_tally[i]);
                    } else if i > p {
                        assert(tally@[i] == old_tally[i - 1]);
                        lemma_facet_order(fv, old_tally[i - 1].value@, fv);
                    }
                }
                assert forall|v2: Seq<char>| has_facet(next, pane, v2) <==> exists|i: int|
                    0 <= i < tally@.len() && (#[trigger] tally@[i]).value@ == v2 by {
                    if has_facet(next, pane, v2) {
                        let t = choose|t: int| 0 <= t < next.len() && facet(*next[t], pane) == v2;
                        if t < k {
                            assert(pre[t] == next[t]);
                            assert(has_facet(pre, pane, v2));
                            let i = choose|i: int| 0 <= i < old_tally.len() && (#[trigger] old_tally[i]).value@ == v2;
                            if i < p {
                                assert(tally@[i].value@ == v2);
                            } else {
                                assert(tally@[i + 1].value@ == v2);
                            }
                        } else {
                            assert(tally@[p as int].value@ == v2);
                        }
                    }
                    if exists|i: int| 0 <= i < tally@.len() && (#[trigger] tally@[i]).value@ == v2 {
                        let i = choose|i: int| 0 <= i < tally@.len() && (#[trigger] tally@[i]).value@ == v2;
                        if i == p {
                            assert(facet(*next[k as int], pane) == v2);
                        } else {
                            if i < p {
                                assert(old_tally[i].value@ == v2);
                            } else {
                                assert(old_tally[i - 1].value@ == v2);
                            }
                            assert(has_facet(pre, pane, v2));
                            let t = choose|t: int| 0 <= t < pre.len() && facet(*pre[t], pane) == v2;
                            assert(next[t] == pre[t]);
                        }
                    }
                }
            }
        }
        k = k + 1;
    }
    proof {
        assert(tracks@.take(n as int) =~= tracks@);
    }
    let mut r: Vec<FacetEntry> = Vec::new();
    r.push(FacetEntry { value: None, count: n });
    let mut i: usize = 0;
    while i < tally.len()
        invariant
            i <= tally@.len(),
            r@.len() == i + 1,
            r@[0].value is None,
            r@[0].count == n,
            forall|q: int|
                1 <= q < r@.len() ==> (#[trigger] r@[q]).value is Some && r@[q].value.unwrap()@
                    == tally@[q - 1].value@ && r@[q].count == tally@[q - 1].count,
        decreases tally@.len() - i,
    {
        r.push(FacetEntry { value: Some(tally[i].value.clone()), count: tally[i].count });
        i = i + 1;
    }
    proof {
        assert forall|v: Seq<char>| has_facet(tracks@, pane, v) <==> exists|q: int|
            1 <= q < r@.len() && (#[trigger] r@[q]).value.unwrap()@ == v by {
            if has_facet(tracks@, pane, v) {
                let j = choose|j: int| 0 <= j < tally@.len() && (#[trigger] tally@[j]).value@ == v;
                assert(r@[j + 1].value.unwrap()@ == v);
            }
            if exists|q: int| 1 <= q < r@.len() && (#[trigger] r@[q]).value.unwrap()@ == v {
                let q = choose|q: int| 1 <= q < r@.len() && (#[trigger] r@[q]).value.unwrap()@ == v;
                assert(tally@[q - 1].value@ == v);
            }
        }
        assert forall|a: int, b: int| 1 <= a < b < r@.len() implies facet_order(
            (#[trigger] r@[a]).value.unwrap()@,
            (#[trigger] r@[b]).value.unwrap()@,
        ) == Order::Less by {
            assert(tally@[a - 1].value@ == r@[a].value.unwrap()@);
            assert(tally@[b - 1].value@ == r@[b].value.unwrap()@);
        }
    }
    r
}

/// A value no track carries is counted zero times.
proof fn lemma_count_absent(ts: Seq<&TrackInfo>, pane: Pane, v: Seq<char>)
    requires
        !has_facet(ts, pane, v),
    ensures
        facet_count(ts, pane, v) == 0,
    decreases ts.len(),
{
    if ts.len() > 0 {
        assert(facet(*ts[ts.len() - 1], pane) != v);
        assert forall|i: int| 0 <= i < ts.drop_last().len() implies facet(
            *ts.drop_last()[i],
            pane,
        ) != v by {
            assert(ts.drop_last()[i] == ts[i]);
        }
        lemma_count_absent(ts.drop_last(), pane, v);
    }
}

/// The facet values of the pane rows, without the "All" row, in row order.
pub fn values(entries: &Vec<FacetEntry>) -> (r: Vec<String>)
    ensures
        r@.len() == entries@.filter(|e: FacetEntry| e.value is Some).len(),
        forall|i: int|
            0 <= i < r@.len() ==> (#[trigger] r@[i])@ == entries@.filter(
                |e: FacetEntry| e.value is Some,
            )[i].value.unwrap()@,
{
    let ghost keep = |e: FacetEntry| e.value is Some;
    let mut r: Vec<String> = Vec::new();
    let mut i: usize = 0;
    while i < entries.len()
        invariant
            i <= entries@.len(),
            keep == (|e: FacetEntry| e.value is Some),
            r@.len() == entries@.take(i as int).filter(keep).len(),
            forall|q: int|
                0 <= q < r@.len() ==> (#[trigger] r@[q])@ == entries@.take(i as int).filter(
                    keep,
                )[q].value.unwrap()@,
        decreases entries@.len() - i,
    {
        proof {
            assert(entries@.take(i + 1).drop_last() =~= entries@.take(i as int));
            reveal_with_fuel(Seq::filter, 1);
        }
        match &entries[i].value {
            Some(v) => {
                r.push(v.clone());
            },
            None => {},
        }
        i = i + 1;
    }
    proof {
        assert(entries@.take(entries@.len() as int) =~= entries@);
    }
    r
}

/// The three pane selections of the column browser.
#[derive(Debug, Clone, Default)]
pub struct ColumnBrowserState {
    pub genres: PaneSelection,
    pub artists: PaneSelection,
    pub albums: PaneSelection,
}

/// Whether a selection lets `v` through: everything passes "All".
pub open spec fn passes(selection: Set<Seq<char>>, v: Seq<char>) -> bool {
    selection == Set::<Seq<char>>::empty() || selection.contains(v)
}

impl ColumnBrowserState {
    /// Whether `track` passes all three panes: its genre, artist and album
    /// each pass their pane's selection.
    pub fn matches(&self, track: &TrackInfo) -> (r: bool)
        ensures
            r == (passes(self.genres@, track.genre@) && passes(self.artists@, track.artist@)
                && passes(self.albums@, track.album@)),
    {
        self.genres.matches(track.genre.as_str()) && self.artists.matches(track.artist.as_str())
            && self.albums.matches(track.album.as_str())
    }
}

impl ColumnBrowserState {
    /// Whether both browsers select the same values in every pane.
    pub fn same_as(&self, other: &ColumnBrowserState) -> (r: bool)
        ensures
            r == (self.genres@ == other.genres@ && self.artists@ == other.artists@
                && self.albums@ == other.albums@),
    {
        self.genres.same_as(&other.genres) && self.artists.same_as(&other.artists)
            && self.albums.same_as(&other.albums)
    }
}

} // verus!
