//! The Music view: the library tracks that pass the column browser and the
//! live search, the "Shuffle all" command over them, the count label, and
//! when the table is rebuilt.

use vstd::prelude::*;

use crate::column_browser::{passes, ColumnBrowserState};
use crate::commands::Command;
use crate::library::TrackInfo;
use crate::text::{decimal, decimal_string, lemma_decimal_reads_back, read_decimal};

verus! {

/// Whether `t` passes the three pane selections `g`, `a`, `al`.
pub open spec fn browses(t: TrackInfo, g: Set<Seq<char>>, a: Set<Seq<char>>, al: Set<Seq<char>>) -> bool {
    passes(g, t.genre@) && passes(a, t.artist@) && passes(al, t.album@)
}

/// The tracks of `tracks` that pass the panes and whose search hit is set,
/// in library order.
pub open spec fn visible_of(
    tracks: Seq<TrackInfo>,
    hits: Seq<bool>,
    g: Set<Seq<char>>,
    a: Set<Seq<char>>,
    al: Set<Seq<char>>,
) -> Seq<TrackInfo>
    decreases tracks.len(),
{
    if tracks.len() == 0 {
        Seq::empty()
    } else {
        let rest = visible_of(tracks.drop_last(), hits.take(tracks.len() - 1), g, a, al);
        if browses(tracks.last(), g, a, al) && hits[tracks.len() - 1] {
            rest.push(tracks.last())
        } else {
            rest
        }
    }
}

/// The library tracks the Music view shows: those passing the column browser
/// and the live search (`search_hits[i]` tells whether the search matches
/// `tracks[i]`), in library order.
pub fn visible_tracks<'a>(
    tracks: &'a [TrackInfo],
    browser: &ColumnBrowserState,
    search_hits: &[bool],
) -> (r: Vec<&'a TrackInfo>)
    requires
        search_hits@.len() == tracks@.len(),
    ensures
        r@.map_values(|t: &TrackInfo| *t) == visible_of(
            tracks@,
            search_hits@,
            browser.genres@,
            browser.artists@,
            browser.albums@,
        ),
{
    let mut r: Vec<&'a TrackInfo> = Vec::new();
    let mut i: usize = 0;
    while i < tracks.len()
        invariant
            i <= tracks@.len(),
            search_hits@.len() == tracks@.len(),
            r@.map_values(|t: &TrackInfo| *t) == visible_of(
                tracks@.take(i as int),
                search_hits@.take(i as int),
                browser.genres@,
                browser.artists@,
                browser.albums@,
            ),
        decreases tracks@.len() - i,
    {
        let t = &tracks[i];
        let keep = browser.matches(t) && search_hits[i];
        proof {
            let ti = tracks@.take(i + 1);
            assert(ti.drop_last() =~= tracks@.take(i as int));
            assert(search_hits@.take(i + 1).take(i as int) =~= search_hits@.take(i as int));
            assert(ti.last() == tracks@[i as int]);
        }
        if keep {
            r.push(t);
        }
        proof {
            assert(r@.map_values(|t: &TrackInfo| *t) =~= visible_of(
                tracks@.take(i + 1),
                search_hits@.take(i + 1),
                browser.genres@,
                browser.artists@,
                browser.albums@,
            ));
        }
        i = i + 1;
    }
    proof {
        assert(tracks@.take(tracks@.len() as int) =~= tracks@);
        assert(search_hits@.take(tracks@.len() as int) =~= search_hits@);
    }
    r
}

/// The ids of `ts`, in order.
pub open spec fn ids_of(ts: Seq<&TrackInfo>) -> Seq<u64> {
    ts.map_values(|t: &TrackInfo| t.id)
}

/// The command to shuffle-play the tracks currently visible in the table
/// (the "Shuffle all" button), announced as "Music".
pub fn shuffle_all(visible: &[&TrackInfo]) -> (c: Command)
    ensures
        c matches Command::ShuffleScope { ids, label } && ids@ == ids_of(visible@) && label@
            == "Music"@,
{
    let mut ids: Vec<u64> = Vec::new();
    let mut i: usize = 0;
    while i < visible.len()
        invariant
            i <= visible@.len(),
            ids@ == ids_of(visible@.take(i as int)),
        decreases visible@.len() - i,
    {
        ids.push(visible[i].id);
        proof {
            assert(ids_of(visible@.take(i + 1)) =~= ids_of(visible@.take(i as int)).push(
                visible@[i as int].id,
            ));
        }
        i = i + 1;
    }
    proof {
        assert(visible@.take(visible@.len() as int) =~= visible@);
    }
    Command::ShuffleScope { ids, label: "Music".to_string() }
}

/// The header label: "N tracks".
pub fn tracks_label(count: usize) -> (s: String)
    ensures
        s@ == decimal(count as nat) + " tracks"@,
        read_decimal(s@.take(s@.len() - 7)) == count,
        s@.skip(s@.len() - 7) == " tracks"@,
{
    proof {
        reveal_strlit(" tracks");
        lemma_decimal_reads_back(count as nat);
        let t = decimal(count as nat) + " tracks"@;
        assert(t.take(t.len() - 7) =~= decimal(count as nat));
        assert(t.skip(t.len() - 7) =~= " tracks"@);
    }
    let mut s = decimal_string(count as u64);
    s.append(" tracks");
    s
}

/// What the table was built from; it is only rebuilt when this changes.
pub struct MusicSignature {
    pub track_count: usize,
    pub scan: bool,
    pub search_active: bool,
    pub search_count: Option<usize>,
    pub browser: ColumnBrowserState,
}

/// Whether two signatures agree: the same counts and flags, and the same
/// selections in every pane.
pub open spec fn same_signature(a: MusicSignature, b: MusicSignature) -> bool {
    &&& a.track_count == b.track_count
    &&& a.scan == b.scan
    &&& a.search_active == b.search_active
    &&& a.search_count == b.search_count
    &&& same_browser(a.browser, b.browser)
}

/// Whether two browsers select the same values in every pane.
pub open spec fn same_browser(a: ColumnBrowserState, b: ColumnBrowserState) -> bool {
    a.genres@ == b.genres@ && a.artists@ == b.artists@ && a.albums@ == b.albums@
}

/// Whether the table must be rebuilt for `current`: only when it differs
/// from what the table was built from, and then only when the library or the
/// search changed, or the browser did (or nothing was built yet).
pub fn rebuild_due(
    previous: &Option<MusicSignature>,
    current: &MusicSignature,
    library_or_search_changed: bool,
) -> (r: bool)
    ensures
        r == match previous {
            None => true,
            Some(p) => !same_signature(*p, *current) && (library_or_search_changed
                || !same_browser(p.browser, current.browser)),
        },
{
    match previous {
        None => true,
        Some(p) => {
            let browser_same = p.browser.same_as(&current.browser);
            let stale = !(p.track_count == current.track_count && p.scan == current.scan
                && p.search_active == current.search_active && p.search_count
                == current.search_count && browser_same);
            stale && (library_or_search_changed || !browser_same)
        },
    }
}

/// The Music view's state: what its table was last built from.
pub struct MusicView {
    pub signature: Option<MusicSignature>,
}

impl MusicView {
    /// Nothing built yet.
    pub fn new() -> (v: Self)
        ensures
            v.signature is None,
    {
        MusicView { signature: None }
    }

    /// Decides whether this sync rebuilds the table for `current`, and
    /// records `current` as what the table is built from when it does.
    pub fn sync(&mut self, current: MusicSignature, library_or_search_changed: bool) -> (rebuild: bool)
        ensures
            rebuild == match old(self).signature {
                None => true,
                Some(p) => !same_signature(p, current) && (library_or_search_changed
                    || !same_browser(p.browser, current.browser)),
            },
            rebuild ==> final(self).signature == Some(current),
            !rebuild ==> final(self).signature == old(self).signature,
    {
        let rebuild = rebuild_due(&self.signature, &current, library_or_search_changed);
        if rebuild {
            self.signature = Some(current);
        }
        rebuild
    }
}

} // verus!
