//! Album identity, ordering and track matching for the album grid.
//!
//! Kept apart from the grid's drawing so the ordering and track rules stand
//! on their own: albums sort by artist, name, year or recency, always
//! case-insensitively by name; an album's tracks come in disc/track order.

use vstd::prelude::*;

use crate::library::{AlbumInfo, TrackInfo};
use crate::sort::{
    SortKey, is_permutation, key_order, lemma_key_order, num_order, stable_order, stably_sorted,
};
use crate::text::{Order, chars_of, ci, lowered, str_eq};

verus! {

/// An album's identity: its name and album artist.
#[derive(Debug, Clone)]
pub struct AlbumKey {
    pub name: String,
    pub artist: String,
}

/// A key as a pair of character sequences.
pub open spec fn key_view(k: AlbumKey) -> (Seq<char>, Seq<char>) {
    (k.name@, k.artist@)
}

/// The key of a track's album: its album and artist tags, or none for a
/// track without an album tag.
pub open spec fn track_key(t: TrackInfo) -> Option<(Seq<char>, Seq<char>)> {
    if t.album@.len() == 0 {
        None
    } else {
        Some((t.album@, t.artist@))
    }
}

impl AlbumKey {
    /// The key of `album`.
    pub fn of(album: &AlbumInfo) -> (k: AlbumKey)
        ensures
            key_view(k) == (album.name@, album.artist@),
    {
        AlbumKey { name: album.name.clone(), artist: album.artist.clone() }
    }

    /// The key of the album `track` belongs to, if it has an album tag.
    pub fn of_track(track: &TrackInfo) -> (k: Option<AlbumKey>)
        ensures
            match k {
                Some(k) => track_key(*track) == Some(key_view(k)),
                None => track_key(*track) is None,
            },
    {
        if track.album.as_str().is_empty() {
            None
        } else {
            Some(AlbumKey { name: track.album.clone(), artist: track.artist.clone() })
        }
    }
}

/// The album grid's sort modes.
#[derive(Debug, Clone, Copy, PartialEq, Eq, Structural)]
pub enum AlbumSort {
    Artist,
    Album,
    Year,
    RecentlyAdded,
}

impl AlbumSort {
    /// The menu label of the mode.
    pub fn label(self) -> (s: &'static str)
        ensures
            s@ == match self {
                AlbumSort::Artist => "Artist"@,
                AlbumSort::Album => "Album"@,
                AlbumSort::Year => "Year"@,
                AlbumSort::RecentlyAdded => "Recently added"@,
            },
    {
        match self {
            AlbumSort::Artist => "Artist",
            AlbumSort::Album => "Album",
            AlbumSort::Year => "Year",
            AlbumSort::RecentlyAdded => "Recently added",
        }
    }
}

/// Per-album metadata derived from the track list: where to read cover art
/// from and the newest track id, which approximates "recently added".
#[derive(Debug, Clone)]
pub struct AlbumMeta {
    pub art_path: String,
    pub latest_track_id: u64,
}

/// The metadata a scan of `ts` gathers: per album key, the path of its first
/// track and the largest track id among its tracks.
pub open spec fn meta_spec(ts: Seq<TrackInfo>) -> Map<(Seq<char>, Seq<char>), (Seq<char>, u64)>
    decreases ts.len(),
{
    if ts.len() == 0 {
        Map::empty()
    } else {
        let m = meta_spec(ts.drop_last());
        let t = ts.last();
        match track_key(t) {
            None => m,
            Some(k) => if m.contains_key(k) {
                m.insert(k, (m[k].0, if m[k].1 >= t.id { m[k].1 } else { t.id }))
            } else {
                m.insert(k, (t.path@, t.id))
            },
        }
    }
}

/// Whether track `t` belongs to the album keyed `k`.
pub open spec fn keyed(t: TrackInfo, k: (Seq<char>, Seq<char>)) -> bool {
    track_key(t) == Some(k)
}

/// The album index of `ts` holds exactly the albums of its tagged tracks;
/// each album's newest id is the largest id among its tracks (one of them
/// has it), and its cover path is the path of its first track.
pub proof fn lemma_album_index(ts: Seq<TrackInfo>, k: (Seq<char>, Seq<char>))
    ensures
        meta_spec(ts).contains_key(k) <==> exists|i: int| 0 <= i < ts.len() && #[trigger] keyed(ts[i], k),
        meta_spec(ts).contains_key(k) ==> {
            let e = meta_spec(ts)[k];
            &&& forall|i: int| 0 <= i < ts.len() && #[trigger] keyed(ts[i], k) ==> ts[i].id <= e.1
            &&& exists|j: int| 0 <= j < ts.len() && #[trigger] keyed(ts[j], k) && ts[j].id == e.1
            &&& exists|j: int|
                0 <= j < ts.len() && #[trigger] keyed(ts[j], k) && ts[j].path@ == e.0 && forall|
                    q: int,
                | 0 <= q < j ==> !#[trigger] keyed(ts[q], k)
        },
    decreases ts.len(),
{
    if ts.len() > 0 {
        let init = ts.drop_last();
        let t = ts.last();
        let n = ts.len() - 1;
        lemma_album_index(init, k);
        assert forall|i: int| 0 <= i < init.len() implies init[i] == ts[i] by {}
        let m0 = meta_spec(init);
        if keyed(t, k) {
            if m0.contains_key(k) {
                let e0 = m0[k];
                let j1 = choose|j: int| 0 <= j < init.len() && #[trigger] keyed(init[j], k) && init[j].id == e0.1;
                let j2 = choose|j: int|
                    0 <= j < init.len() && #[trigger] keyed(init[j], k) && init[j].path@ == e0.0
                        && forall|q: int| 0 <= q < j ==> !#[trigger] keyed(init[q], k);
                assert(keyed(ts[j2], k));
                assert forall|q: int| 0 <= q < j2 implies !#[trigger] keyed(ts[q], k) by {
                    assert(!keyed(init[q], k));
                }
                if e0.1 >= t.id {
                    assert(keyed(ts[j1], k) && ts[j1].id == e0.1);
                } else {
                    assert(keyed(ts[n], k));
                }
                assert forall|i: int| 0 <= i < ts.len() && #[trigger] keyed(ts[i], k) implies ts[i].id
                    <= meta_spec(ts)[k].1 by {
                    if i < n {
                        assert(keyed(init[i], k));
                    }
                }
            } else {
                assert(keyed(ts[n], k));
                assert forall|q: int| 0 <= q < n implies !#[trigger] keyed(ts[q], k) by {
                    if keyed(ts[q], k) {
                        assert(keyed(init[q], k));
                    }
                }
                assert forall|i: int| 0 <= i < ts.len() && #[trigger] keyed(ts[i], k) implies ts[i].id
                    <= meta_spec(ts)[k].1 by {
                    if i < n {
                        assert(keyed(init[i], k));
                    }
                }
            }
        } else {
            assert(meta_spec(ts).contains_key(k) == m0.contains_key(k));
            assert(meta_spec(ts).contains_key(k) ==> meta_spec(ts)[k] == m0[k]);
            if m0.contains_key(k) {
                let e0 = m0[k];
                let j1 = choose|j: int| 0 <= j < init.len() && #[trigger] keyed(init[j], k) && init[j].id == e0.1;
                assert(keyed(ts[j1], k));
                let j2 = choose|j: int|
                    0 <= j < init.len() && #[trigger] keyed(init[j], k) && init[j].path@ == e0.0
                        && forall|q: int| 0 <= q < j ==> !#[trigger] keyed(init[q], k);
                assert(keyed(ts[j2], k));
                assert forall|q: int| 0 <= q < j2 implies !#[trigger] keyed(ts[q], k) by {
                    assert(!keyed(init[q], k));
                }
                assert forall|i: int| 0 <= i < ts.len() && #[trigger] keyed(ts[i], k) implies ts[i].id
                    <= meta_spec(ts)[k].1 by {
                    if i < n {
                        assert(keyed(init[i], k));
                    }
                }
            }
            if exists|i: int| 0 <= i < ts.len() && #[trigger] keyed(ts[i], k) {
                let i = choose|i: int| 0 <= i < ts.len() && #[trigger] keyed(ts[i], k);
                assert(i < n);
                assert(keyed(init[i], k));
            }
        }
    }
}

/// The map an index of albums stands for.
pub open spec fn meta_view(m: Seq<(AlbumKey, AlbumMeta)>) -> Map<
    (Seq<char>, Seq<char>),
    (Seq<char>, u64),
>
    decreases m.len(),
{
    if m.len() == 0 {
        Map::empty()
    } else {
        meta_view(m.drop_last()).insert(
            key_view(m.last().0),
            (m.last().1.art_path@, m.last().1.latest_track_id),
        )
    }
}

/// Whether no album key occurs twice in the index.
pub open spec fn distinct_keys(m: Seq<(AlbumKey, AlbumMeta)>) -> bool {
    forall|i: int, j: int| 0 <= i < j < m.len() ==> key_view(m[i].0) != key_view(m[j].0)
}

/// In an index without repeated keys, each entry is what the map holds for
/// its key, and the map holds nothing else.
proof fn lemma_meta_view(m: Seq<(AlbumKey, AlbumMeta)>)
    requires
        distinct_keys(m),
    ensures
        forall|i: int|
            0 <= i < m.len() ==> #[trigger] meta_view(m).contains_key(key_view(m[i].0))
                && meta_view(m)[key_view(m[i].0)] == (m[i].1.art_path@, m[i].1.latest_track_id),
        forall|k: (Seq<char>, Seq<char>)|
            #[trigger] meta_view(m).contains_key(k) ==> exists|i: int|
                0 <= i < m.len() && key_view(m[i].0) == k,
    decreases m.len(),
{
    if m.len() > 0 {
        let init = m.drop_last();
        assert(distinct_keys(init)) by {
            assert forall|i: int, j: int| 0 <= i < j < init.len() implies key_view(init[i].0)
                != key_view(init[j].0) by {
                assert(init[i] == m[i] && init[j] == m[j]);
            }
        }
        lemma_meta_view(init);
        assert forall|i: int| 0 <= i < m.len() implies #[trigger] meta_view(m).contains_key(
            key_view(m[i].0),
        ) && meta_view(m)[key_view(m[i].0)] == (m[i].1.art_path@, m[i].1.latest_track_id) by {
            if i < m.len() - 1 {
                assert(init[i] == m[i]);
                assert(meta_view(init).contains_key(key_view(init[i].0)));
                assert(key_view(m[i].0) != key_view(m.last().0));
            }
        }
        assert forall|k: (Seq<char>, Seq<char>)| #[trigger] meta_view(m).contains_key(k) implies exists|
            i: int,
        | 0 <= i < m.len() && key_view(m[i].0) == k by {
            if k != key_view(m.last().0) {
                assert(meta_view(init).contains_key(k));
                let i = choose|i: int| 0 <= i < init.len() && key_view(init[i].0) == k;
                assert(m[i] == init[i]);
            } else {
                assert(key_view(m[m.len() - 1].0) == k);
            }
        }
    }
}

/// Replacing an entry's metadata (same key) updates the map at that key.
proof fn lemma_meta_view_update(m: Seq<(AlbumKey, AlbumMeta)>, p: int, x: (AlbumKey, AlbumMeta))
    requires
        0 <= p < m.len(),
        key_view(x.0) == key_view(m[p].0),
        distinct_keys(m),
    ensures
        meta_view(m.update(p, x)) == meta_view(m).insert(
            key_view(x.0),
            (x.1.art_path@, x.1.latest_track_id),
        ),
    decreases m.len(),
{
    let u = m.update(p, x);
    if p == m.len() - 1 {
        assert(u.drop_last() =~= m.drop_last());
        assert(meta_view(u) =~= meta_view(m).insert(
            key_view(x.0),
            (x.1.art_path@, x.1.latest_track_id),
        ));
    } else {
        let init = m.drop_last();
        assert(distinct_keys(init)) by {
            assert forall|i: int, j: int| 0 <= i < j < init.len() implies key_view(init[i].0)
                != key_view(init[j].0) by {
                assert(init[i] == m[i] && init[j] == m[j]);
            }
        }
        lemma_meta_view_update(init, p, x);
        assert(u.drop_last() =~= init.update(p, x));
        assert(key_view(x.0) != key_view(m.last().0));
        assert(u.last() == m.last());
        assert(meta_view(u) =~= meta_view(m).insert(
            key_view(x.0),
            (x.1.art_path@, x.1.latest_track_id),
        ));
    }
}

/// Where `key` sits in the index, if it is there.
fn find_key(m: &Vec<(AlbumKey, AlbumMeta)>, name: &String, artist: &String) -> (r: Option<usize>)
    ensures
        match r {
            Some(i) => i < m@.len() && key_view(m@[i as int].0) == (name@, artist@),
            None => forall|i: int| 0 <= i < m@.len() ==> key_view(m@[i].0) != (name@, artist@),
        },
{
    let mut i: usize = 0;
    while i < m.len()
        invariant
            i <= m@.len(),
            forall|q: int| 0 <= q < i ==> key_view(m@[q].0) != (name@, artist@),
        decreases m@.len() - i,
    {
        if str_eq(m[i].0.name.as_str(), name.as_str()) && str_eq(
            m[i].0.artist.as_str(),
            artist.as_str(),
        ) {
            return Some(i);
        }
        i = i + 1;
    }
    None
}

/// The per-album index: each album key once, with its cover path and its
/// newest track id.
pub struct AlbumIndex {
    entries: Vec<(AlbumKey, AlbumMeta)>,
}

impl AlbumIndex {
    #[verifier::type_invariant]
    closed spec fn well_formed(self) -> bool {
        distinct_keys(self.entries@)
    }

    /// The index as a map from (album, artist) to (cover path, newest
    /// track id).
    pub closed spec fn map(&self) -> Map<(Seq<char>, Seq<char>), (Seq<char>, u64)> {
        meta_view(self.entries@)
    }
}

/// The index's entries, gathered in a single pass over the tracks, each
/// album key once.
fn album_entries(tracks: &Vec<TrackInfo>) -> (m: Vec<(AlbumKey, AlbumMeta)>)
    ensures
        distinct_keys(m@),
        meta_view(m@) == meta_spec(tracks@),
{
    let mut m: Vec<(AlbumKey, AlbumMeta)> = Vec::new();
    let mut k: usize = 0;
    while k < tracks.len()
        invariant
            k <= tracks@.len(),
            distinct_keys(m@),
            meta_view(m@) == meta_spec(tracks@.take(k as int)),
        decreases tracks@.len() - k,
    {
        let track = &tracks[k];
        proof {
            assert(tracks@.take(k + 1).drop_last() =~= tracks@.take(k as int));
            lemma_meta_view(m@);
        }
        match AlbumKey::of_track(track) {
            None => {},
            Some(key) => {
                match find_key(&m, &key.name, &key.artist) {
                    Some(p) => {
                        let old_id = m[p].1.latest_track_id;
                        let latest = if old_id >= track.id {
                            old_id
                        } else {
                            track.id
                        };
                        let entry = (
                            key,
                            AlbumMeta { art_path: m[p].1.art_path.clone(), latest_track_id: latest },
                        );
                        proof {
                            lemma_meta_view_update(m@, p as int, entry);
                        }
                        let ghost before = m@;
                        m.set(p, entry);
                        proof {
                            assert forall|i: int, j: int| 0 <= i < j < m@.len() implies key_view(
                                m@[i].0,
                            ) != key_view(m@[j].0) by {
                                assert(key_view(m@[i].0) == key_view(before[i].0));
                                assert(key_view(m@[j].0) == key_view(before[j].0));
                            }
                        }
                    },
                    None => {
                        let entry = (
                            key,
                            AlbumMeta { art_path: track.path.clone(), latest_track_id: track.id },
                        );
                        let ghost before = m@;
                        m.push(entry);
                        proof {
                            assert(m@.drop_last() =~= before);
                            assert(!meta_view(before).contains_key(key_view(entry.0))) by {
                                if meta_view(before).contains_key(key_view(entry.0)) {
                                    let i = choose|i: int| 0 <= i < before.len() && key_view(before[i].0) == key_view(entry.0);
                                }
                            }
                        }
                    },
                }
            },
        }
        k = k + 1;
    }
    proof {
        assert(tracks@.take(tracks@.len() as int) =~= tracks@);
    }
    m
}

/// The recency of an album: its newest track id, or 0 when the index does
/// not know it.
pub open spec fn recency(mm: Map<(Seq<char>, Seq<char>), (Seq<char>, u64)>, a: AlbumInfo) -> u64 {
    if mm.contains_key((a.name@, a.artist@)) {
        mm[(a.name@, a.artist@)].1
    } else {
        0
    }
}

/// The rank of a release year: untagged albums below every tagged one.
pub open spec fn year_rank(y: Option<u32>) -> u64 {
    match y {
        None => 0,
        Some(y) => (y + 1) as u64,
    }
}

/// Artist, then album name, both case-insensitively.
pub open spec fn by_artist(a: AlbumInfo, b: AlbumInfo) -> Order {
    ci(a.artist@, b.artist@).tie_break(ci(a.name@, b.name@))
}

/// The order of two albums in `sort` mode: by artist; by name; newest year
/// first; or newest track first — each falling back to artist then name.
pub open spec fn album_order(
    a: AlbumInfo,
    b: AlbumInfo,
    sort: AlbumSort,
    mm: Map<(Seq<char>, Seq<char>), (Seq<char>, u64)>,
) -> Order {
    match sort {
        AlbumSort::Artist => by_artist(a, b),
        AlbumSort::Album => ci(a.name@, b.name@).tie_break(ci(a.artist@, b.artist@)),
        AlbumSort::Year => num_order(year_rank(b.year), year_rank(a.year)).tie_break(
            by_artist(a, b),
        ),
        AlbumSort::RecentlyAdded => num_order(recency(mm, b), recency(mm, a)).tie_break(
            by_artist(a, b),
        ),
    }
}

/// The recency `compare` reads from the index for `album`.
fn recency_of(meta: &Vec<(AlbumKey, AlbumMeta)>, album: &AlbumInfo) -> (r: u64)
    requires
        distinct_keys(meta@),
    ensures
        r == recency(meta_view(meta@), *album),
{
    proof {
        lemma_meta_view(meta@);
    }
    match find_key(meta, &album.name, &album.artist) {
        Some(p) => meta[p].1.latest_track_id,
        None => {
            proof {
                if meta_view(meta@).contains_key((album.name@, album.artist@)) {
                    let i = choose|i: int| 0 <= i < meta@.len() && key_view(meta@[i].0) == (album.name@, album.artist@);
                }
            }
            0
        },
    }
}

/// The sort key that orders albums as `album_order` does.
fn album_key(album: &AlbumInfo, sort: AlbumSort, meta: &Vec<(AlbumKey, AlbumMeta)>) -> (k: SortKey)
    requires
        distinct_keys(meta@),
    ensures
        album_key_spec(*album, sort, meta_view(meta@), k),
{
    let artist = lowered(album.artist.as_str());
    let name = lowered(album.name.as_str());
    match sort {
        AlbumSort::Artist => SortKey { major: 0, minor: 0, first: artist, second: name },
        AlbumSort::Album => SortKey { major: 0, minor: 0, first: name, second: artist },
        AlbumSort::Year => {
            let rank: u64 = match album.year {
                None => 0,
                Some(y) => y as u64 + 1,
            };
            SortKey { major: u64::MAX - rank, minor: 0, first: artist, second: name }
        },
        AlbumSort::RecentlyAdded => {
            let id = recency_of(meta, album);
            SortKey { major: u64::MAX - id, minor: 0, first: artist, second: name }
        },
    }
}

/// Whether `k` is the sort key of album `a` in `sort` mode.
pub open spec fn album_key_spec(
    a: AlbumInfo,
    sort: AlbumSort,
    mm: Map<(Seq<char>, Seq<char>), (Seq<char>, u64)>,
    k: SortKey,
) -> bool {
    let artist = crate::text::lower_seq(a.artist@);
    let name = crate::text::lower_seq(a.name@);
    &&& k.minor == 0
    &&& match sort {
        AlbumSort::Artist => k.major == 0 && k.first@ == artist && k.second@ == name,
        AlbumSort::Album => k.major == 0 && k.first@ == name && k.second@ == artist,
        AlbumSort::Year => k.major == u64::MAX - year_rank(a.year) && k.first@ == artist
            && k.second@ == name,
        AlbumSort::RecentlyAdded => k.major == u64::MAX - recency(mm, a) && k.first@ == artist
            && k.second@ == name,
    }
}

/// Builds the per-album art/recency index in a single pass over the tracks:
/// each album with an album tag maps to its first track's path and its
/// largest track id.
pub fn album_meta(tracks: &Vec<TrackInfo>) -> (m: AlbumIndex)
    ensures
        m.map() == meta_spec(tracks@),
{
    AlbumIndex { entries: album_entries(tracks) }
}

/// Orders two albums for a given sort mode.
pub fn compare(a: &AlbumInfo, b: &AlbumInfo, sort: AlbumSort, meta: &AlbumIndex) -> (o: Order)
    ensures
        o == album_order(*a, *b, sort, meta.map()),
{
    proof {
        use_type_invariant(meta);
    }
    let ka = album_key(a, sort, &meta.entries);
    let kb = album_key(b, sort, &meta.entries);
    proof {
        lemma_album_key_order(*a, *b, sort, meta_view(meta.entries@), ka, kb);
    }
    crate::sort::key_compare(&ka, &kb)
}

/// Albums in the given sort order: a stable sort of `albums` by
/// `album_order`.
pub fn sorted_albums<'a>(albums: &'a Vec<AlbumInfo>, meta: &AlbumIndex, sort: AlbumSort) -> (r: Vec<&'a AlbumInfo>)
    ensures
        exists|idx: Seq<usize>|
            {
                &&& #[trigger] is_permutation(idx, albums@.len())
                &&& r@.len() == idx.len()
                &&& forall|i: int| 0 <= i < idx.len() ==> *r@[i] == albums@[#[trigger] idx[i] as int]
                &&& forall|i: int, j: int|
                    0 <= i < j < idx.len() ==> {
                        let o = album_order(
                            albums@[#[trigger] idx[i] as int],
                            albums@[#[trigger] idx[j] as int],
                            sort,
                            meta.map(),
                        );
                        o == Order::Less || (o == Order::Equal && idx[i] < idx[j])
                    }
            },
{
    proof {
        use_type_invariant(meta);
    }
    let entries = &meta.entries;
    let ghost mm = meta_view(entries@);
    let mut keys: Vec<SortKey> = Vec::new();
    let mut i: usize = 0;
    while i < albums.len()
        invariant
            i <= albums@.len(),
            distinct_keys(entries@),
            mm == meta_view(entries@),
            keys@.len() == i,
            forall|q: int| 0 <= q < i ==> album_key_spec(albums@[q], sort, mm, #[trigger] keys@[q]),
        decreases albums@.len() - i,
    {
        keys.push(album_key(&albums[i], sort, entries));
        i = i + 1;
    }
    let idx = stable_order(&keys);
    let mut r: Vec<&'a AlbumInfo> = Vec::new();
    let mut j: usize = 0;
    while j < idx.len()
        invariant
            j <= idx@.len(),
            is_permutation(idx@, albums@.len()),
            r@.len() == j,
            forall|q: int| 0 <= q < j ==> *r@[q] == albums@[#[trigger] idx@[q] as int],
        decreases idx@.len() - j,
    {
        r.push(&albums[idx[j]]);
        j = j + 1;
    }
    proof {
        assert forall|p: int, q: int| 0 <= p < q < idx@.len() implies {
            let o = album_order(
                albums@[#[trigger] idx@[p] as int],
                albums@[#[trigger] idx@[q] as int],
                sort,
                mm,
            );
            o == Order::Less || (o == Order::Equal && idx@[p] < idx@[q])
        } by {
            lemma_album_key_order(
                albums@[idx@[p] as int],
                albums@[idx@[q] as int],
                sort,
                mm,
                keys@[idx@[p] as int],
                keys@[idx@[q] as int],
            );
        }
        assert(stably_sorted(keys@, idx@));
    }
    r
}

/// Album keys order albums as `album_order` does.
proof fn lemma_album_key_order(
    a: AlbumInfo,
    b: AlbumInfo,
    sort: AlbumSort,
    mm: Map<(Seq<char>, Seq<char>), (Seq<char>, u64)>,
    ka: SortKey,
    kb: SortKey,
)
    requires
        album_key_spec(a, sort, mm, ka),
        album_key_spec(b, sort, mm, kb),
    ensures
        key_order(ka, kb) == album_order(a, b, sort, mm),
{
}

/// Whether `track` belongs to `album`: its album tag matches and its artist
/// tag matches, or is empty.
pub open spec fn belongs(t: TrackInfo, album: AlbumInfo) -> bool {
    t.album@ == album.name@ && (t.artist@ == album.artist@ || t.artist@.len() == 0)
}

/// Whether `track` belongs to `album`.
pub fn belongs_to(track: &TrackInfo, album: &AlbumInfo) -> (r: bool)
    ensures
        r == belongs(*track, *album),
{
    str_eq(track.album.as_str(), album.name.as_str()) && (str_eq(
        track.artist.as_str(),
        album.artist.as_str(),
    ) || track.artist.as_str().is_empty())
}

/// The disc/track/title order of an album's tracks.
pub open spec fn track_order(a: TrackInfo, b: TrackInfo) -> Order {
    num_order(a.disc_no as u64, b.disc_no as u64).tie_break(
        num_order(a.track_no as u64, b.track_no as u64),
    ).tie_break(crate::text::lex(a.title@, b.title@))
}

/// The tracks of `tracks` that belong to `album`, in library order.
pub open spec fn belonging(tracks: Seq<TrackInfo>, album: AlbumInfo) -> Seq<TrackInfo> {
    tracks.filter(|t: TrackInfo| belongs(t, album))
}

/// Tracks belonging to `album`, in disc/track order (titles breaking ties),
/// keeping library order among equals.
pub fn album_tracks<'a>(tracks: &'a Vec<TrackInfo>, album: &AlbumInfo) -> (r: Vec<&'a TrackInfo>)
    ensures
        exists|idx: Seq<usize>|
            {
                &&& #[trigger] is_permutation(idx, belonging(tracks@, *album).len())
                &&& r@.len() == idx.len()
                &&& forall|i: int|
                    0 <= i < idx.len() ==> *r@[i] == belonging(tracks@, *album)[#[trigger] idx[i] as int]
                &&& forall|i: int, j: int|
                    0 <= i < j < idx.len() ==> {
                        let o = track_order(
                            belonging(tracks@, *album)[#[trigger] idx[i] as int],
                            belonging(tracks@, *album)[#[trigger] idx[j] as int],
                        );
                        o == Order::Less || (o == Order::Equal && idx[i] < idx[j])
                    }
            },
{
    let ghost pred = |t: TrackInfo| belongs(t, *album);
    let mut picked: Vec<&'a TrackInfo> = Vec::new();
    let mut keys: Vec<SortKey> = Vec::new();
    let mut i: usize = 0;
    while i < tracks.len()
        invariant
            i <= tracks@.len(),
            pred == (|t: TrackInfo| belongs(t, *album)),
            picked@.len() == tracks@.take(i as int).filter(pred).len(),
            keys@.len() == picked@.len(),
            forall|q: int|
                0 <= q < picked@.len() ==> *picked@[q] == tracks@.take(i as int).filter(pred)[q],
            forall|q: int|
                0 <= q < keys@.len() ==> track_key_spec(*picked@[q], #[trigger] keys@[q]),
        decreases tracks@.len() - i,
    {
        proof {
            assert(tracks@.take(i + 1).drop_last() =~= tracks@.take(i as int));
            reveal_with_fuel(Seq::filter, 1);
        }
        if belongs_to(&tracks[i], album) {
            let t = &tracks[i];
            keys.push(SortKey {
                major: t.disc_no as u64,
                minor: t.track_no as u64,
                first: chars_of(t.title.as_str()),
                second: Vec::new(),
            });
            picked.push(t);
        }
        i = i + 1;
    }
    proof {
        assert(tracks@.take(tracks@.len() as int) =~= tracks@);
    }
    let idx = stable_order(&keys);
    let mut r: Vec<&'a TrackInfo> = Vec::new();
    let mut j: usize = 0;
    while j < idx.len()
        invariant
            j <= idx@.len(),
            is_permutation(idx@, picked@.len()),
            r@.len() == j,
            forall|q: int| 0 <= q < j ==> *r@[q] == *picked@[#[trigger] idx@[q] as int],
        decreases idx@.len() - j,
    {
        r.push(picked[idx[j]]);
        j = j + 1;
    }
    proof {
        let f = tracks@.filter(pred);
        assert(f == belonging(tracks@, *album));
        assert forall|p: int, q: int| 0 <= p < q < idx@.len() implies {
            let o = track_order(f[#[trigger] idx@[p] as int], f[#[trigger] idx@[q] as int]);
            o == Order::Less || (o == Order::Equal && idx@[p] < idx@[q])
        } by {
            assert(stably_sorted(keys@, idx@));
            assert(track_key_spec(*picked@[idx@[p] as int], keys@[idx@[p] as int]));
            assert(track_key_spec(*picked@[idx@[q] as int], keys@[idx@[q] as int]));
        }
        assert forall|q: int| 0 <= q < idx@.len() implies *r@[q] == f[#[trigger] idx@[q] as int] by {}
    }
    r
}

/// Whether `k` is the sort key of track `t` in album order.
pub open spec fn track_key_spec(t: TrackInfo, k: SortKey) -> bool {
    &&& k.major == t.disc_no as u64
    &&& k.minor == t.track_no as u64
    &&& k.first@ == t.title@
    &&& k.second@ == Seq::<char>::empty()
}

} // verus!
