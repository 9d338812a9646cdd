//! The library records the views display: tracks, albums, directory nodes,
//! recorded plays and artist summaries, as plain values.

use vstd::prelude::*;

use crate::text::str_eq;

verus! {

/// One library track, as the views read it.
#[derive(Debug, Clone)]
pub struct TrackInfo {
    /// The library id.
    pub id: u64,
    /// The file path.
    pub path: String,
    pub title: String,
    pub artist: String,
    pub album: String,
    pub genre: String,
    /// The disc number (0 when the tag is missing).
    pub disc_no: u32,
    /// The track number on its disc (0 when the tag is missing).
    pub track_no: u32,
    /// Whether the user starred the track.
    pub starred: bool,
}

impl Default for TrackInfo {
    fn default() -> (t: Self)
        ensures
            t.id == 0,
            t.path@ == Seq::<char>::empty(),
            t.title@ == Seq::<char>::empty(),
            t.artist@ == Seq::<char>::empty(),
            t.album@ == Seq::<char>::empty(),
            t.genre@ == Seq::<char>::empty(),
            t.disc_no == 0,
            t.track_no == 0,
            !t.starred,
    {
        TrackInfo {
            id: 0,
            path: String::new(),
            title: String::new(),
            artist: String::new(),
            album: String::new(),
            genre: String::new(),
            disc_no: 0,
            track_no: 0,
            starred: false,
        }
    }
}

/// One album of the library.
#[derive(Debug, Clone)]
pub struct AlbumInfo {
    pub name: String,
    pub artist: String,
    /// The release year, when tagged.
    pub year: Option<u32>,
}

/// One directory of the library's folder grouping, with its subfolders.
#[derive(Debug)]
pub struct DirNodeInfo {
    /// The full directory path.
    pub path: String,
    /// The directory's own name.
    pub name: String,
    /// Tracks directly in this directory.
    pub direct_track_count: usize,
    /// Tracks in this directory and all its subfolders.
    pub total_track_count: usize,
    pub children: Vec<DirNodeInfo>,
}

/// One recorded play.
#[derive(Debug, Clone)]
pub struct HistoryEntry {
    /// The `plays` row id.
    pub id: i64,
    /// The played track's library id.
    pub track_id: u64,
    pub title: String,
    pub artist: String,
    /// When the play started, in Unix seconds.
    pub played_at: i64,
    /// How long the track was listened to, in milliseconds.
    pub played_ms: u32,
    /// Whether the play has ended.
    pub finished: bool,
    /// The player's completion verdict for a finished play.
    pub completed: bool,
}

/// One artist with its album and track counts.
#[derive(Debug, Clone)]
pub struct ArtistInfo {
    pub name: String,
    pub album_count: usize,
    pub track_count: usize,
}

/// Whether some track of `tracks` before position `end` has the path `p`.
pub open spec fn path_before(tracks: Seq<TrackInfo>, end: int, p: Seq<char>) -> bool {
    exists|j: int| 0 <= j < end && #[trigger] tracks[j].path@ == p
}

/// The library id of the playing file: the id of the first track whose path
/// is the now-playing path, `None` when nothing plays or the file is not in
/// the library.
pub fn currently_playing_id(tracks: &[TrackInfo], now_playing: Option<&str>) -> (r: Option<u64>)
    ensures
        match now_playing {
            None => r is None,
            Some(p) => match r {
                None => !path_before(tracks@, tracks@.len() as int, p@),
                Some(id) => exists|i: int|
                    0 <= i < tracks@.len() && #[trigger] tracks@[i].path@ == p@ && tracks@[i].id == id
                        && !path_before(tracks@, i, p@),
            },
        },
{
    let path = match now_playing {
        Some(p) => p,
        None => return None,
    };
    let mut i: usize = 0;
    while i < tracks.len()
        invariant
            now_playing == Some(path),
            i <= tracks@.len(),
            !path_before(tracks@, i as int, path@),
        decreases tracks@.len() - i,
    {
        if str_eq(tracks[i].path.as_str(), path) {
            return Some(tracks[i].id);
        }
        proof {
            assert forall|j: int| 0 <= j < i + 1 implies #[trigger] tracks@[j].path@ != path@ by {
                if j < i {
                    if tracks@[j].path@ == path@ {
                        assert(path_before(tracks@, i as int, path@));
                    }
                }
            }
        }
        i = i + 1;
    }
    None
}

} // verus!
