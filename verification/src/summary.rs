//! The now-playing summary's clickable regions: which links it offers for
//! the playing track, in the order it draws them.

use vstd::prelude::*;

verus! {

/// A clickable region of the summary.
#[derive(Debug, Clone, Copy, PartialEq, Eq, Structural)]
pub enum SummaryHit {
    /// The star toggle.
    Star,
    /// The artist link.
    Artist,
    /// The album link.
    Album,
    /// The file path link.
    Path,
    /// The "Properties…" link.
    Properties,
    /// The "Edit tags…" link.
    EditTags,
}

/// The regions, in drawing order: nothing while nothing plays; otherwise
/// the star (for a library track), the artist when there is one, the album
/// when its line shows and names an album, the path when known, then the
/// properties and tag-editor links (for a library track).
pub open spec fn hits_of(
    playing: bool,
    has_track: bool,
    artist_empty: bool,
    album_line_empty: bool,
    album_empty: bool,
    path_empty: bool,
) -> Seq<SummaryHit> {
    if !playing {
        Seq::empty()
    } else {
        (if has_track { seq![SummaryHit::Star] } else { Seq::empty() }) + (if !artist_empty {
            seq![SummaryHit::Artist]
        } else {
            Seq::empty()
        }) + (if !album_line_empty && !album_empty {
            seq![SummaryHit::Album]
        } else {
            Seq::empty()
        }) + (if !path_empty { seq![SummaryHit::Path] } else { Seq::empty() }) + (if has_track {
            seq![SummaryHit::Properties, SummaryHit::EditTags]
        } else {
            Seq::empty()
        })
    }
}

/// The summary's clickable regions for the playing track, in drawing order.
pub fn summary_hits(
    playing: bool,
    has_track: bool,
    artist_empty: bool,
    album_line_empty: bool,
    album_empty: bool,
    path_empty: bool,
) -> (h: Vec<SummaryHit>)
    ensures
        h@ == hits_of(playing, has_track, artist_empty, album_line_empty, album_empty, path_empty),
{
    let mut h: Vec<SummaryHit> = Vec::new();
    if !playing {
        return h;
    }
    if has_track {
        h.push(SummaryHit::Star);
    }
    if !artist_empty {
        h.push(SummaryHit::Artist);
    }
    if !album_line_empty && !album_empty {
        h.push(SummaryHit::Album);
    }
    if !path_empty {
        h.push(SummaryHit::Path);
    }
    if has_track {
        h.push(SummaryHit::Properties);
        h.push(SummaryHit::EditTags);
    }
    proof {
        assert(h@ =~= hits_of(playing, has_track, artist_empty, album_line_empty, album_empty, path_empty));
    }
    h
}

} // verus!
