//! The shared track table: its columns, star glyphs, context actions and
//! the rows' play/star commands.
//!
//! The list shows two frontend-drawn columns first (the star toggle and the
//! play marker), then the data columns; the rows carry their pre-formatted
//! data cells.

use vstd::prelude::*;

use crate::commands::Command;
use crate::library::TrackInfo;

verus! {

/// A context-menu action on a track row.
#[derive(Debug, Clone, Copy, PartialEq, Eq, Structural)]
pub enum ContextAction {
    Play,
    PlayNext,
    AddToQueue,
    ToggleStar,
    /// Remove the recorded play (History rows only).
    RemoveHistory,
    CopyPath,
    OpenFileLocation,
    /// Open the track's Properties dialog.
    Properties,
    /// Open the track's tag editor.
    EditTags,
}

/// The star toggle column, first in the table.
pub const STAR_COLUMN: usize = 0;
/// The play marker column.
pub const PLAY_COLUMN: usize = 1;
/// The first data column (Title): the star and play-marker columns shift
/// every data column right by two.
pub const COLUMNS_OFFSET: usize = 2;

/// The star cell's glyph: a filled star when starred, an outline otherwise.
pub fn star_glyph(starred: bool) -> (s: &'static str)
    ensures
        s@ == if starred {
            "\u{2605}"@
        } else {
            "\u{2606}"@
        },
{
    if starred {
        "\u{2605}"
    } else {
        "\u{2606}"
    }
}

/// The data columns of the table.
#[derive(Debug, Clone, Copy, PartialEq, Eq, Structural)]
pub enum ColumnId {
    Title,
    Artist,
    Album,
    Year,
    Genre,
    Time,
    Format,
    Plays,
    LastPlayed,
    File,
}

/// The position of a data column among the data columns, in table order.
pub open spec fn data_position(id: ColumnId) -> usize {
    match id {
        ColumnId::Title => 0,
        ColumnId::Artist => 1,
        ColumnId::Album => 2,
        ColumnId::Year => 3,
        ColumnId::Genre => 4,
        ColumnId::Time => 5,
        ColumnId::Format => 6,
        ColumnId::Plays => 7,
        ColumnId::LastPlayed => 8,
        ColumnId::File => 9,
    }
}

/// The number of data columns.
pub const DATA_COLUMN_COUNT: usize = 10;

/// The list column index of a data column (0 = star, 1 = play marker,
/// 2 = Title, then the rest in table order).
pub fn column_index(id: ColumnId) -> (index: usize)
    ensures
        index == data_position(id) + COLUMNS_OFFSET,
{
    let position: usize = match id {
        ColumnId::Title => 0,
        ColumnId::Artist => 1,
        ColumnId::Album => 2,
        ColumnId::Year => 3,
        ColumnId::Genre => 4,
        ColumnId::Time => 5,
        ColumnId::Format => 6,
        ColumnId::Plays => 7,
        ColumnId::LastPlayed => 8,
        ColumnId::File => 9,
    };
    position + COLUMNS_OFFSET
}

/// The data column at list column `index`, or `None` for the star and play
/// columns and past the last column.
pub fn column_id(index: usize) -> (id: Option<ColumnId>)
    ensures
        match id {
            Some(c) => index == data_position(c) + COLUMNS_OFFSET,
            None => index < COLUMNS_OFFSET || index >= COLUMNS_OFFSET + DATA_COLUMN_COUNT,
        },
{
    if index < COLUMNS_OFFSET {
        return None;
    }
    match index - COLUMNS_OFFSET {
        0 => Some(ColumnId::Title),
        1 => Some(ColumnId::Artist),
        2 => Some(ColumnId::Album),
        3 => Some(ColumnId::Year),
        4 => Some(ColumnId::Genre),
        5 => Some(ColumnId::Time),
        6 => Some(ColumnId::Format),
        7 => Some(ColumnId::Plays),
        8 => Some(ColumnId::LastPlayed),
        9 => Some(ColumnId::File),
        _ => None,
    }
}

/// A data column's list index leads back to it, and every data column index
/// comes from exactly one data column.
pub proof fn lemma_column_round_trip(id: ColumnId, index: usize)
    ensures
        data_position(id) < DATA_COLUMN_COUNT,
        COLUMNS_OFFSET <= index < COLUMNS_OFFSET + DATA_COLUMN_COUNT ==> exists|c: ColumnId|
            data_position(c) + COLUMNS_OFFSET == index,
        forall|a: ColumnId, b: ColumnId| data_position(a) == data_position(b) ==> a == b,
{
    if COLUMNS_OFFSET <= index < COLUMNS_OFFSET + DATA_COLUMN_COUNT {
        let p = index - COLUMNS_OFFSET;
        if p == 0 { assert(data_position(ColumnId::Title) + COLUMNS_OFFSET == index); }
        else if p == 1 { assert(data_position(ColumnId::Artist) + COLUMNS_OFFSET == index); }
        else if p == 2 { assert(data_position(ColumnId::Album) + COLUMNS_OFFSET == index); }
        else if p == 3 { assert(data_position(ColumnId::Year) + COLUMNS_OFFSET == index); }
        else if p == 4 { assert(data_position(ColumnId::Genre) + COLUMNS_OFFSET == index); }
        else if p == 5 { assert(data_position(ColumnId::Time) + COLUMNS_OFFSET == index); }
        else if p == 6 { assert(data_position(ColumnId::Format) + COLUMNS_OFFSET == index); }
        else if p == 7 { assert(data_position(ColumnId::Plays) + COLUMNS_OFFSET == index); }
        else if p == 8 { assert(data_position(ColumnId::LastPlayed) + COLUMNS_OFFSET == index); }
        else { assert(data_position(ColumnId::File) + COLUMNS_OFFSET == index); }
    }
}

/// The command a context action on `track` asks for, when it has one here.
pub open spec fn context_command(action: ContextAction, track: TrackInfo) -> Option<Command> {
    match action {
        ContextAction::PlayNext => Some(Command::PlayTrackNext(track.id)),
        ContextAction::AddToQueue => Some(Command::QueueTrack(track.id)),
        ContextAction::ToggleStar => Some(Command::ToggleStarred(track.id)),
        ContextAction::EditTags => Some(Command::OpenTagEditor(track.id)),
        _ => None,
    }
}

/// Runs a context action, returning the command to queue. Play starts the
/// track with an empty queue context; the clipboard, Explorer, Properties
/// and (outside History) remove actions have no command.
pub fn run_context_action(action: ContextAction, track: &TrackInfo) -> (c: Option<Command>)
    ensures
        action == ContextAction::Play ==> (c matches Some(Command::PlayTrack { id, context })
            && id == track.id && context@ == Seq::<u64>::empty()),
        action != ContextAction::Play ==> c == context_command(action, *track),
{
    match action {
        ContextAction::Play => Some(Command::PlayTrack { id: track.id, context: Vec::new() }),
        ContextAction::PlayNext => Some(Command::PlayTrackNext(track.id)),
        ContextAction::AddToQueue => Some(Command::QueueTrack(track.id)),
        ContextAction::ToggleStar => Some(Command::ToggleStarred(track.id)),
        ContextAction::RemoveHistory => None,
        ContextAction::CopyPath => None,
        ContextAction::OpenFileLocation => None,
        ContextAction::Properties => None,
        ContextAction::EditTags => Some(Command::OpenTagEditor(track.id)),
    }
}

/// One row: the track, its star state and its pre-formatted data cells in
/// table order.
#[derive(Debug, Clone)]
pub struct TrackRow {
    pub track: TrackInfo,
    pub starred: bool,
    pub cells: Vec<String>,
}

impl TrackRow {
    /// A row for `track` with its formatted data `cells`.
    pub fn new(track: TrackInfo, cells: Vec<String>) -> (r: Self)
        ensures
            r.track == track,
            r.starred == track.starred,
            r.cells == cells,
    {
        let starred = track.starred;
        TrackRow { track, starred, cells }
    }
}

/// The track ids of `rows`, in order.
pub open spec fn row_ids(rows: Seq<TrackRow>) -> Seq<u64> {
    rows.map_values(|r: TrackRow| r.track.id)
}

/// The text of `row`'s cell in list `column`: the star glyph, the play
/// marker for the playing track, or a data cell (empty past the last).
pub open spec fn cell_text(row: TrackRow, column: usize, playing: Option<u64>) -> Seq<char> {
    if column == STAR_COLUMN {
        if row.starred {
            "\u{2605}"@
        } else {
            "\u{2606}"@
        }
    } else if column == PLAY_COLUMN {
        if playing == Some(row.track.id) {
            "\u{25B6}"@
        } else {
            Seq::empty()
        }
    } else if column - COLUMNS_OFFSET < row.cells@.len() {
        row.cells@[column - COLUMNS_OFFSET]@
    } else {
        Seq::empty()
    }
}

/// A track table's state: its rows in display order, the playing track it
/// highlights, and the sort arrow its header shows (list column, and
/// ascending when true).
#[derive(Debug, Clone)]
pub struct TrackView {
    pub rows: Vec<TrackRow>,
    pub playing: Option<u64>,
    pub indicator: Option<(usize, bool)>,
}

impl TrackView {
    /// An empty table: no rows, no highlight, no sort arrow.
    pub fn new() -> (v: Self)
        ensures
            v.rows@.len() == 0,
            v.playing is None,
            v.indicator is None,
    {
        TrackView { rows: Vec::new(), playing: None, indicator: None }
    }

    /// Replaces the rows (already in display order).
    pub fn set_rows(&mut self, rows: Vec<TrackRow>)
        ensures
            final(self).rows@ == rows@,
            final(self).playing == old(self).playing,
            final(self).indicator == old(self).indicator,
    {
        self.rows = rows;
    }

    /// The track ids of the whole list, in display order.
    pub fn ids(&self) -> (ids: Vec<u64>)
        ensures
            ids@ == row_ids(self.rows@),
    {
        let mut ids: Vec<u64> = Vec::new();
        let mut i: usize = 0;
        while i < self.rows.len()
            invariant
                i <= self.rows@.len(),
                ids@ == row_ids(self.rows@.take(i as int)),
            decreases self.rows@.len() - i,
        {
            ids.push(self.rows[i].track.id);
            proof {
                assert(row_ids(self.rows@.take(i + 1)) =~= row_ids(self.rows@.take(i as int)).push(
                    self.rows@[i as int].track.id,
                ));
            }
            i = i + 1;
        }
        proof {
            assert(self.rows@.take(self.rows@.len() as int) =~= self.rows@);
        }
        ids
    }

    /// The command to play `index` in the context of the whole visible list.
    pub fn activate(&self, index: usize) -> (c: Option<Command>)
        ensures
            index < self.rows@.len() ==> (c matches Some(Command::PlayTrack { id, context })
                && id == self.rows@[index as int].track.id && context@ == row_ids(self.rows@)),
            index >= self.rows@.len() ==> c is None,
    {
        if index >= self.rows.len() {
            return None;
        }
        Some(Command::PlayTrack { id: self.rows[index].track.id, context: self.ids() })
    }

    /// Flips the star of `index` and returns the command to persist it.
    pub fn toggle_star(&mut self, index: usize) -> (c: Option<Command>)
        ensures
            index < old(self).rows@.len() ==> {
                &&& c == Some(Command::ToggleStarred(old(self).rows@[index as int].track.id))
                &&& final(self).rows@.len() == old(self).rows@.len()
                &&& forall|i: int|
                    0 <= i < old(self).rows@.len() && i != index ==> #[trigger] final(self).rows@[i]
                        == old(self).rows@[i]
                &&& final(self).rows@[index as int].starred == !old(self).rows@[index as int].starred
                &&& final(self).rows@[index as int].track == old(self).rows@[index as int].track
                &&& final(self).rows@[index as int].cells == old(self).rows@[index as int].cells
            },
            index >= old(self).rows@.len() ==> c is None && final(self).rows == old(self).rows,
            final(self).playing == old(self).playing,
            final(self).indicator == old(self).indicator,
    {
        if index >= self.rows.len() {
            return None;
        }
        let mut row = self.rows.remove(index);
        row.starred = !row.starred;
        let id = row.track.id;
        self.rows.insert(index, row);
        proof {
            assert(self.rows@ == old(self).rows@.update(index as int, self.rows@[index as int]));
        }
        Some(Command::ToggleStarred(id))
    }

    /// The track at `index`, for a context action that needs its data.
    pub fn track(&self, index: usize) -> (t: Option<&TrackInfo>)
        ensures
            t == if index < self.rows@.len() {
                Some(&self.rows@[index as int].track)
            } else {
                None
            },
    {
        if index < self.rows.len() {
            Some(&self.rows[index].track)
        } else {
            None
        }
    }

    /// The text of the cell at `row`, `column`, with `playing` the playing
    /// track's id; `None` past the last row.
    pub fn cell(&self, row: usize, column: usize, playing: Option<u64>) -> (s: Option<&str>)
        ensures
            match s {
                Some(s) => row < self.rows@.len() && s@ == cell_text(self.rows@[row as int], column, playing),
                None => row >= self.rows@.len(),
            },
    {
        if row >= self.rows.len() {
            return None;
        }
        let r = &self.rows[row];
        proof {
            reveal_strlit("");
        }
        if column == STAR_COLUMN {
            Some(star_glyph(r.starred))
        } else if column == PLAY_COLUMN {
            let is_playing = match playing {
                Some(id) => id == r.track.id,
                None => false,
            };
            if is_playing {
                Some("\u{25B6}")
            } else {
                Some("")
            }
        } else if column - COLUMNS_OFFSET < r.cells.len() {
            Some(r.cells[column - COLUMNS_OFFSET].as_str())
        } else {
            Some("")
        }
    }
}

/// The sort indicator the header should show for a sort on `key` (none
/// without a key): the key's list column and the direction.
pub open spec fn wanted_indicator(key: Option<ColumnId>, ascending: bool) -> Option<(usize, bool)> {
    match key {
        Some(id) => Some(((data_position(id) + COLUMNS_OFFSET) as usize, ascending)),
        None => None,
    }
}

/// What the header must do to show a new sort indicator.
#[derive(Debug, Clone, Copy, PartialEq, Eq)]
pub struct IndicatorChange {
    /// The column whose arrow to clear.
    pub clear: Option<usize>,
    /// The column and direction (ascending when true) of the arrow to draw.
    pub set: Option<(usize, bool)>,
}

impl TrackView {
    /// Shows the sort arrow for a sort on `key`; nothing changes when it is
    /// already shown, otherwise the old arrow is cleared and the new one
    /// drawn.
    pub fn show_sort_indicator(&mut self, key: Option<ColumnId>, ascending: bool) -> (c: Option<
        IndicatorChange,
    >)
        ensures
            final(self).indicator == wanted_indicator(key, ascending),
            final(self).rows == old(self).rows,
            final(self).playing == old(self).playing,
            old(self).indicator == wanted_indicator(key, ascending) ==> c is None,
            old(self).indicator != wanted_indicator(key, ascending) ==> c == Some(
                IndicatorChange {
                    clear: match old(self).indicator {
                        Some(p) => Some(p.0),
                        None => None,
                    },
                    set: wanted_indicator(key, ascending),
                },
            ),
    {
        let wanted = match key {
            Some(id) => Some((column_index(id), ascending)),
            None => None,
        };
        let same = match (self.indicator, wanted) {
            (Some((a, x)), Some((b, y))) => a == b && x == y,
            (None, None) => true,
            _ => false,
        };
        if same {
            return None;
        }
        let clear = match self.indicator {
            Some((previous, _)) => Some(previous),
            None => None,
        };
        self.indicator = wanted;
        Some(IndicatorChange { clear, set: wanted })
    }

    /// Moves the playing highlight to `playing_id`; returns whether the list
    /// must be repainted: the highlight moved.
    pub fn sync_playing(&mut self, playing_id: Option<u64>) -> (repaint: bool)
        ensures
            final(self).playing == playing_id,
            final(self).rows == old(self).rows,
            final(self).indicator == old(self).indicator,
            repaint == (old(self).playing != playing_id),
    {
        let repaint = self.playing != playing_id;
        self.playing = playing_id;
        repaint
    }
}

} // verus!
