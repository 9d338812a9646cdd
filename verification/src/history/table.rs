//! The grouped history table: its row actions, row positions, status cells
//! and row menu.

use vstd::prelude::*;

use crate::commands::Command;
use crate::library::{HistoryEntry, TrackInfo};

verus! {

/// An action requested from a history row.
#[derive(Debug, Clone, Copy, PartialEq, Eq, Structural)]
pub enum HistoryAction {
    /// The row was double-clicked (or Play / Enter chosen): play the track.
    Play(u64),
    PlayNext(u64),
    AddToQueue(u64),
    ToggleStar(u64),
    EditTags(u64),
    /// The row's remove button (or Remove chosen) was clicked.
    Remove(i64),
}

impl HistoryAction {
    /// The shell command this action asks for.
    pub fn command(self) -> (c: Command)
        ensures
            match self {
                HistoryAction::Play(id) => c matches Command::PlayTrack { id: i, context }
                    && i == id && context@ == Seq::<u64>::empty(),
                HistoryAction::PlayNext(id) => c == Command::PlayTrackNext(id),
                HistoryAction::AddToQueue(id) => c == Command::QueueTrack(id),
                HistoryAction::ToggleStar(id) => c == Command::ToggleStarred(id),
                HistoryAction::EditTags(id) => c == Command::OpenTagEditor(id),
                HistoryAction::Remove(id) => c == Command::HistoryRemove(id),
            },
    {
        match self {
            HistoryAction::Play(id) => Command::PlayTrack { id, context: Vec::new() },
            HistoryAction::PlayNext(id) => Command::PlayTrackNext(id),
            HistoryAction::AddToQueue(id) => Command::QueueTrack(id),
            HistoryAction::ToggleStar(id) => Command::ToggleStarred(id),
            HistoryAction::EditTags(id) => Command::OpenTagEditor(id),
            HistoryAction::Remove(id) => Command::HistoryRemove(id),
        }
    }
}

/// One row of the grouped table: a day header or a recorded play.
#[derive(Debug)]
pub enum Row<'a> {
    Day(String),
    Entry(&'a HistoryEntry),
}

/// How many of `rows` are plays.
pub open spec fn entry_count(rows: Seq<Row>) -> nat
    decreases rows.len(),
{
    if rows.len() == 0 {
        0
    } else {
        entry_count(rows.drop_last()) + if rows.last() is Entry {
            1nat
        } else {
            0nat
        }
    }
}

/// For each row, its position among the play rows (day headers get `0`),
/// used to index the selection order.
pub fn entry_positions(rows: &Vec<Row>) -> (p: Vec<usize>)
    ensures
        p@.len() == rows@.len(),
        forall|i: int|
            0 <= i < rows@.len() ==> #[trigger] p@[i] == if rows@[i] is Entry {
                entry_count(rows@.take(i))
            } else {
                0
            },
{
    let mut p: Vec<usize> = Vec::new();
    let mut next: usize = 0;
    let mut i: usize = 0;
    while i < rows.len()
        invariant
            i <= rows@.len(),
            p@.len() == i,
            next == entry_count(rows@.take(i as int)),
            next <= i,
            forall|k: int|
                0 <= k < i ==> #[trigger] p@[k] == if rows@[k] is Entry {
                    entry_count(rows@.take(k))
                } else {
                    0
                },
        decreases rows@.len() - i,
    {
        proof {
            assert(rows@.take(i + 1).drop_last() =~= rows@.take(i as int));
        }
        match &rows[i] {
            Row::Day(_) => {
                p.push(0);
            },
            Row::Entry(_) => {
                p.push(next);
                next = next + 1;
            },
        }
        i = i + 1;
    }
    p
}

/// The status text of a play and whether it is styled as secondary text.
pub open spec fn status_cell(finished: bool, completed: bool, is_playing: bool) -> (Seq<char>, bool) {
    if !finished && is_playing {
        ("Playing"@, true)
    } else if completed {
        ("Completed"@, false)
    } else {
        ("Skipped"@, true)
    }
}

/// The status label and whether it is styled as secondary (weak) text: a
/// play still in progress on the current track reads "Playing", otherwise
/// the player's completion verdict decides.
pub fn status_label(finished: bool, completed: bool, is_playing: bool) -> (r: (&'static str, bool))
    ensures
        (r.0@, r.1) == status_cell(finished, completed, is_playing),
{
    if !finished && is_playing {
        ("Playing", true)
    } else if completed {
        ("Completed", false)
    } else {
        ("Skipped", true)
    }
}

/// A row's title: the title, or a placeholder.
pub fn title_text(entry: &HistoryEntry) -> (s: &str)
    ensures
        s@ == if entry.title@.len() == 0 {
            "(unknown title)"@
        } else {
            entry.title@
        },
{
    if entry.title.as_str().is_empty() {
        "(unknown title)"
    } else {
        entry.title.as_str()
    }
}

/// A row's artist: the artist, or a placeholder.
pub fn artist_text(entry: &HistoryEntry) -> (s: &str)
    ensures
        s@ == if entry.artist@.len() == 0 {
            "(unknown artist)"@
        } else {
            entry.artist@
        },
{
    if entry.artist.as_str().is_empty() {
        "(unknown artist)"
    } else {
        entry.artist.as_str()
    }
}

/// The row's right-click menu, in order: the track table's actions plus
/// Remove. Star and Edit tags need the library track, so they are left out
/// when it no longer exists; the star item names what a click does.
pub fn menu_items(entry: &HistoryEntry, track: Option<&TrackInfo>) -> (items: Vec<
    (&'static str, HistoryAction),
>)
    ensures
        items@.len() == if track is Some { 6int } else { 4int },
        items@[0].0@ == "Play"@ && items@[0].1 == HistoryAction::Play(entry.track_id),
        items@[1].0@ == "Play next"@ && items@[1].1 == HistoryAction::PlayNext(entry.track_id),
        items@[2].0@ == "Add to queue"@ && items@[2].1 == HistoryAction::AddToQueue(
            entry.track_id,
        ),
        match track {
            Some(t) => {
                &&& items@[3].0@ == if t.starred {
                    "Unstar"@
                } else {
                    "Star"@
                }
                &&& items@[3].1 == HistoryAction::ToggleStar(entry.track_id)
                &&& items@[4].0@ == "Edit tags\u{2026}"@
                &&& items@[4].1 == HistoryAction::EditTags(entry.track_id)
            },
            None => true,
        },
        items@.last().0@ == "Remove from history"@ && items@.last().1 == HistoryAction::Remove(
            entry.id,
        ),
{
    let id = entry.track_id;
    let mut items: Vec<(&'static str, HistoryAction)> = Vec::new();
    items.push(("Play", HistoryAction::Play(id)));
    items.push(("Play next", HistoryAction::PlayNext(id)));
    items.push(("Add to queue", HistoryAction::AddToQueue(id)));
    match track {
        Some(t) => {
            let star = if t.starred {
                "Unstar"
            } else {
                "Star"
            };
            items.push((star, HistoryAction::ToggleStar(id)));
            items.push(("Edit tags\u{2026}", HistoryAction::EditTags(id)));
        },
        None => {},
    }
    items.push(("Remove from history", HistoryAction::Remove(entry.id)));
    items
}

/// Enter plays the focused play of `order` (the plays in display order).
pub fn enter_action(order: &Vec<&HistoryEntry>, focus: Option<usize>, enter: bool) -> (a: Option<
    HistoryAction,
>)
    ensures
        a == match focus {
            Some(f) => if f < order@.len() && enter {
                Some(HistoryAction::Play(order@[f as int].track_id))
            } else {
                None
            },
            None => None,
        },
{
    match focus {
        Some(f) => {
            if f < order.len() && enter {
                Some(HistoryAction::Play(order[f].track_id))
            } else {
                None
            }
        },
        None => None,
    }
}

} // verus!
