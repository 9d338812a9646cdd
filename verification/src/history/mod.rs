//! The History view: recorded plays grouped by day, newest first, in a flat
//! list whose day headers are ordinary rows.

pub mod table;

use vstd::prelude::*;

use crate::commands::Command;
use crate::library::HistoryEntry;
use crate::track_table::ContextAction;

verus! {

/// Persistent History-view state.
#[derive(Debug, Default, Clone, Copy, PartialEq, Eq, Structural)]
pub struct HistoryState {
    /// Whether the "clear history" confirmation dialog is open.
    pub confirm_clear: bool,
}

impl HistoryState {
    /// One frame of the "clear history" confirmation: `clear` and `cancel`
    /// are the dialog's buttons, `dismissed` a close by other means. Returns
    /// the command to queue; the dialog closes on any of the three.
    pub fn confirm_step(&mut self, clear: bool, cancel: bool, dismissed: bool) -> (c: Option<
        Command,
    >)
        ensures
            !old(self).confirm_clear ==> c is None && final(self).confirm_clear == false,
            old(self).confirm_clear ==> (c == if clear {
                Some(Command::HistoryClear)
            } else {
                None
            }) && final(self).confirm_clear == !(clear || cancel || dismissed),
    {
        if !self.confirm_clear {
            return None;
        }
        if clear || cancel || dismissed {
            self.confirm_clear = false;
        }
        if clear {
            Some(Command::HistoryClear)
        } else {
            None
        }
    }
}

/// The status text of a play.
pub open spec fn status_text(finished: bool, completed: bool, is_playing: bool) -> Seq<char> {
    if !finished && is_playing {
        "Playing"@
    } else if completed {
        "Completed"@
    } else {
        "Skipped"@
    }
}

/// Status text for a history row: a play that is still in progress reads
/// "Playing" while its track is the current one, otherwise it is classified
/// by the player's completion verdict once it has finished.
pub fn status_label(finished: bool, completed: bool, is_playing: bool) -> (s: &'static str)
    ensures
        s@ == status_text(finished, completed, is_playing),
{
    if !finished && is_playing {
        "Playing"
    } else if completed {
        "Completed"
    } else {
        "Skipped"
    }
}

/// `value`, or `fallback` when it is empty.
pub fn text_or(value: &str, fallback: &str) -> (s: String)
    ensures
        s@ == if value@.len() == 0 {
            fallback@
        } else {
            value@
        },
{
    if value.is_empty() {
        fallback.to_string()
    } else {
        value.to_string()
    }
}

/// Whole minutes between a play at `played_at` and `now` (Unix seconds),
/// zero for a play stamped in the future, as the row's age is shown.
pub open spec fn minutes_between(now: i64, played_at: i64) -> u32 {
    ((if now - played_at > 0 { now - played_at } else { 0 }) / 60) as u32
}

/// The age of a play in whole minutes.
pub fn minutes_ago(now: i64, played_at: i64) -> (m: u32)
    requires
        i64::MIN <= now - played_at <= i64::MAX,
    ensures
        m == minutes_between(now, played_at),
{
    let elapsed = now - played_at;
    let clamped: i64 = if elapsed > 0 { elapsed } else { 0 };
    (clamped / 60) as u32
}

/// One play, pre-formatted for the list.
#[derive(Debug, Clone)]
pub struct HistoryPlay {
    /// The `plays` row id, for removing this entry.
    pub entry_id: i64,
    /// The played track's library id, for playback.
    pub track_id: u64,
    pub time_text: String,
    pub title: String,
    pub artist: String,
    pub listened_text: String,
    pub status: &'static str,
}

impl HistoryPlay {
    /// Formats one entry; `playing_id` decides whether an in-progress play
    /// reads "Playing". `time_text` is the entry's formatted age and
    /// `listened_text` its formatted listening time.
    pub fn new(
        entry: &HistoryEntry,
        playing_id: Option<u64>,
        time_text: String,
        listened_text: String,
    ) -> (p: Self)
        ensures
            p.entry_id == entry.id,
            p.track_id == entry.track_id,
            p.time_text == time_text,
            p.listened_text == listened_text,
            p.title@ == if entry.title@.len() == 0 {
                "(unknown title)"@
            } else {
                entry.title@
            },
            p.artist@ == if entry.artist@.len() == 0 {
                "(unknown artist)"@
            } else {
                entry.artist@
            },
            p.status@ == status_text(
                entry.finished,
                entry.completed,
                playing_id == Some(entry.track_id),
            ),
    {
        let is_playing = match playing_id {
            Some(id) => id == entry.track_id,
            None => false,
        };
        HistoryPlay {
            entry_id: entry.id,
            track_id: entry.track_id,
            time_text,
            title: text_or(entry.title.as_str(), "(unknown title)"),
            artist: text_or(entry.artist.as_str(), "(unknown artist)"),
            listened_text,
            status: status_label(entry.finished, entry.completed, is_playing),
        }
    }
}

/// One row of the history list: a day header or a recorded play.
#[derive(Debug, Clone)]
pub enum HistoryRow {
    /// A day group header, e.g. "Today".
    Day(String),
    /// A recorded play.
    Entry(HistoryPlay),
}

/// The text of a row's cell in `column` (0 = Time, then Title, Artist,
/// Listened, Status). A day header only fills the first column.
pub open spec fn cell_text(row: HistoryRow, column: usize) -> Seq<char> {
    match row {
        HistoryRow::Day(label) => if column == 0 {
            label@
        } else {
            Seq::empty()
        },
        HistoryRow::Entry(play) => if column == 0 {
            play.time_text@
        } else if column == 1 {
            play.title@
        } else if column == 2 {
            play.artist@
        } else if column == 3 {
            play.listened_text@
        } else if column == 4 {
            play.status@
        } else {
            Seq::empty()
        },
    }
}

impl HistoryRow {
    /// The cell text for `column`.
    pub fn text(&self, column: usize) -> (s: &str)
        ensures
            s@ == cell_text(*self, column),
    {
        proof {
            reveal_strlit("");
        }
        match self {
            HistoryRow::Day(label) => {
                if column == 0 {
                    label.as_str()
                } else {
                    ""
                }
            },
            HistoryRow::Entry(play) => {
                if column == 0 {
                    play.time_text.as_str()
                } else if column == 1 {
                    play.title.as_str()
                } else if column == 2 {
                    play.artist.as_str()
                } else if column == 3 {
                    play.listened_text.as_str()
                } else if column == 4 {
                    play.status
                } else {
                    ""
                }
            },
        }
    }

    /// Whether this row's track is the one currently playing.
    pub fn is_playing(&self, playing_id: Option<u64>) -> (r: bool)
        ensures
            r == match *self {
                HistoryRow::Entry(play) => playing_id == Some(play.track_id),
                HistoryRow::Day(_) => false,
            },
    {
        match self {
            HistoryRow::Entry(play) => match playing_id {
                Some(id) => id == play.track_id,
                None => false,
            },
            HistoryRow::Day(_) => false,
        }
    }
}

/// The play at `index`, or `None` for a day header or past the end.
pub fn play_at(rows: &Vec<HistoryRow>, index: usize) -> (r: Option<&HistoryPlay>)
    ensures
        r == if index < rows@.len() {
            match rows@[index as int] {
                HistoryRow::Entry(play) => Some(&play),
                HistoryRow::Day(_) => None,
            }
        } else {
            None
        },
{
    if index >= rows.len() {
        return None;
    }
    match &rows[index] {
        HistoryRow::Entry(play) => Some(play),
        HistoryRow::Day(_) => None,
    }
}

/// The track ids of `rows`' plays, in display order (day headers skipped).
pub open spec fn play_ids(rows: Seq<HistoryRow>) -> Seq<u64>
    decreases rows.len(),
{
    if rows.len() == 0 {
        Seq::empty()
    } else {
        play_ids(rows.drop_last()) + match rows.last() {
            HistoryRow::Entry(play) => seq![play.track_id],
            HistoryRow::Day(_) => Seq::empty(),
        }
    }
}

/// The track ids of the whole visible list, in display order, for the queue
/// context of a replay.
pub fn context_ids(rows: &Vec<HistoryRow>) -> (ids: Vec<u64>)
    ensures
        ids@ == play_ids(rows@),
{
    let mut ids: Vec<u64> = Vec::new();
    let mut i: usize = 0;
    while i < rows.len()
        invariant
            i <= rows@.len(),
            ids@ == play_ids(rows@.take(i as int)),
        decreases rows@.len() - i,
    {
        proof {
            assert(rows@.take(i + 1).drop_last() =~= rows@.take(i as int));
        }
        match &rows[i] {
            HistoryRow::Entry(play) => {
                ids.push(play.track_id);
                proof {
                    assert(ids@ =~= play_ids(rows@.take(i as int)) + seq![play.track_id]);
                }
            },
            HistoryRow::Day(_) => {
                proof {
                    assert(ids@ =~= play_ids(rows@.take(i as int)) + Seq::<u64>::empty());
                }
            },
        }
        i = i + 1;
    }
    proof {
        assert(rows@.take(rows@.len() as int) =~= rows@);
    }
    ids
}

/// Whether `c` is what a context action on row `row` of `rows` raises:
/// nothing for a day header or past the end, nothing for the actions the
/// app handles itself (copy path, open location, properties), the matching
/// command on the play otherwise; "Play" queues the whole list.
pub open spec fn runs_context(rows: Seq<HistoryRow>, row: usize, action: ContextAction, c: Option<
    Command,
>) -> bool {
    match play_at_spec(rows, row) {
        None => c is None,
        Some(play) => match (action, c) {
            (ContextAction::Play, Some(Command::PlayTrack { id, context })) => id == play.track_id
                && context@ == play_ids(rows),
            (ContextAction::Play, _) => false,
            (ContextAction::PlayNext, c) => c == Some(Command::PlayTrackNext(play.track_id)),
            (ContextAction::AddToQueue, c) => c == Some(Command::QueueTrack(play.track_id)),
            (ContextAction::ToggleStar, c) => c == Some(Command::ToggleStarred(play.track_id)),
            (ContextAction::RemoveHistory, c) => c == Some(Command::HistoryRemove(play.entry_id)),
            (ContextAction::EditTags, c) => c == Some(Command::OpenTagEditor(play.track_id)),
            (_, c) => c is None,
        },
    }
}

/// Runs a context action on the play at `row` of `rows`; day headers and
/// rows past the end give nothing.
pub fn run_context(rows: &Vec<HistoryRow>, row: usize, action: ContextAction) -> (c: Option<
    Command,
>)
    ensures
        runs_context(rows@, row, action, c),
{
    let play = match play_at(rows, row) {
        Some(play) => play,
        None => return None,
    };
    match action {
        ContextAction::Play => Some(Command::PlayTrack { id: play.track_id, context: context_ids(rows) }),
        ContextAction::PlayNext => Some(Command::PlayTrackNext(play.track_id)),
        ContextAction::AddToQueue => Some(Command::QueueTrack(play.track_id)),
        ContextAction::ToggleStar => Some(Command::ToggleStarred(play.track_id)),
        ContextAction::RemoveHistory => Some(Command::HistoryRemove(play.entry_id)),
        ContextAction::CopyPath | ContextAction::OpenFileLocation => None,
        ContextAction::Properties => None,
        ContextAction::EditTags => Some(Command::OpenTagEditor(play.track_id)),
    }
}

/// The play at `index` of `rows`, if that row is one.
pub open spec fn play_at_spec(rows: Seq<HistoryRow>, index: usize) -> Option<HistoryPlay> {
    if index < rows.len() {
        match rows[index as int] {
            HistoryRow::Entry(play) => Some(play),
            HistoryRow::Day(_) => None,
        }
    } else {
        None
    }
}

/// Whether `row` is a play rather than a day header, so the context menu
/// opens for it.
pub fn is_entry_row(rows: &Vec<HistoryRow>, row: usize) -> (r: bool)
    ensures
        r == play_at_spec(rows@, row) is Some,
{
    play_at(rows, row).is_some()
}

/// Whether the list must be rebuilt this sync: on the first sync, when the
/// library changed, and when the playing track changed (a play's status
/// reads "Playing" only for the current track).
pub fn needs_rebuild(built: bool, library_changed: bool, shown_playing: Option<u64>, playing_id: Option<u64>) -> (r: bool)
    ensures
        r == (!built || library_changed || shown_playing != playing_id),
{
    let same = match (shown_playing, playing_id) {
        (Some(a), Some(b)) => a == b,
        (None, None) => true,
        _ => false,
    };
    !built || library_changed || !same
}

/// The "N plays" band text.
pub fn plays_label(count: usize) -> (s: String)
    ensures
        s@ == crate::text::decimal(count as nat) + " plays"@,
{
    let mut s = crate::text::decimal_string(count as u64);
    s.append(" plays");
    s
}

/// The History view's list state: its rows (day headers and plays), the
/// row its context menu was opened on, the playing track its rows were
/// built for, and whether they were built at all.
pub struct HistoryView {
    pub rows: Vec<HistoryRow>,
    pub context_row: Option<usize>,
    pub playing: Option<u64>,
    pub built: bool,
}

impl HistoryView {
    /// Nothing built yet.
    pub fn new() -> (v: Self)
        ensures
            v.rows@.len() == 0,
            v.context_row is None,
            v.playing is None,
            !v.built,
    {
        HistoryView { rows: Vec::new(), context_row: None, playing: None, built: false }
    }

    /// Whether a sync must rebuild the rows: see `needs_rebuild`.
    pub fn sync_due(&self, rebuild: bool, playing_id: Option<u64>) -> (r: bool)
        ensures
            r == (!self.built || rebuild || self.playing != playing_id),
    {
        needs_rebuild(self.built, rebuild, self.playing, playing_id)
    }

    /// Installs freshly built rows for the playing track `playing_id`.
    pub fn rebuild(&mut self, rows: Vec<HistoryRow>, playing_id: Option<u64>)
        ensures
            final(self).rows@ == rows@,
            final(self).playing == playing_id,
            final(self).built,
            final(self).context_row == old(self).context_row,
    {
        self.rows = rows;
        self.playing = playing_id;
        self.built = true;
    }

    /// The command to replay the play at `index` in the context of the whole
    /// list; a day header plays nothing.
    pub fn activate(&self, index: usize) -> (c: Option<Command>)
        ensures
            match play_at_spec(self.rows@, index) {
                Some(play) => (c matches Some(Command::PlayTrack { id, context }) && id
                    == play.track_id && context@ == play_ids(self.rows@)),
                None => c is None,
            },
    {
        match play_at(&self.rows, index) {
            Some(play) => Some(Command::PlayTrack { id: play.track_id, context: context_ids(&self.rows) }),
            None => None,
        }
    }

    /// Remembers the row the context menu was opened on.
    pub fn set_context_row(&mut self, row: usize)
        ensures
            final(self).context_row == Some(row),
            final(self).rows == old(self).rows,
            final(self).playing == old(self).playing,
            final(self).built == old(self).built,
    {
        self.context_row = Some(row);
    }

    /// Runs a context action on the row that opened the menu; see
    /// `run_context`.
    pub fn run_context(&self, action: ContextAction) -> (c: Option<Command>)
        ensures
            match self.context_row {
                Some(row) => runs_context(self.rows@, row, action, c),
                None => c is None,
            },
    {
        match self.context_row {
            Some(row) => run_context(&self.rows, row, action),
            None => None,
        }
    }

    /// The library track id of the play whose context menu is open, if any.
    pub fn context_track_id(&self) -> (id: Option<u64>)
        ensures
            id == match self.context_row {
                Some(row) => match play_at_spec(self.rows@, row) {
                    Some(play) => Some(play.track_id),
                    None => None,
                },
                None => None,
            },
    {
        match self.context_row {
            Some(row) => match play_at(&self.rows, row) {
                Some(play) => Some(play.track_id),
                None => None,
            },
            None => None,
        }
    }

    /// Whether `row` is a play rather than a day header.
    pub fn is_entry_row(&self, row: usize) -> (r: bool)
        ensures
            r == play_at_spec(self.rows@, row) is Some,
    {
        is_entry_row(&self.rows, row)
    }
}

/// Only a play still in progress on the current track reads "Playing"; any
/// other play reads its verdict, "Completed" or "Skipped", whatever plays
/// now. So a finished play of the current track never reads "Playing", and
/// an unfinished play of another track reads "Skipped" (it was cut short).
pub proof fn lemma_status_reads_verdict(finished: bool, completed: bool, is_playing: bool)
    ensures
        (status_text(finished, completed, is_playing) == "Playing"@) <==> (!finished && is_playing),
        !(!finished && is_playing) ==> status_text(finished, completed, is_playing) == (if completed {
            "Completed"@
        } else {
            "Skipped"@
        }),
        finished ==> status_text(finished, completed, is_playing) == status_text(
            finished,
            completed,
            !is_playing,
        ),
        table::status_cell(finished, completed, is_playing).0 == status_text(
            finished,
            completed,
            is_playing,
        ),
        table::status_cell(finished, completed, is_playing).1 == (status_text(
            finished,
            completed,
            is_playing,
        ) != "Completed"@),
{
    reveal_strlit("Playing");
    reveal_strlit("Completed");
    reveal_strlit("Skipped");
    assert("Playing"@[1] != "Completed"@[1]);
    assert("Playing"@[0] != "Skipped"@[0]);
    assert("Completed"@[0] != "Skipped"@[0]);
}

} // verus!
