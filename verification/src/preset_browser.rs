//! The preset browser: its rows, which row is the playing preset, the count
//! label, and the commands that play a preset.

use vstd::prelude::*;

use crate::commands::{Command, PresetRequest, VizCommand};
use crate::text::{decimal, decimal_string};

verus! {

/// One preset row: its name, its pack, and its index in the engine's
/// playlist.
pub struct PresetRow {
    pub name: String,
    pub pack: String,
    pub playlist_index: usize,
}

/// The preset browser's state: the rows the list shows in display order,
/// the playlist index of the playing preset it highlights, and whether the
/// list was scrolled to that preset since it became visible.
pub struct PresetBrowserView {
    pub rows: Vec<PresetRow>,
    pub current: Option<usize>,
    pub revealed: bool,
}

impl PresetBrowserView {
    /// The playlist index of the preset shown at `row`, if there is one.
    pub fn playlist_index(&self, row: usize) -> (i: Option<usize>)
        ensures
            row < self.rows@.len() ==> i == Some(self.rows@[row as int].playlist_index),
            row >= self.rows@.len() ==> i is None,
    {
        if row < self.rows.len() {
            Some(self.rows[row].playlist_index)
        } else {
            None
        }
    }

    /// Whether the preset shown at `row` is the one playing: it is drawn in
    /// bold and in the accent colour.
    pub fn is_current(&self, row: usize) -> (r: bool)
        ensures
            r == (row < self.rows@.len() && self.current == Some(self.rows@[row as int].playlist_index)),
    {
        row < self.rows.len() && match self.current {
            Some(c) => c == self.rows[row].playlist_index,
            None => false,
        }
    }
}

/// The count label: "shown of total".
pub fn count_label(shown: usize, total: usize) -> (s: String)
    ensures
        s@ == decimal(shown as nat) + " of "@ + decimal(total as nat),
{
    let mut s = decimal_string(shown as u64);
    s.append(" of ");
    let t = decimal_string(total as u64);
    s.append(t.as_str());
    s
}

impl PresetBrowserView {
    /// Records the playing preset's playlist index; returns whether the rows
    /// must be repainted: the highlight moved and there are rows.
    pub fn set_current(&mut self, current: Option<usize>) -> (repaint: bool)
        ensures
            final(self).current == current,
            final(self).revealed == old(self).revealed,
            final(self).rows == old(self).rows,
            repaint == (old(self).current != current && old(self).rows@.len() > 0),
    {
        let changed = self.current != current;
        self.current = current;
        changed && self.rows.len() > 0
    }

    /// After a sync: the list counts as revealed once the playing row was
    /// scrolled into view or a scan result arrived.
    pub fn note_revealed(&mut self, scrolled_to_current: bool, files_ready: bool)
        ensures
            final(self).revealed == (old(self).revealed || scrolled_to_current || files_ready),
            final(self).current == old(self).current,
            final(self).rows == old(self).rows,
    {
        if !self.revealed && (scrolled_to_current || files_ready) {
            self.revealed = true;
        }
    }

    /// Hiding the browser forgets the reveal, so showing it again scrolls to
    /// the playing preset.
    pub fn set_visible(&mut self, visible: bool)
        ensures
            final(self).revealed == (old(self).revealed && visible),
            final(self).current == old(self).current,
            final(self).rows == old(self).rows,
    {
        if !visible {
            self.revealed = false;
        }
    }
}

/// The two commands a preset activation produces: make sure the
/// visualization is showing, then play the preset at `index`.
pub fn play_commands(index: usize) -> (c: [Command; 2])
    ensures
        c[0] == Command::Viz(VizCommand::SetVisible(true)),
        c[1] == Command::Viz(VizCommand::Preset(PresetRequest::Index(index))),
{
    [
        Command::Viz(VizCommand::SetVisible(true)),
        Command::Viz(VizCommand::Preset(PresetRequest::Index(index))),
    ]
}

} // verus!
