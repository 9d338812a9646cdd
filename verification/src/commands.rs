//! The intents the views hand to the shell.

use vstd::prelude::*;

verus! {

/// Where the visualization is docked.
#[derive(Debug, Clone, Copy, PartialEq, Eq)]
pub enum VizDock {
    /// In the now-playing panel.
    Panel,
    /// In its own window.
    Window,
}

/// A preset navigation request for the running engine.
#[derive(Debug, Clone, Copy, PartialEq, Eq)]
pub enum PresetRequest {
    Next,
    Previous,
    Random,
    /// Play the preset at this playlist index.
    Index(usize),
}

/// A visualization intent.
#[derive(Debug, Clone, Copy, PartialEq, Eq)]
pub enum VizCommand {
    SetVisible(bool),
    SetFullscreen(bool),
    SetDock(VizDock),
    Preset(PresetRequest),
    TogglePresetLock,
}

/// An intent a view queues for the shell.
#[derive(Debug, Clone, PartialEq, Eq)]
pub enum Command {
    /// Play track `id`, with `context` (the visible list) as the queue.
    PlayTrack { id: u64, context: Vec<u64> },
    PlayTrackNext(u64),
    QueueTrack(u64),
    ToggleStarred(u64),
    OpenTagEditor(u64),
    /// Remove one recorded play.
    HistoryRemove(i64),
    /// Remove every recorded play.
    HistoryClear,
    /// Shuffle-play the tracks `ids`, announced as `label`.
    ShuffleScope { ids: Vec<u64>, label: String },
    Viz(VizCommand),
    LibraryAddFolder(String),
    LibraryRemoveFolder(String),
    LibraryRescan,
    LibraryCancelScan,
    ToggleTheme,
}

} // verus!
