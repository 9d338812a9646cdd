//! The Appearance and Playback settings pages' decisions: which command a
//! theme choice raises, and which playback options can be changed.

use vstd::prelude::*;

use crate::commands::Command;

verus! {

/// The window theme.
#[derive(Debug, Clone, Copy, PartialEq, Eq, Structural)]
pub enum Theme {
    Light,
    Dark,
}

/// The command a theme choice raises: a toggle when it differs from the
/// current theme, nothing otherwise.
pub fn theme_command(current: Theme, wanted: Theme) -> (c: Option<Command>)
    ensures
        current == wanted ==> c is None,
        current != wanted ==> c == Some(Command::ToggleTheme),
{
    if current != wanted {
        Some(Command::ToggleTheme)
    } else {
        None
    }
}

/// The session options of the Playback page.
#[derive(Debug, Clone, Copy, PartialEq, Eq, Structural)]
pub struct SessionOptions {
    /// Reopen the last track and queue on startup.
    pub resume_playback: bool,
    /// Start playing the restored queue right away.
    pub autoplay_on_restore: bool,
}

impl SessionOptions {
    /// Whether the autoplay option can be changed: only while resuming is on.
    pub fn autoplay_enabled(&self) -> (r: bool)
        ensures
            r == self.resume_playback,
    {
        self.resume_playback
    }
}

} // verus!
