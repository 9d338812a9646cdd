use emusic_views::commands::Command;
use emusic_views::history::table::{self, HistoryAction};
use emusic_views::history::{
    context_ids, minutes_ago, play_at, plays_label, status_label, text_or, HistoryPlay, HistoryRow,
    HistoryState, HistoryView,
};
use emusic_views::library::HistoryEntry;
use emusic_views::track_table::ContextAction;

fn entry(id: i64, track_id: u64, played_at: i64) -> HistoryEntry {
    HistoryEntry {
        id,
        track_id,
        title: format!("Track {track_id}"),
        artist: "Artist".to_string(),
        played_at,
        played_ms: 90_000,
        finished: true,
        completed: true,
    }
}

#[test]
fn history_status_label_prioritises_a_live_play_then_completion() {
    assert_eq!(status_label(false, false, true), "Playing");
    assert_eq!(status_label(false, false, false), "Skipped");
    assert_eq!(status_label(true, true, true), "Completed");
    assert_eq!(status_label(true, false, false), "Skipped");
}

#[test]
fn table_status_label_prioritises_a_live_play_then_completion() {
    assert_eq!(table::status_label(false, false, true), ("Playing", true));
    assert_eq!(table::status_label(false, false, false), ("Skipped", true));
    assert_eq!(table::status_label(true, true, true), ("Completed", false));
    assert_eq!(table::status_label(true, false, false), ("Skipped", true));
}

#[test]
fn an_unfinished_current_play_reads_playing() {
    let now = 1_000_000_000;
    let mut play = entry(1, 10, now);
    play.finished = false;
    play.completed = false;

    assert_eq!(
        HistoryPlay::new(&play, Some(10), String::new(), String::new()).status,
        "Playing"
    );
    assert_eq!(
        HistoryPlay::new(&play, None, String::new(), String::new()).status,
        "Skipped"
    );
}

#[test]
fn text_or_falls_back_on_empty_fields() {
    assert_eq!(text_or("", "(unknown)"), "(unknown)");
    assert_eq!(text_or("Title", "(unknown)"), "Title");
}

#[test]
fn a_play_row_fills_its_columns_and_a_day_row_only_the_first() {
    let play = HistoryPlay::new(
        &entry(7, 20, 0),
        Some(20),
        "5 min ago".to_string(),
        "1:30".to_string(),
    );
    let rows = vec![HistoryRow::Day("Today".to_string()), HistoryRow::Entry(play)];
    assert_eq!(rows[0].text(0), "Today");
    assert_eq!(rows[0].text(1), "");
    assert_eq!(rows[1].text(0), "5 min ago");
    assert_eq!(rows[1].text(1), "Track 20");
    assert_eq!(rows[1].text(2), "Artist");
    assert_eq!(rows[1].text(3), "1:30");
    assert_eq!(rows[1].text(4), "Completed");
    assert_eq!(rows[1].text(5), "");
    assert!(rows[1].is_playing(Some(20)));
    assert!(!rows[0].is_playing(Some(20)));
    assert!(play_at(&rows, 0).is_none());
    assert_eq!(play_at(&rows, 1).map(|p| p.entry_id), Some(7));
    assert!(play_at(&rows, 2).is_none());
    assert_eq!(context_ids(&rows), vec![20]);
}

#[test]
fn an_untitled_play_shows_placeholders() {
    let mut e = entry(1, 2, 0);
    e.title = String::new();
    e.artist = String::new();
    let play = HistoryPlay::new(&e, None, String::new(), String::new());
    assert_eq!(play.title, "(unknown title)");
    assert_eq!(play.artist, "(unknown artist)");
}

#[test]
fn ages_are_whole_minutes_and_never_negative() {
    assert_eq!(minutes_ago(1_000, 1_000 - 59), 0);
    assert_eq!(minutes_ago(1_000, 1_000 - 60), 1);
    assert_eq!(minutes_ago(1_000, 1_000 - 3_599), 59);
    assert_eq!(minutes_ago(1_000, 2_000), 0);
}

#[test]
fn the_clear_confirmation_queues_a_clear_only_when_confirmed() {
    let mut state = HistoryState::default();
    assert_eq!(state.confirm_step(true, false, false), None);
    state.confirm_clear = true;
    assert_eq!(state.confirm_step(false, false, false), None);
    assert!(state.confirm_clear);
    assert_eq!(state.confirm_step(true, false, false), Some(Command::HistoryClear));
    assert!(!state.confirm_clear);
    state.confirm_clear = true;
    assert_eq!(state.confirm_step(false, true, false), None);
    assert!(!state.confirm_clear);
}

#[test]
fn history_actions_map_to_their_commands() {
    assert_eq!(HistoryAction::Remove(5).command(), Command::HistoryRemove(5));
    assert_eq!(HistoryAction::PlayNext(3).command(), Command::PlayTrackNext(3));
    assert_eq!(
        HistoryAction::Play(9).command(),
        Command::PlayTrack { id: 9, context: Vec::new() }
    );
    assert_eq!(plays_label(12), "12 plays");
}

#[test]
fn the_history_list_replays_and_acts_on_its_context_row() {
    let mut view = HistoryView::new();
    assert!(view.sync_due(false, None), "the first sync builds the list");
    let rows = vec![
        HistoryRow::Day("Today".to_string()),
        HistoryRow::Entry(HistoryPlay::new(&entry(1, 10, 0), None, String::new(), String::new())),
        HistoryRow::Day("Yesterday".to_string()),
        HistoryRow::Entry(HistoryPlay::new(&entry(2, 20, 0), None, String::new(), String::new())),
    ];
    view.rebuild(rows, Some(20));
    assert!(!view.sync_due(false, Some(20)));
    assert!(view.sync_due(true, Some(20)));
    assert!(view.sync_due(false, None));
    assert_eq!(view.activate(0), None, "a day header plays nothing");
    assert_eq!(
        view.activate(3),
        Some(Command::PlayTrack { id: 20, context: vec![10, 20] })
    );
    assert_eq!(view.run_context(ContextAction::PlayNext), None);
    view.set_context_row(1);
    assert_eq!(view.context_track_id(), Some(10));
    assert_eq!(view.run_context(ContextAction::RemoveHistory), Some(Command::HistoryRemove(1)));
    assert_eq!(view.run_context(ContextAction::CopyPath), None);
    assert!(view.is_entry_row(3));
    assert!(!view.is_entry_row(2));
    view.set_context_row(0);
    assert_eq!(view.context_track_id(), None);
}
