use std::collections::BTreeSet;

use emusic_views::column_browser::{entries_for, values, ColumnBrowserState, Pane};
use emusic_views::library::TrackInfo;
use emusic_views::selection::PaneSelection;

fn track(genre: &str, artist: &str, album: &str) -> TrackInfo {
    TrackInfo {
        genre: genre.to_string(),
        artist: artist.to_string(),
        album: album.to_string(),
        ..TrackInfo::default()
    }
}

fn available(values: &[&str]) -> BTreeSet<String> {
    values.iter().map(|v| (*v).to_string()).collect()
}

#[test]
fn entries_start_with_all_and_count_each_facet() {
    let a = track("Rock", "A", "First");
    let b = track("Rock", "B", "Second");
    let c = track("Jazz", "A", "First");
    let tracks = [&a, &b, &c];

    let entries = entries_for(&tracks, Pane::Genre);
    assert_eq!(entries[0].value, None);
    assert_eq!(entries[0].label(), "All");
    assert_eq!(entries[0].count, 3);

    let genres: Vec<_> = entries[1..].iter().map(|e| e.label()).collect();
    assert_eq!(genres, ["Jazz", "Rock"]);
    assert_eq!(entries[1].count, 1);
    assert_eq!(entries[2].count, 2);
}

#[test]
fn entries_are_sorted_case_insensitively_and_show_unknown() {
    let a = track("Rock", "banana", "X");
    let b = track("Rock", "Apple", "X");
    let c = track("Rock", "", "X");
    let tracks = [&a, &b, &c];

    let entries = entries_for(&tracks, Pane::Artist);
    let artists: Vec<_> = entries[1..].iter().map(|e| e.label()).collect();
    assert_eq!(artists, ["(unknown)", "Apple", "banana"]);
}

#[test]
fn matches_cascades_across_all_three_panes() {
    let mut state = ColumnBrowserState::default();
    assert!(state.matches(&track("Rock", "A", "First")));

    state.genres.click(Some("Rock"), false);
    assert!(state.matches(&track("Rock", "A", "First")));
    assert!(!state.matches(&track("Jazz", "A", "First")));

    state.artists.click(Some("A"), false);
    assert!(state.matches(&track("Rock", "A", "First")));
    assert!(!state.matches(&track("Rock", "B", "First")));

    state.albums.click(Some("First"), false);
    assert!(state.matches(&track("Rock", "A", "First")));
    assert!(!state.matches(&track("Rock", "A", "Second")));
}

#[test]
fn values_collects_every_facet_except_all() {
    let a = track("Rock", "A", "First");
    let entries = entries_for(&[&a], Pane::Genre);
    let got: BTreeSet<String> = values(&entries).into_iter().collect();
    assert_eq!(got, available(&["Rock"]));
}

#[test]
fn entries_of_no_tracks_hold_only_all() {
    let entries = entries_for(&[], Pane::Album);
    assert_eq!(entries.len(), 1);
    assert_eq!(entries[0].label(), "All");
    assert_eq!(entries[0].count, 0);
}

#[test]
fn equal_facets_that_differ_in_case_stay_apart_in_a_stable_order() {
    let a = track("rock", "A", "X");
    let b = track("Rock", "A", "X");
    let c = track("rock", "A", "X");
    let entries = entries_for(&[&a, &b, &c], Pane::Genre);
    let genres: Vec<_> = entries[1..].iter().map(|e| (e.label(), e.count)).collect();
    assert_eq!(genres, [("Rock".to_string(), 1), ("rock".to_string(), 2)]);
}

#[test]
fn a_plain_click_replaces_and_all_clears() {
    let mut s = PaneSelection::new();
    assert!(s.is_all());
    s.click(Some("Rock"), false);
    s.click(Some("Jazz"), false);
    assert_eq!(s.len(), 1);
    assert!(s.contains("Jazz"));
    assert!(!s.contains("Rock"));
    s.click(None, true);
    assert!(s.is_all());
    assert!(s.matches("anything"));
}

#[test]
fn ctrl_click_twice_restores_the_selection() {
    let mut s = PaneSelection::new();
    s.click(Some("Rock"), false);
    s.click(Some("Jazz"), true);
    assert_eq!(s.len(), 2);
    s.click(Some("Jazz"), true);
    assert_eq!(s.len(), 1);
    assert!(s.contains("Rock"));
    assert!(!s.contains("Jazz"));
    assert!(s.matches("Rock"));
    assert!(!s.matches("Jazz"));
}

#[test]
fn retain_drops_values_no_longer_offered() {
    let mut s = PaneSelection::new();
    s.click(Some("A"), false);
    s.click(Some("B"), true);
    s.retain(&vec!["B".to_string(), "C".to_string()]);
    assert_eq!(s.len(), 1);
    assert!(s.contains("B"));
    assert!(!s.contains("A"));
}

#[test]
fn same_as_compares_selections_as_sets() {
    let mut a = PaneSelection::new();
    a.click(Some("X"), false);
    a.click(Some("Y"), true);
    let mut b = PaneSelection::new();
    b.click(Some("Y"), false);
    b.click(Some("X"), true);
    assert!(a.same_as(&b));
    b.click(Some("Z"), true);
    assert!(!a.same_as(&b));
    let copy = a.clone();
    assert!(copy.same_as(&a));
}
