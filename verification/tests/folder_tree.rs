use emusic_views::folder_tree::FolderTreeState;
use emusic_views::folders::{folder_tracks, tree_rebuild_due};
use emusic_views::library::TrackInfo;

fn track(path: &str) -> TrackInfo {
    TrackInfo {
        path: path.to_string(),
        ..TrackInfo::default()
    }
}

#[test]
fn no_selection_matches_every_track() {
    let state = FolderTreeState::default();
    assert!(state.matches(&track(r"C:\music\a.flac")));
    assert!(state.matches(&track(r"D:\other\b.flac")));
}

#[test]
fn including_subfolders_matches_descendants() {
    let state = FolderTreeState {
        selected: Some(r"C:\music".to_string()),
        include_subfolders: true,
    };
    assert!(state.matches(&track(r"C:\music\a.flac")));
    assert!(state.matches(&track(r"C:\music\Album\b.flac")));
    assert!(!state.matches(&track(r"C:\other\c.flac")));
}

#[test]
fn excluding_subfolders_matches_only_direct_tracks() {
    let state = FolderTreeState {
        selected: Some(r"C:\music".to_string()),
        include_subfolders: false,
    };
    assert!(state.matches(&track(r"C:\music\a.flac")));
    assert!(!state.matches(&track(r"C:\music\Album\b.flac")));
}

#[test]
fn prefix_is_matched_by_path_component_not_substring() {
    let state = FolderTreeState {
        selected: Some(r"C:\music\Lib".to_string()),
        include_subfolders: true,
    };
    assert!(!state.matches(&track(r"C:\music\Library\a.flac")));
    assert!(state.matches(&track(r"C:\music\Lib\a.flac")));
}

#[test]
fn a_trailing_separator_and_forward_slashes_are_understood() {
    let state = FolderTreeState {
        selected: Some("C:/music/".to_string()),
        include_subfolders: false,
    };
    assert!(state.matches(&track("C:/music/a.flac")));
    assert!(!state.matches(&track("C:/music/")));
    assert!(!state.matches(&track("C:/music/sub/a.flac")));
}

#[test]
fn folder_tracks_keeps_library_order() {
    let tracks = vec![
        track(r"C:\music\b.flac"),
        track(r"C:\other\x.flac"),
        track(r"C:\music\a.flac"),
    ];
    let state = FolderTreeState {
        selected: Some(r"C:\music".to_string()),
        include_subfolders: false,
    };
    let shown: Vec<&str> = folder_tracks(&tracks, &state).iter().map(|t| t.path.as_str()).collect();
    assert_eq!(shown, [r"C:\music\b.flac", r"C:\music\a.flac"]);
}

#[test]
fn the_tree_is_rebuilt_first_and_after_a_finished_scan_changed_it() {
    assert!(tree_rebuild_due(None, true, 0));
    assert!(!tree_rebuild_due(Some((false, 10)), false, 10));
    assert!(!tree_rebuild_due(Some((true, 10)), true, 12));
    assert!(tree_rebuild_due(Some((true, 10)), false, 12));
}
