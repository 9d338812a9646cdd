use emusic_views::appearance::Theme;
use emusic_views::artwork::{cover_edge, to_win32, RgbaImage, RgbaSink, Win32ImageSink};
use emusic_views::catalog::{album_meta, album_tracks, belongs_to, sorted_albums, AlbumSort};
use emusic_views::column_browser::ColumnBrowserState;
use emusic_views::commands::Command;
use emusic_views::folders::{folders_layout, DirTreeModel};
use emusic_views::library::{currently_playing_id, AlbumInfo, ArtistInfo, DirNodeInfo, TrackInfo};
use emusic_views::music::{
    rebuild_due, shuffle_all, tracks_label, visible_tracks, MusicSignature, MusicView,
};
use emusic_views::name_counts::{row_for, NameCountRow, NameCountsView};
use emusic_views::projectm::overlay::Rect;
use emusic_views::queue::{model, QueueItem, QueueRow};
use emusic_views::summary::{summary_hits, SummaryHit};
use emusic_views::status_bar::{progress_line, StatusBarView};
use emusic_views::tile::{placeholder_parts, seed_hash};
use emusic_views::top_bar::{
    items, needs_items, play_tooltip, seek_tooltip, to_message, BarEvent, BarIntent, BarItem,
    BarSignature, BarSlot,
};
use emusic_views::track_table::{
    column_id, column_index, run_context_action, star_glyph, ColumnId, ContextAction,
    TrackRow, TrackView,
};

fn click(item: BarItem) -> Option<BarIntent> {
    to_message(BarEvent::Click(item.id()))
}

#[test]
fn transport_clicks_map_to_their_intents() {
    assert_eq!(click(BarItem::Previous), Some(BarIntent::Previous));
    assert_eq!(click(BarItem::PlayPause), Some(BarIntent::PlayPause));
    assert_eq!(click(BarItem::Stop), Some(BarIntent::Stop));
    assert_eq!(click(BarItem::Next), Some(BarIntent::Next));
    assert_eq!(click(BarItem::Repeat), None, "a toggle is not a click");
}

#[test]
fn clear_search_click_empties_the_query() {
    assert_eq!(click(BarItem::ClearSearch), Some(BarIntent::ClearSearch));
    assert_eq!(click(BarItem::Search), None, "the slot is not a button");
}

#[test]
fn toggles_map_to_repeat_and_shuffle() {
    let toggle = |item: BarItem, checked| to_message(BarEvent::Toggle(item.id(), checked));
    assert_eq!(toggle(BarItem::Repeat, true), Some(BarIntent::ToggleRepeat));
    assert_eq!(toggle(BarItem::Shuffle, true), Some(BarIntent::ToggleShuffle));
    assert_eq!(toggle(BarItem::Volume, true), None);
}

#[test]
fn slider_changes_map_to_seek_and_volume() {
    let change = |item: BarItem| to_message(BarEvent::SliderChange(item.id()));
    assert_eq!(change(BarItem::Seek), Some(BarIntent::Seek));
    assert_eq!(change(BarItem::Volume), Some(BarIntent::SetVolume));
    assert_eq!(change(BarItem::Elapsed), None);
    assert_eq!(to_message(BarEvent::SliderCommit(BarItem::Seek.id())), None);
}

#[test]
fn the_bar_lays_out_its_items_and_rebuilds_only_on_change() {
    let sig = BarSignature {
        playing: true,
        repeat: false,
        shuffle: true,
        seek_supported: false,
        has_duration: true,
        visualizer: false,
    };
    let slots = items(&sig);
    assert_eq!(slots.len(), 17);
    assert_eq!(slots[0], BarSlot::Button(BarItem::Previous));
    assert_eq!(slots[7], BarSlot::Toggle(BarItem::Shuffle, true));
    assert_eq!(slots[10], BarSlot::Slider(BarItem::Seek, false));
    assert_eq!(slots[16], BarSlot::Button(BarItem::ClearSearch));
    let with_viz = items(&BarSignature { visualizer: true, ..sig });
    assert_eq!(with_viz.len(), 19);
    assert_eq!(with_viz[15], BarSlot::Native(BarItem::Visualizer));
    assert!(needs_items(None, sig));
    assert!(!needs_items(Some(sig), sig));
    assert!(needs_items(Some(sig), BarSignature { playing: false, ..sig }));
    assert_eq!(play_tooltip(true), "Pause");
    assert_eq!(play_tooltip(false), "Play");
    assert_eq!(seek_tooltip(false), "Seeking isn't available for this track");
    assert_eq!(BarItem::Previous.id(), 1);
    assert_eq!(BarItem::ClearSearch.id(), 13);
}

#[test]
fn row_exposes_name_and_counts_in_order() {
    let row = NameCountRow::new("Aphex Twin".to_string(), vec!["3".to_string(), "42".to_string()]);
    assert_eq!(row.name(), "Aphex Twin");
    assert_eq!(row.count(0), "3");
    assert_eq!(row.count(1), "42");
    assert_eq!(row.count(2), "", "a missing count is empty");
}

#[test]
fn row_for_formats_the_artist_counts() {
    let artist = ArtistInfo { name: "Autechre".to_string(), album_count: 4, track_count: 51 };
    let row = row_for(&artist);
    assert_eq!(row.name(), "Autechre");
    assert_eq!(row.count(0), "4");
    assert_eq!(row.count(1), "51");
}

#[test]
fn the_context_row_names_its_artist() {
    let mut view = NameCountsView::new();
    assert_eq!(view.context_name(), None);
    view.set_rows(vec![
        NameCountRow::new("A".to_string(), Vec::new()),
        NameCountRow::new("B".to_string(), Vec::new()),
    ]);
    view.set_context_row(1);
    assert_eq!(view.context_name(), Some("B".to_string()));
    view.set_context_row(5);
    assert_eq!(view.context_name(), None);
    view.set_rows(vec![row_for(&ArtistInfo {
        name: "Autechre".to_string(),
        album_count: 4,
        track_count: 51,
    })]);
    assert_eq!(view.cell(0, 0), Some("Autechre"));
    assert_eq!(view.cell(0, 1), Some("4"));
    assert_eq!(view.cell(0, 2), Some("51"));
    assert_eq!(view.cell(0, 3), Some(""));
    assert_eq!(view.cell(1, 0), None);
}

fn track(id: u64, path: &str, genre: &str, artist: &str, album: &str) -> TrackInfo {
    TrackInfo {
        id,
        path: path.to_string(),
        genre: genre.to_string(),
        artist: artist.to_string(),
        album: album.to_string(),
        ..TrackInfo::default()
    }
}

#[test]
fn the_music_view_shows_browsed_search_hits_and_shuffles_them() {
    let tracks = vec![
        track(1, "a", "Rock", "A", "X"),
        track(2, "b", "Jazz", "A", "X"),
        track(3, "c", "Rock", "B", "Y"),
    ];
    let mut browser = ColumnBrowserState::default();
    browser.genres.click(Some("Rock"), false);
    let visible = visible_tracks(&tracks, &browser, &[true, true, false]);
    let ids: Vec<u64> = visible.iter().map(|t| t.id).collect();
    assert_eq!(ids, [1]);
    let all = visible_tracks(&tracks, &ColumnBrowserState::default(), &[true, true, true]);
    assert_eq!(
        shuffle_all(&all),
        Command::ShuffleScope { ids: vec![1, 2, 3], label: "Music".to_string() }
    );
    assert_eq!(tracks_label(3), "3 tracks");
    assert_eq!(tracks_label(0), "0 tracks");
}

fn signature(track_count: usize, browser: ColumnBrowserState) -> MusicSignature {
    MusicSignature { track_count, scan: false, search_active: false, search_count: None, browser }
}

#[test]
fn the_music_table_is_rebuilt_only_when_its_inputs_change() {
    let built = Some(signature(3, ColumnBrowserState::default()));
    assert!(rebuild_due(&None, &signature(3, ColumnBrowserState::default()), false));
    assert!(!rebuild_due(&built, &signature(3, ColumnBrowserState::default()), true));
    assert!(rebuild_due(&built, &signature(4, ColumnBrowserState::default()), true));
    assert!(!rebuild_due(&built, &signature(4, ColumnBrowserState::default()), false));
    let mut browser = ColumnBrowserState::default();
    browser.artists.click(Some("A"), false);
    assert!(rebuild_due(&built, &signature(3, browser), false));

    let mut view = MusicView::new();
    assert!(view.sync(signature(3, ColumnBrowserState::default()), false));
    assert!(!view.sync(signature(3, ColumnBrowserState::default()), true));
    assert!(!view.sync(signature(5, ColumnBrowserState::default()), false), "waits for a change");
    assert!(view.sync(signature(5, ColumnBrowserState::default()), true));
    assert_eq!(view.signature.as_ref().map(|s| s.track_count), Some(5));
}

#[test]
fn the_playing_track_is_found_by_path() {
    let tracks = vec![track(1, "a.flac", "", "", ""), track(2, "b.flac", "", "", "")];
    assert_eq!(currently_playing_id(&tracks, Some("b.flac")), Some(2));
    assert_eq!(currently_playing_id(&tracks, Some("c.flac")), None);
    assert_eq!(currently_playing_id(&tracks, None), None);
}

#[test]
fn the_progress_part_prefers_the_notice() {
    assert_eq!(progress_line(Some("notice"), Some("scan"), None, Some("msg")), "notice");
    assert_eq!(progress_line(None, Some("scan"), Some("tag"), Some("msg")), "scan");
    assert_eq!(progress_line(None, None, Some("tag"), Some("msg")), "tag");
    assert_eq!(progress_line(None, None, None, Some("msg")), "msg");
    assert_eq!(progress_line(None, None, None, None), "");
    let mut bar = StatusBarView::new();
    assert!(bar.sync(1, "x".to_string()));
    assert!(!bar.sync(1, "x".to_string()));
    assert!(bar.sync(1, "y".to_string()));
    assert!(bar.sync(2, "y".to_string()));
}

#[test]
fn same_size_is_a_plain_copy() {
    let image = RgbaImage { width: 1, height: 1, pixels: vec![10, 20, 30, 40] };
    let copy = to_win32(&image);
    assert_eq!((copy.width, copy.height, copy.pixels.clone()), (1, 1, vec![10, 20, 30, 40]));
    let mut sink = RgbaSink;
    let kept = sink.upload(7, &image).expect("a handle");
    assert_eq!(kept.pixels, image.pixels);
    let mut art = Win32ImageSink;
    let kept = art.upload(7, &image).expect("a handle");
    assert_eq!((kept.width, kept.height), (1, 1));
    assert_eq!(cover_edge(0), 1);
    assert_eq!(cover_edge(150), 150);
}

#[test]
fn placeholder_colour_is_stable_per_album_name() {
    assert_eq!(placeholder_parts("Echoes"), placeholder_parts("Echoes"));
    assert_ne!(placeholder_parts("Echoes"), placeholder_parts("Voyage"));
}

#[test]
fn placeholder_colour_is_deterministic() {
    assert_eq!(placeholder_parts("Album"), placeholder_parts("Album"));
    assert_ne!(placeholder_parts("Album"), placeholder_parts("Other"));
}

#[test]
fn the_placeholder_hash_is_times_31_plus_each_byte() {
    assert_eq!(seed_hash(""), 0);
    assert_eq!(seed_hash("a"), 97);
    assert_eq!(seed_hash("ab"), 97 * 31 + 98);
    let parts = placeholder_parts("ab");
    let h: u64 = 97 * 31 + 98;
    assert_eq!(parts.hue_degrees as u64, h % 360);
    assert_eq!(parts.saturation_extra as u64, (h / 360) % 40);
    assert_eq!(parts.brightness_extra as u64, (h / 14_400) % 30);
}

#[test]
fn queue_rows_are_numbered() {
    let queue = vec![
        QueueRow { number: 1, title: "One".to_string(), artist: "A".to_string() },
        QueueRow { number: 12, title: "Twelve".to_string(), artist: "B".to_string() },
    ];
    let items: Vec<QueueItem> = model(&queue);
    assert_eq!(items[0].number_text, "1.");
    assert_eq!(items[1].number_text, "12.");
    assert_eq!(items[1].title, "Twelve");
    assert_eq!(items[1].artist, "B");
}

#[test]
fn columns_round_trip_through_their_index() {
    for id in [ColumnId::Title, ColumnId::Year, ColumnId::File] {
        assert_eq!(column_id(column_index(id)), Some(id));
    }
    assert_eq!(column_index(ColumnId::Title), 2);
    assert_eq!(column_id(0), None);
    assert_eq!(column_id(1), None);
    assert_eq!(column_id(12), None);
    assert_eq!(star_glyph(true), "\u{2605}");
    assert_eq!(star_glyph(false), "\u{2606}");
}

#[test]
fn the_track_table_plays_stars_and_marks_rows() {
    let a = track(5, "a", "", "", "");
    let b = track(6, "b", "", "", "");
    let mut rows = TrackView::new();
    rows.set_rows(vec![
        TrackRow::new(a.clone(), vec!["Title A".to_string()]),
        TrackRow::new(b.clone(), vec!["Title B".to_string()]),
    ]);
    assert_eq!(rows.ids(), vec![5, 6]);
    assert_eq!(rows.activate(1), Some(Command::PlayTrack { id: 6, context: vec![5, 6] }));
    assert_eq!(rows.activate(2), None);
    assert_eq!(rows.cell(0, 1, Some(5)), Some("\u{25B6}"));
    assert_eq!(rows.cell(1, 1, Some(5)), Some(""));
    assert_eq!(rows.cell(1, 2, None), Some("Title B"));
    assert_eq!(rows.cell(1, 3, None), Some(""));
    assert_eq!(rows.cell(2, 0, None), None);
    assert_eq!(rows.cell(0, 0, None), Some("\u{2606}"));
    assert_eq!(rows.toggle_star(0), Some(Command::ToggleStarred(5)));
    assert_eq!(rows.cell(0, 0, None), Some("\u{2605}"));
    assert_eq!(rows.toggle_star(9), None);
    assert_eq!(run_context_action(ContextAction::PlayNext, &a), Some(Command::PlayTrackNext(5)));
    assert_eq!(rows.track(1).map(|t| t.id), Some(6));

    assert!(rows.sync_playing(Some(5)));
    assert!(!rows.sync_playing(Some(5)));
    let change = rows.show_sort_indicator(Some(ColumnId::Title), true).expect("a change");
    assert_eq!((change.clear, change.set), (None, Some((2, true))));
    assert!(rows.show_sort_indicator(Some(ColumnId::Title), true).is_none());
    let change = rows.show_sort_indicator(None, true).expect("a change");
    assert_eq!((change.clear, change.set), (Some(2), None));
}

fn node(path: &str, name: &str, children: Vec<DirNodeInfo>) -> DirNodeInfo {
    DirNodeInfo {
        path: path.to_string(),
        name: name.to_string(),
        direct_track_count: children.len(),
        total_track_count: children.len() + 1,
        children,
    }
}

fn sample() -> Vec<DirNodeInfo> {
    vec![
        node(
            r"C:\music",
            "music",
            vec![
                node(r"C:\music\Album", "Album", Vec::new()),
                node(r"C:\music\Live", "Live", Vec::new()),
            ],
        ),
        node(r"D:\other", "other", Vec::new()),
    ]
}

#[test]
fn children_are_looked_up_by_id_not_copied_from_a_slice() {
    let model = DirTreeModel::new(&sample());
    let roots = model.children(None);
    assert_eq!(roots.len(), 2, "two root folders");
    assert_eq!(roots[0].label, "music (3)");
    assert!(roots[0].has_children, "music has subfolders");
    assert!(!roots[1].has_children, "other is a leaf");

    let children = model.children(Some(roots[0].id));
    assert_eq!(children.len(), 2);
    assert_eq!(children[0].label, "Album (1)");
    assert_eq!(children[1].label, "Live (1)");
    assert!(model.children(Some(roots[1].id)).is_empty(), "a leaf has no children");
}

#[test]
fn paths_and_by_path_round_trip_every_node() {
    let model = DirTreeModel::new(&sample());
    let paths = model.paths();
    assert_eq!(paths.len(), model.len());
    for (id, path) in paths.iter().enumerate() {
        assert_eq!(model.by_path(path), Some(id), "id round-trips through path");
    }
}

#[test]
fn the_folders_view_never_lets_the_tree_pass_its_bounds() {
    let bounds = Rect { left: 0, top: 0, right: 100, bottom: 50 };
    let l = folders_layout(bounds, 240, 20, 8);
    assert_eq!(l.tree.right, 100);
    assert_eq!(l.subfolders_row.left, 108);
    assert_eq!(l.table.top, 20);
    let wide = Rect { left: 0, top: 0, right: 800, bottom: 600 };
    let l = folders_layout(wide, 240, 20, 8);
    assert_eq!((l.tree.right, l.table.left, l.table.bottom), (240, 248, 600));
}

fn album(name: &str, artist: &str, year: Option<u32>) -> AlbumInfo {
    AlbumInfo { name: name.to_string(), artist: artist.to_string(), year }
}

#[test]
fn albums_sort_by_artist_then_name_case_insensitively() {
    let albums = vec![
        album("zeta", "beta", None),
        album("Alpha", "Beta", Some(1999)),
        album("beta", "alpha", Some(2001)),
    ];
    let meta = album_meta(&Vec::new());
    let by_artist: Vec<&str> = sorted_albums(&albums, &meta, AlbumSort::Artist)
        .iter()
        .map(|a| a.name.as_str())
        .collect();
    assert_eq!(by_artist, ["beta", "Alpha", "zeta"]);
    let by_year: Vec<&str> = sorted_albums(&albums, &meta, AlbumSort::Year)
        .iter()
        .map(|a| a.name.as_str())
        .collect();
    assert_eq!(by_year, ["beta", "Alpha", "zeta"]);
    assert_eq!(AlbumSort::RecentlyAdded.label(), "Recently added");
}

#[test]
fn recently_added_follows_the_newest_track_id() {
    let mut t1 = track(10, "x/1", "", "A", "Old");
    t1.title = "1".to_string();
    let t2 = track(50, "y/1", "", "B", "New");
    let tracks = vec![t1, t2];
    let albums = vec![album("Old", "A", None), album("New", "B", None)];
    let meta = album_meta(&tracks);
    let recent: Vec<&str> = sorted_albums(&albums, &meta, AlbumSort::RecentlyAdded)
        .iter()
        .map(|a| a.name.as_str())
        .collect();
    assert_eq!(recent, ["New", "Old"]);
}

#[test]
fn album_tracks_come_in_disc_and_track_order() {
    let mut a = track(1, "p", "", "A", "X");
    a.disc_no = 2;
    a.track_no = 1;
    let mut b = track(2, "q", "", "", "X");
    b.disc_no = 1;
    b.track_no = 5;
    let mut c = track(3, "r", "", "A", "X");
    c.disc_no = 1;
    c.track_no = 2;
    let other = track(4, "s", "", "Z", "X");
    let tracks = vec![a, b, c, other];
    let x = album("X", "A", None);
    let ids: Vec<u64> = album_tracks(&tracks, &x).iter().map(|t| t.id).collect();
    assert_eq!(ids, [3, 2, 1]);
    assert!(belongs_to(&tracks[1], &x), "an empty artist tag belongs");
    assert!(!belongs_to(&tracks[3], &x));
    let _ = Theme::Dark;
}

#[test]
fn the_summary_offers_the_links_it_draws() {
    assert!(summary_hits(false, true, false, false, false, false).is_empty());
    assert_eq!(
        summary_hits(true, true, false, false, false, false),
        vec![
            SummaryHit::Star,
            SummaryHit::Artist,
            SummaryHit::Album,
            SummaryHit::Path,
            SummaryHit::Properties,
            SummaryHit::EditTags,
        ]
    );
    assert_eq!(
        summary_hits(true, false, true, false, true, false),
        vec![SummaryHit::Path],
        "an album line without an album is not a link"
    );
}
