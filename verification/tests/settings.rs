use emusic_views::appearance::{theme_command, SessionOptions, Theme};
use emusic_views::commands::Command;
use emusic_views::library_folders::{folders_status, LibraryFolders};
use emusic_views::presets::{
    helper_note, is_preset_extension, is_whitespace, known_packs, pack_count, pack_enabled, pack_status,
    parse_path, preset_dirs, set_pack_enabled, PresetSources,
};
use emusic_views::swatches::{hit, swatch_rect, AccentSwatches};
use emusic_views::projectm::overlay::Rect;

fn strings(v: &[&str]) -> Vec<String> {
    v.iter().map(|s| (*s).to_string()).collect()
}

#[test]
fn parse_path_trims_whitespace_and_quotes() {
    assert_eq!(
        parse_path(r#"  "C:\presets\mine"  "#),
        Some(r"C:\presets\mine".to_string())
    );
    assert_eq!(parse_path("   "), None);
}

#[test]
fn parse_path_keeps_inner_spaces_and_drops_bare_quotes() {
    assert_eq!(parse_path("\t D:\\My Presets \n"), Some("D:\\My Presets".to_string()));
    assert_eq!(parse_path("\"\""), None);
    assert_eq!(parse_path(""), None);
}

#[test]
fn pack_status_shows_installed_counts_and_missing_packs() {
    assert_eq!(pack_status(false, None), "not installed");
    assert_eq!(pack_status(true, None), "counting...");
    assert_eq!(pack_status(true, Some(552)), "552 presets");
}

#[test]
fn the_known_packs_are_listed_in_display_order() {
    assert_eq!(
        known_packs(),
        ["milkdrop-original", "cream-of-the-crop", "en-d", "projectm-classic"]
    );
}

#[test]
fn scan_finds_milk_files_recursively_and_skips_others() {
    assert!(is_preset_extension(Some("milk")));
    assert!(is_preset_extension(Some("MILK")));
    assert!(is_preset_extension(Some("Milk")));
    assert!(!is_preset_extension(Some("txt")));
    assert!(!is_preset_extension(Some("milks")));
    assert!(!is_preset_extension(None));
}

#[test]
fn resolve_keeps_enabled_packs_and_the_user_folder() {
    let packs = strings(&[
        "x/visualizations/presets/milkdrop-original",
        "x/visualizations/presets/projectm-classic",
    ]);
    let names = vec![
        Some("milkdrop-original".to_string()),
        Some("projectm-classic".to_string()),
    ];
    let disabled = strings(&["projectm-classic"]);
    let dirs = preset_dirs(packs, &names, &disabled, Some("x/my-presets".to_string()));
    assert_eq!(
        dirs,
        strings(&["x/visualizations/presets/milkdrop-original", "x/my-presets"])
    );
}

#[test]
fn resolve_without_an_install_layout_is_empty() {
    let dirs: Vec<String> = preset_dirs(Vec::new(), &Vec::new(), &Vec::new(), None);
    assert!(dirs.is_empty());
}

#[test]
fn an_unreadable_pack_name_is_kept() {
    assert_eq!(preset_dirs(strings(&["p"]), &vec![None], &strings(&["p"]), None), strings(&["p"]));
}

#[test]
fn switching_a_pack_off_and_on_restores_it() {
    let mut disabled = strings(&["en-d", "en-d", "projectm-classic"]);
    set_pack_enabled(&mut disabled, "en-d", true);
    assert_eq!(disabled, strings(&["projectm-classic"]));
    assert!(pack_enabled(&disabled, "en-d"));
    set_pack_enabled(&mut disabled, "milkdrop-original", false);
    assert_eq!(disabled, strings(&["projectm-classic", "milkdrop-original"]));
    assert!(!pack_enabled(&disabled, "milkdrop-original"));
    set_pack_enabled(&mut disabled, "milkdrop-original", true);
    assert_eq!(disabled, strings(&["projectm-classic"]));
}

#[test]
fn the_user_folder_is_committed_trimmed_and_cleared() {
    let mut sources = PresetSources { disabled_packs: Vec::new(), user_preset_dir: None };
    sources.commit_user_dir("  \"C:\\mine\" ");
    assert_eq!(sources.user_preset_dir, Some("C:\\mine".to_string()));
    sources.commit_user_dir("   ");
    assert_eq!(sources.user_preset_dir, None);
    sources.pick_user_dir("D:\\picked".to_string());
    assert_eq!(sources.user_preset_dir, Some("D:\\picked".to_string()));
    sources.set_pack("en-d", false);
    assert_eq!(sources.disabled_packs, strings(&["en-d"]));
    sources.clear_user_dir();
    assert_eq!(sources.user_preset_dir, None);
}

#[test]
fn a_picked_folder_is_added_once() {
    let mut folders = LibraryFolders::new();
    assert!(folders.sync(&strings(&["C:\\music"])));
    assert!(!folders.sync(&strings(&["C:\\music"])));
    assert_eq!(folders.folder_picked("C:\\music".to_string()), None);
    assert_eq!(
        folders.folder_picked("D:\\more".to_string()),
        Some(Command::LibraryAddFolder("D:\\more".to_string()))
    );
    assert_eq!(
        folders.remove_selected(Some(0)),
        Some(Command::LibraryRemoveFolder("C:\\music".to_string()))
    );
    assert_eq!(folders.remove_selected(Some(1)), None);
    assert_eq!(folders.remove_selected(None), None);
    assert_eq!(folders_status(true), "No folders yet. Add one to start scanning.");
    assert_eq!(folders_status(false), "");
}

#[test]
fn a_theme_choice_toggles_only_when_it_differs() {
    assert_eq!(theme_command(Theme::Dark, Theme::Dark), None);
    assert_eq!(theme_command(Theme::Dark, Theme::Light), Some(Command::ToggleTheme));
    let session = SessionOptions { resume_playback: false, autoplay_on_restore: true };
    assert!(!session.autoplay_enabled());
}

#[test]
fn swatches_are_hit_left_to_right() {
    let bounds = Rect { left: 10, top: 0, right: 400, bottom: 40 };
    let first = swatch_rect(0, bounds, 96, 8);
    assert_eq!((first.left, first.top, first.right, first.bottom), (12, 8, 36, 32));
    let second = swatch_rect(1, bounds, 96, 8);
    assert_eq!(second.left, 46);
    assert_eq!(hit(20, 20, bounds, 96, 8), Some(0));
    assert_eq!(hit(50, 20, bounds, 96, 8), Some(1));
    assert_eq!(hit(40, 20, bounds, 96, 8), None, "the gap between swatches");
    assert_eq!(hit(20, 35, bounds, 96, 8), None);
    let short = Rect { left: 0, top: 0, right: 400, bottom: 3 };
    assert_eq!(swatch_rect(0, short, 96, 8).top, -10);
    let mut swatches = AccentSwatches { selected: 0 };
    assert!(swatches.select(3));
    assert!(!swatches.select(3));
}

#[test]
fn a_pack_row_reads_its_count_from_the_finished_scan() {
    let counts = vec![("milkdrop-original".to_string(), 1), ("en-d".to_string(), 0)];
    assert_eq!(pack_count(&counts, "milkdrop-original"), Some(1));
    assert_eq!(pack_count(&counts, "en-d"), Some(0));
    assert_eq!(pack_count(&counts, "cream-of-the-crop"), None);
    assert_eq!(
        helper_note(false, "C:\\emusic"),
        "emusic-presets-setup.exe was not found next to C:\\emusic."
    );
    assert!(helper_note(true, "x").starts_with("Opens the optional preset downloader"));
}

#[test]
fn scanned_pack_folders_keep_their_order() {
    let names = vec![
        Some("milkdrop-original".to_string()),
        Some("projectm-classic".to_string()),
        None,
        Some("en-d".to_string()),
    ];
    let dirs = preset_dirs(vec![0u8, 1, 2, 3], &names, &strings(&["projectm-classic"]), Some(9));
    assert_eq!(dirs, vec![0, 2, 3, 9]);
}

#[test]
fn white_space_is_the_unicode_set() {
    for c in ['\t', '\n', '\r', ' ', '\u{85}', '\u{a0}', '\u{2003}', '\u{3000}'] {
        assert!(is_whitespace(c));
        assert_eq!(is_whitespace(c), c.is_whitespace());
    }
    for c in ['a', '"', '\u{200b}', '\u{feff}'] {
        assert!(!is_whitespace(c));
        assert_eq!(is_whitespace(c), c.is_whitespace());
    }
    assert_eq!(parse_path("\u{3000}\u{a0} "), None);
}
