use emusic_views::commands::{Command, PresetRequest, VizCommand, VizDock};
use emusic_views::preset_browser::{count_label, play_commands, PresetBrowserView, PresetRow};
use emusic_views::projectm::availability::{
    hint, is_fallback, panel_gesture, prepare_step, random_index, resolve_request,
    status_for_create_error, status_text, window_gesture, CreateError, EngineStatus,
    GestureIntent, PrepareStep, ProjectMAvailability, ProjectMEvent, ProjectMGesture, Status,
};
use emusic_views::projectm::feed::{interval_for, Feed, FramePacer, MAX_PENDING, NANOS_PER_SEC};
use emusic_views::projectm::grace::{GraceTimer, GRACE};
use emusic_views::projectm::overlay::{buttons, hit, label, overlay_fits, Action, Rect};
use emusic_views::projectm::surface::{Surface, SurfaceInput};

const MS: u64 = 1_000_000;

#[test]
fn take_returns_buffered_samples_oldest_first() {
    let mut feed: Feed<f32> = Feed::new();
    feed.push(&[1.0, 2.0]);
    feed.push(&[3.0]);
    assert_eq!(feed.take(), vec![1.0, 2.0, 3.0]);
    assert!(feed.take().is_empty());
}

#[test]
fn buffered_samples_are_capped() {
    let mut feed: Feed<f32> = Feed::new();
    let block = vec![1.0; MAX_PENDING];
    feed.push(&block);
    feed.push(&[2.0, 3.0]);
    let taken = feed.take();
    assert_eq!(taken.len(), MAX_PENDING);
    assert_eq!(&taken[taken.len() - 2..], &[2.0, 3.0]);
}

#[test]
fn silence_is_one_block_of_zeros() {
    let mut feed: Feed<f32> = Feed::new();
    feed.push(&[5.0]);
    feed.push_silence(0.0);
    let taken = feed.take();
    assert_eq!(taken.len(), 1 + 2048);
    assert_eq!(taken[0], 5.0);
    assert!(taken[1..].iter().all(|s| *s == 0.0));
}

#[test]
fn silence_keeps_a_full_buffer_at_its_cap() {
    let mut feed: Feed<f32> = Feed::new();
    feed.push(&vec![1.0; MAX_PENDING]);
    feed.push_silence(0.0);
    let taken = feed.take();
    assert_eq!(taken.len(), MAX_PENDING);
    assert_eq!(taken[MAX_PENDING - 2048 - 1], 1.0);
    assert!(taken[MAX_PENDING - 2048..].iter().all(|s| *s == 0.0));
    feed.feed(false, &[], 0.0);
    feed.feed(true, &[5.0], 0.0);
    assert_eq!(feed.take().len(), 2048 + 1);
}

#[test]
fn pacer_rejects_frames_inside_the_interval() {
    let mut pacer = FramePacer::new(30);
    let start: u64 = 7 * NANOS_PER_SEC;
    assert!(pacer.due(start));
    assert!(!pacer.due(start + 5 * MS));
    assert!(pacer.due(start + 40 * MS));
}

#[test]
fn pacer_never_divides_by_zero() {
    let mut pacer = FramePacer::new(0);
    assert!(pacer.due(123));
}

#[test]
fn frame_intervals_are_whole_nanoseconds() {
    assert_eq!(interval_for(0), NANOS_PER_SEC);
    assert_eq!(interval_for(30), 33_333_333);
    assert_eq!(interval_for(60), 16_666_666);
    assert_eq!(interval_for(u32::MAX), 1, "never zero");
    let mut pacer = FramePacer::new(60);
    assert!(pacer.due(1_000));
    pacer.set_fps(1);
    assert!(!pacer.due(1_000 + NANOS_PER_SEC - 1));
    assert!(pacer.due(1_000 + NANOS_PER_SEC));
    assert!(!pacer.due(500), "a clock reading earlier counts as no time passed");
}

#[test]
fn an_armed_timer_waits_the_grace_period_then_is_due() {
    let start: u64 = 1_000 * NANOS_PER_SEC;
    let mut timer = GraceTimer::default();
    timer.arm(start);
    assert_eq!(timer.wait(start), Some(GRACE));
    let almost = start + GRACE - MS;
    assert!(!timer.take_due(almost));
    assert_eq!(timer.wait(almost), Some(MS));
    assert!(timer.take_due(start + GRACE));
    assert_eq!(timer.wait(start + GRACE), None, "a due timer clears itself");
}

#[test]
fn rearming_does_not_extend_the_deadline() {
    let start: u64 = 1_000 * NANOS_PER_SEC;
    let mut timer = GraceTimer::default();
    timer.arm(start);
    timer.arm(start + 9 * NANOS_PER_SEC);
    assert_eq!(timer.wait(start), Some(GRACE));
    assert!(timer.take_due(start + GRACE));
}

#[test]
fn disarming_leaves_nothing_pending() {
    let start: u64 = 1_000 * NANOS_PER_SEC;
    let mut timer = GraceTimer::default();
    timer.arm(start);
    timer.disarm();
    assert_eq!(timer.wait(start), None);
    assert!(!timer.take_due(start + GRACE));
}

#[test]
fn an_idle_timer_is_never_due() {
    let mut timer = GraceTimer::new();
    assert_eq!(timer.wait(42), None);
    assert!(!timer.take_due(42));
}

#[test]
fn buttons_are_right_aligned_in_a_row() {
    let bounds = Rect { left: 0, top: 0, right: 400, bottom: 300 };
    let buttons = buttons(bounds, 96);
    assert_eq!(buttons.len(), 3);
    assert_eq!(
        buttons.iter().map(|b| b.action).collect::<Vec<_>>(),
        vec![Action::PopOut, Action::Fullscreen, Action::Hide]
    );
    let last = buttons.last().expect("three buttons");
    assert_eq!(last.rect.right, 400 - 6);
    assert!(buttons.iter().all(|b| b.rect.top == 6));
    assert!(buttons[0].rect.left < buttons[1].rect.left);
    assert!(buttons[1].rect.left < buttons[2].rect.left);
}

#[test]
fn hit_finds_the_button_under_the_point() {
    let bounds = Rect { left: 0, top: 0, right: 400, bottom: 300 };
    let buttons = buttons(bounds, 96);
    let fullscreen = buttons[1].rect;
    let centre = (
        (fullscreen.left + fullscreen.right) / 2,
        (fullscreen.top + fullscreen.bottom) / 2,
    );
    assert_eq!(hit(&buttons, centre.0, centre.1), Some(Action::Fullscreen));
    assert_eq!(hit(&buttons, 0, 0), None);
}

#[test]
fn hit_ignores_the_gaps_between_buttons() {
    let bounds = Rect { left: 0, top: 0, right: 400, bottom: 300 };
    let buttons = buttons(bounds, 96);
    let gap_x = buttons[1].rect.right + 1;
    assert_eq!(hit(&buttons, gap_x, buttons[1].rect.top + 1), None);
}

#[test]
fn overlay_buttons_scale_with_the_dpi() {
    let bounds = Rect { left: 0, top: 0, right: 800, bottom: 600 };
    let b = buttons(bounds, 192);
    assert_eq!(b[2].rect.right, 800 - 12);
    assert_eq!(b[2].rect.right - b[2].rect.left, 152);
    assert_eq!(b[0].rect.bottom - b[0].rect.top, 44);
    assert_eq!(label(Action::PopOut), "Pop out");
    assert_eq!(label(Action::Hide), "Hide");
}

#[test]
fn hint_covers_every_unavailable_state() {
    assert_eq!(hint(&ProjectMAvailability::MissingLibrary), "projectM not installed");
    assert_eq!(hint(&ProjectMAvailability::NoOpenGl), "OpenGL 3.3 unavailable");
    assert!(hint(&ProjectMAvailability::Available("4.1.7".into())).is_empty());
}

#[test]
fn availability_is_worded_for_the_settings_page() {
    assert_eq!(status_text(&ProjectMAvailability::Unknown), "starting...");
    assert_eq!(status_text(&ProjectMAvailability::MissingLibrary), "projectM not installed");
    assert_eq!(status_text(&ProjectMAvailability::NoOpenGl), "OpenGL 3.3 unavailable");
    assert_eq!(
        status_text(&ProjectMAvailability::Available("4.1.7".to_owned())),
        "projectM 4.1.7"
    );
    assert_eq!(
        status_text(&ProjectMAvailability::Available("projectM 4.1.7".to_owned())),
        "projectM 4.1.7"
    );
    assert_eq!(status_text(&ProjectMAvailability::Available(String::new())), "projectM running");
}

#[test]
fn play_commands_show_then_play_the_index() {
    let commands = play_commands(7);
    assert_eq!(
        commands[0],
        Command::Viz(VizCommand::SetVisible(true)),
        "playing a preset must make the visualization visible"
    );
    assert_eq!(commands[1], Command::Viz(VizCommand::Preset(PresetRequest::Index(7))));
}

#[test]
fn create_errors_split_into_missing_library_and_no_gl() {
    assert_eq!(status_for_create_error(CreateError::DllNotFound), Status::MissingLibrary);
    assert_eq!(status_for_create_error(CreateError::MissingSymbol), Status::MissingLibrary);
    assert_eq!(status_for_create_error(CreateError::WrongContext), Status::NoOpenGl);
    assert_eq!(status_for_create_error(CreateError::GlewInit), Status::NoOpenGl);
    assert!(is_fallback(Status::NoOpenGl));
    assert!(!is_fallback(Status::Running));
    assert!(!is_fallback(Status::Unknown));
}

#[test]
fn engine_status_reports_each_change_once() {
    let mut engine = EngineStatus::new();
    assert_eq!(engine.availability(), ProjectMAvailability::Unknown);
    assert_eq!(
        engine.created("4.1.7".to_string()),
        Some(ProjectMEvent::AvailabilityChanged(ProjectMAvailability::Available(
            "4.1.7".to_string()
        )))
    );
    assert_eq!(engine.change(Status::Running), None);
    assert_eq!(engine.availability(), ProjectMAvailability::Available("4.1.7".to_string()));
    assert_eq!(engine.report_no_gl(), None, "only an undecided engine reports missing GL");
    assert_eq!(
        engine.create_failed(CreateError::NoCurrentContext),
        Some(ProjectMEvent::AvailabilityChanged(ProjectMAvailability::NoOpenGl))
    );
}

#[test]
fn a_first_paint_that_never_reached_gl_reports_no_opengl() {
    let mut engine = EngineStatus::new();
    assert_eq!(
        engine.report_no_gl(),
        Some(ProjectMEvent::AvailabilityChanged(ProjectMAvailability::NoOpenGl))
    );
    let mut painted = EngineStatus::new();
    painted.mark_gl_painted();
    assert_eq!(painted.report_no_gl(), None);
    painted.teardown();
    assert!(!painted.gl_painted);
}

#[test]
fn prepare_creates_once_then_only_resizes() {
    assert_eq!(prepare_step(None, 640, 480, Status::Unknown, true), PrepareStep::Create);
    assert_eq!(prepare_step(None, 640, 480, Status::Unknown, false), PrepareStep::ReportMissing);
    assert_eq!(prepare_step(None, 640, 480, Status::NoOpenGl, true), PrepareStep::Nothing);
    assert_eq!(prepare_step(Some((640, 480)), 640, 480, Status::Running, true), PrepareStep::Nothing);
    assert_eq!(prepare_step(Some((640, 480)), 800, 480, Status::Running, true), PrepareStep::Resize);
}

#[test]
fn gestures_map_to_dock_fullscreen_hide_and_menu() {
    assert_eq!(
        panel_gesture(ProjectMGesture::PopOut),
        GestureIntent::Viz(VizCommand::SetDock(VizDock::Window))
    );
    assert_eq!(
        window_gesture(ProjectMGesture::PopOut),
        GestureIntent::Viz(VizCommand::SetDock(VizDock::Panel))
    );
    assert_eq!(
        window_gesture(ProjectMGesture::DoubleClick),
        GestureIntent::Viz(VizCommand::SetFullscreen(true))
    );
    assert_eq!(
        panel_gesture(ProjectMGesture::Hide),
        GestureIntent::Viz(VizCommand::SetVisible(false))
    );
    assert_eq!(panel_gesture(ProjectMGesture::ContextMenu), GestureIntent::Menu);
}

#[test]
fn a_random_preset_is_drawn_from_the_clock() {
    assert_eq!(random_index(1_234_567, 10), 7);
    assert_eq!(resolve_request(PresetRequest::Random, 0, 99), None);
    assert_eq!(
        resolve_request(PresetRequest::Random, 4, 10),
        Some(PresetRequest::Index(2))
    );
    assert_eq!(resolve_request(PresetRequest::Next, 0, 1), Some(PresetRequest::Next));
}

#[test]
fn the_surface_paces_frames_and_reports_gestures() {
    let mut surface = Surface {
        visible: true,
        hovered: false,
        engine: EngineStatus::new(),
        pacer: FramePacer::new(30),
    };
    let bounds = Rect { left: 0, top: 0, right: 400, bottom: 300 };
    let first = surface.input(SurfaceInput::Frame, 0, bounds, 96);
    assert_eq!(first.animate, Some(true));
    assert_eq!(
        first.event,
        Some(ProjectMEvent::AvailabilityChanged(ProjectMAvailability::NoOpenGl))
    );
    assert!(first.invalidate, "the placeholder paints the first frame");
    let soon = surface.input(SurfaceInput::Frame, 5 * MS, bounds, 96);
    assert!(!soon.invalidate);
    assert_eq!(soon.event, None);

    let tick = surface.input(SurfaceInput::Tick, 50 * MS, bounds, 96);
    assert!(tick.advance);
    assert!(tick.invalidate);

    let enter = surface.input(SurfaceInput::MouseMove, 0, bounds, 96);
    assert!(enter.invalidate, "the overlay appears on the placeholder");
    let again = surface.input(SurfaceInput::MouseMove, 0, bounds, 96);
    assert!(!again.invalidate);

    let b = buttons(bounds, 96);
    let x = (b[2].rect.left + b[2].rect.right) / 2;
    let y = (b[2].rect.top + b[2].rect.bottom) / 2;
    let click = surface.input(SurfaceInput::LeftDown(x, y), 0, bounds, 96);
    assert_eq!(click.gesture, Some(ProjectMGesture::Hide));
    let miss = surface.input(SurfaceInput::LeftDown(1, 299), 0, bounds, 96);
    assert_eq!(miss.gesture, None);
    let double = surface.input(SurfaceInput::DoubleClick, 0, bounds, 96);
    assert_eq!(double.gesture, Some(ProjectMGesture::DoubleClick));

    surface.set_visible(false);
    assert!(!surface.hovered);
    let hidden = surface.input(SurfaceInput::Tick, 100 * MS, bounds, 96);
    assert_eq!(hidden.animate, Some(false));
    assert!(!hidden.advance);
}

#[test]
fn the_preset_browser_highlights_the_playing_row() {
    let mut view = PresetBrowserView {
        rows: vec![
            PresetRow { name: "a".to_string(), pack: "p".to_string(), playlist_index: 4 },
            PresetRow { name: "b".to_string(), pack: "p".to_string(), playlist_index: 9 },
        ],
        current: None,
        revealed: false,
    };
    assert_eq!(view.playlist_index(1), Some(9));
    assert_eq!(view.playlist_index(2), None);
    assert!(view.set_current(Some(4)));
    assert!(!view.set_current(Some(4)));
    assert!(view.is_current(0));
    assert!(!view.is_current(1));
    assert!(!view.is_current(5));
    assert_eq!(count_label(2, 552), "2 of 552");

    let mut empty = PresetBrowserView { rows: Vec::new(), current: None, revealed: false };
    assert!(!empty.set_current(Some(9)), "no rows, nothing to repaint");
    empty.note_revealed(false, true);
    assert!(empty.revealed);
    empty.set_visible(false);
    assert!(!empty.revealed);
}

#[test]
fn an_armed_timer_ignores_a_late_rearm() {
    let mut timer = GraceTimer::new();
    timer.arm(5);
    timer.arm(u64::MAX);
    assert_eq!(timer.wait(5), Some(GRACE));
}

#[test]
fn the_overlay_fits_ordinary_bounds_at_any_dpi() {
    let bounds = Rect { left: 0, top: 0, right: 400, bottom: 300 };
    assert!(overlay_fits(bounds, 96));
    assert!(overlay_fits(bounds, 4_000_000));
    assert!(!overlay_fits(bounds, u32::MAX));
    let far = Rect { left: i32::MIN, top: 0, right: i32::MIN + 10, bottom: 10 };
    assert!(!overlay_fits(far, 96));
    let wide = buttons(Rect { left: 0, top: 0, right: 1_000_000, bottom: 10 }, 2_000_000);
    assert_eq!(wide[2].rect.right, 1_000_000 - 125_000);
}
