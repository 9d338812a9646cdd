//! The projectM engine status: what the surface reports, how it is worded,
//! and how a status change becomes an event; plus the gestures and preset
//! commands the surfaces raise.

use vstd::prelude::*;

use crate::commands::{PresetRequest, VizCommand, VizDock};
use crate::projectm::overlay::Action;
use crate::text::{chars_of, str_eq};

verus! {

/// The engine status as the frontend sees it.
#[derive(Debug, Clone, PartialEq, Eq)]
pub enum ProjectMAvailability {
    /// No paint has decided yet.
    Unknown,
    /// projectM runs; the library's version string.
    Available(String),
    /// The projectM libraries could not be loaded.
    MissingLibrary,
    /// No OpenGL 3.3 context could be created.
    NoOpenGl,
}

/// The one-line hint explaining why the placeholder is showing.
pub open spec fn hint_text(a: ProjectMAvailability) -> Seq<char> {
    match a {
        ProjectMAvailability::Unknown => "starting projectM\u{2026}"@,
        ProjectMAvailability::MissingLibrary => "projectM not installed"@,
        ProjectMAvailability::NoOpenGl => "OpenGL 3.3 unavailable"@,
        ProjectMAvailability::Available(_) => ""@,
    }
}

/// The one-line hint explaining why the placeholder is showing; empty while
/// projectM runs.
pub fn hint(availability: &ProjectMAvailability) -> (s: &'static str)
    ensures
        s@ == hint_text(*availability),
{
    match availability {
        ProjectMAvailability::Unknown => "starting projectM\u{2026}",
        ProjectMAvailability::MissingLibrary => "projectM not installed",
        ProjectMAvailability::NoOpenGl => "OpenGL 3.3 unavailable",
        ProjectMAvailability::Available(_) => "",
    }
}

/// The settings page's status line for `a`.
pub open spec fn status_line(a: ProjectMAvailability) -> Seq<char> {
    match a {
        ProjectMAvailability::Unknown => "starting..."@,
        ProjectMAvailability::Available(v) => if v@.len() == 0 {
            "projectM running"@
        } else if v@.len() >= 8 && v@.take(8) == "projectM"@ {
            v@
        } else {
            "projectM "@ + v@
        },
        ProjectMAvailability::MissingLibrary => "projectM not installed"@,
        ProjectMAvailability::NoOpenGl => "OpenGL 3.3 unavailable"@,
    }
}

/// Whether `s` starts with the characters of `prefix`.
fn starts_with(s: &str, prefix: &str) -> (r: bool)
    ensures
        r == (prefix@.len() <= s@.len() && s@.take(prefix@.len() as int) == prefix@),
{
    let a = chars_of(s);
    let p = chars_of(prefix);
    if p.len() > a.len() {
        return false;
    }
    let mut i: usize = 0;
    while i < p.len()
        invariant
            a@ == s@,
            p@ == prefix@,
            p@.len() <= a@.len(),
            i <= p@.len(),
            a@.take(i as int) == p@.take(i as int),
        decreases p@.len() - i,
    {
        if a[i] != p[i] {
            proof {
                assert(a@.take(p@.len() as int)[i as int] != p@[i as int]);
                assert(s@.take(prefix@.len() as int) != prefix@);
            }
            return false;
        }
        proof {
            assert(a@.take(i + 1) =~= a@.take(i as int).push(a@[i as int]));
            assert(p@.take(i + 1) =~= p@.take(i as int).push(p@[i as int]));
        }
        i = i + 1;
    }
    proof {
        assert(p@.take(p@.len() as int) =~= p@);
    }
    true
}

/// The projectM engine status line on the Visualization settings page.
pub fn status_text(availability: &ProjectMAvailability) -> (s: String)
    ensures
        s@ == status_line(*availability),
{
    match availability {
        ProjectMAvailability::Unknown => "starting...".to_string(),
        ProjectMAvailability::Available(version) => {
            proof {
                reveal_strlit("projectM");
            }
            if version.as_str().is_empty() {
                "projectM running".to_string()
            } else if starts_with(version.as_str(), "projectM") {
                version.clone()
            } else {
                let mut s = "projectM ".to_string();
                s.append(version.as_str());
                s
            }
        },
        ProjectMAvailability::MissingLibrary => "projectM not installed".to_string(),
        ProjectMAvailability::NoOpenGl => "OpenGL 3.3 unavailable".to_string(),
    }
}

/// How the engine currently runs.
#[derive(Debug, Clone, Copy, PartialEq, Eq, Structural)]
pub enum Status {
    /// No paint has decided yet.
    Unknown,
    /// projectM is loaded and rendering.
    Running,
    /// The projectM libraries could not be loaded.
    MissingLibrary,
    /// No OpenGL 3.3 context could be created.
    NoOpenGl,
}

/// Whether projectM could not run, so the placeholder is painted.
pub fn is_fallback(status: Status) -> (r: bool)
    ensures
        r == (status == Status::MissingLibrary || status == Status::NoOpenGl),
{
    match status {
        Status::MissingLibrary | Status::NoOpenGl => true,
        _ => false,
    }
}

/// Why creating a projectM instance failed.
#[derive(Debug, Clone, Copy, PartialEq, Eq, Structural)]
pub enum CreateError {
    DllNotFound,
    MissingSymbol,
    NoCurrentContext,
    WrongContext,
    GlewInit,
    CreateFailed,
    InvalidString,
}

/// Maps a failed instance creation onto a status: the library errors mean
/// projectM is missing, the context-bound ones that GL is unusable.
pub fn status_for_create_error(err: CreateError) -> (s: Status)
    ensures
        s == if err == CreateError::DllNotFound || err == CreateError::MissingSymbol {
            Status::MissingLibrary
        } else {
            Status::NoOpenGl
        },
{
    match err {
        CreateError::DllNotFound | CreateError::MissingSymbol => Status::MissingLibrary,
        CreateError::NoCurrentContext
        | CreateError::WrongContext
        | CreateError::GlewInit
        | CreateError::CreateFailed
        | CreateError::InvalidString => Status::NoOpenGl,
    }
}

/// Something the surface did that the frontend may want to mirror.
#[derive(Debug, Clone, PartialEq, Eq)]
pub enum ProjectMEvent {
    /// The playlist moved on, showing the preset file at this path.
    PresetShown(String),
    /// The engine status changed.
    AvailabilityChanged(ProjectMAvailability),
}

/// The engine's status bookkeeping: the status, the version it reports
/// while running, and whether a paint reached the GL path.
#[derive(Debug, Clone)]
pub struct EngineStatus {
    pub status: Status,
    pub version: Option<String>,
    pub gl_painted: bool,
}

/// The reported version text: the version, or empty.
pub open spec fn version_view(version: Option<String>) -> Seq<char> {
    match version {
        Some(v) => v@,
        None => Seq::empty(),
    }
}

/// Whether `a` is what the engine reports in `status` with `version`.
pub open spec fn reports(status: Status, version: Option<String>, a: ProjectMAvailability) -> bool {
    match (status, a) {
        (Status::Unknown, ProjectMAvailability::Unknown) => true,
        (Status::Running, ProjectMAvailability::Available(v)) => v@ == version_view(version),
        (Status::MissingLibrary, ProjectMAvailability::MissingLibrary) => true,
        (Status::NoOpenGl, ProjectMAvailability::NoOpenGl) => true,
        _ => false,
    }
}

impl EngineStatus {
    /// No decision yet.
    pub fn new() -> (e: Self)
        ensures
            e.status == Status::Unknown,
            e.version is None,
            !e.gl_painted,
    {
        EngineStatus { status: Status::Unknown, version: None, gl_painted: false }
    }

    /// The engine status as last decided.
    pub fn availability(&self) -> (a: ProjectMAvailability)
        ensures
            reports(self.status, self.version, a),
    {
        match self.status {
            Status::Unknown => ProjectMAvailability::Unknown,
            Status::Running => ProjectMAvailability::Available(
                match &self.version {
                    Some(v) => v.clone(),
                    None => String::new(),
                },
            ),
            Status::MissingLibrary => ProjectMAvailability::MissingLibrary,
            Status::NoOpenGl => ProjectMAvailability::NoOpenGl,
        }
    }

    /// Records a status change and returns the matching event; no event
    /// when the status stays.
    pub fn change(&mut self, status: Status) -> (e: Option<ProjectMEvent>)
        ensures
            final(self).status == status,
            final(self).version == old(self).version,
            final(self).gl_painted == old(self).gl_painted,
            old(self).status == status ==> e is None,
            old(self).status != status ==> (e is Some && e->0 is AvailabilityChanged && reports(
                status,
                old(self).version,
                e->0->AvailabilityChanged_0,
            )),
    {
        if self.status == status {
            return None;
        }
        self.status = status;
        let a = self.availability();
        Some(ProjectMEvent::AvailabilityChanged(a))
    }

    /// Notes that a frame reached the GL paint.
    pub fn mark_gl_painted(&mut self)
        ensures
            final(self).gl_painted,
            final(self).status == old(self).status,
            final(self).version == old(self).version,
    {
        self.gl_painted = true;
    }

    /// Reports that the GL surface could not be created, when the first
    /// paint never reached the GL path.
    pub fn report_no_gl(&mut self) -> (e: Option<ProjectMEvent>)
        ensures
            (old(self).status == Status::Unknown && !old(self).gl_painted) ==> final(self).status
                == Status::NoOpenGl,
            (old(self).status == Status::Unknown && !old(self).gl_painted) ==> e == Some(
                ProjectMEvent::AvailabilityChanged(ProjectMAvailability::NoOpenGl),
            ),
            !(old(self).status == Status::Unknown && !old(self).gl_painted) ==> (e is None
                && final(self).status == old(self).status),
            final(self).gl_painted == old(self).gl_painted,
            final(self).version == old(self).version,
    {
        if self.status == Status::Unknown && !self.gl_painted {
            self.status = Status::NoOpenGl;
            Some(ProjectMEvent::AvailabilityChanged(ProjectMAvailability::NoOpenGl))
        } else {
            None
        }
    }
}

impl EngineStatus {
    /// The libraries could not be loaded when the surface was built: the
    /// placeholder is painted from the first frame.
    pub fn libraries_missing(&mut self)
        ensures
            final(self).status == Status::MissingLibrary,
            final(self).version == old(self).version,
            final(self).gl_painted == old(self).gl_painted,
    {
        self.status = Status::MissingLibrary;
    }

    /// An instance was created, reporting `version`: the engine runs.
    pub fn created(&mut self, version: String) -> (e: Option<ProjectMEvent>)
        ensures
            final(self).status == Status::Running,
            final(self).version is Some && final(self).version->0@ == version@,
            final(self).gl_painted == old(self).gl_painted,
            old(self).status == Status::Running ==> e is None,
            old(self).status != Status::Running ==> (e matches Some(
                ProjectMEvent::AvailabilityChanged(ProjectMAvailability::Available(v)),
            ) && v@ == version@),
    {
        self.version = Some(version);
        self.change(Status::Running)
    }

    /// Creating an instance failed with `err`.
    pub fn create_failed(&mut self, err: CreateError) -> (e: Option<ProjectMEvent>)
        ensures
            final(self).status == (if err == CreateError::DllNotFound || err
                == CreateError::MissingSymbol {
                Status::MissingLibrary
            } else {
                Status::NoOpenGl
            }),
            final(self).version == old(self).version,
            final(self).gl_painted == old(self).gl_painted,
            (old(self).status == final(self).status) == (e is None),
    {
        let status = status_for_create_error(err);
        self.change(status)
    }

    /// The instance was freed with its context: the next context must paint
    /// again before a missing GL surface can be reported.
    pub fn teardown(&mut self)
        ensures
            !final(self).gl_painted,
            final(self).status == old(self).status,
            final(self).version == old(self).version,
    {
        self.gl_painted = false;
    }
}

/// What a paint does before rendering.
#[derive(Debug, Clone, Copy, PartialEq, Eq, Structural)]
pub enum PrepareStep {
    /// Nothing: the instance already has the surface's size, or the
    /// placeholder is painted.
    Nothing,
    /// Resize the instance to the surface.
    Resize,
    /// The libraries are gone: report projectM missing.
    ReportMissing,
    /// Create the instance, then report the outcome.
    Create,
}

/// What a paint at `width` x `height` must do, given the instance's current
/// size (when one exists), the engine status, and whether the libraries are
/// loaded.
pub fn prepare_step(
    engine_size: Option<(usize, usize)>,
    width: usize,
    height: usize,
    status: Status,
    libraries_loaded: bool,
) -> (p: PrepareStep)
    ensures
        p == match engine_size {
            Some(size) => if size == (width, height) {
                PrepareStep::Nothing
            } else {
                PrepareStep::Resize
            },
            None => if status == Status::MissingLibrary || status == Status::NoOpenGl {
                PrepareStep::Nothing
            } else if !libraries_loaded {
                PrepareStep::ReportMissing
            } else {
                PrepareStep::Create
            },
        },
{
    match engine_size {
        Some((w, h)) => {
            if w == width && h == height {
                PrepareStep::Nothing
            } else {
                PrepareStep::Resize
            }
        },
        None => {
            if is_fallback(status) {
                PrepareStep::Nothing
            } else if !libraries_loaded {
                PrepareStep::ReportMissing
            } else {
                PrepareStep::Create
            }
        },
    }
}

/// An input gesture on a projectM surface.
#[derive(Debug, Clone, Copy, PartialEq, Eq, Structural)]
pub enum ProjectMGesture {
    /// The surface was double-clicked.
    DoubleClick,
    /// The "pop out" overlay button.
    PopOut,
    /// The fullscreen overlay button.
    Fullscreen,
    /// The hide overlay button.
    Hide,
    /// The surface was right-clicked; show its context menu.
    ContextMenu,
}

/// The gesture an overlay button raises.
pub fn gesture_for(action: Action) -> (g: ProjectMGesture)
    ensures
        g == match action {
            Action::PopOut => ProjectMGesture::PopOut,
            Action::Fullscreen => ProjectMGesture::Fullscreen,
            Action::Hide => ProjectMGesture::Hide,
        },
{
    match action {
        Action::PopOut => ProjectMGesture::PopOut,
        Action::Fullscreen => ProjectMGesture::Fullscreen,
        Action::Hide => ProjectMGesture::Hide,
    }
}

/// What a surface gesture asks of the shell: a visualization command, or
/// the preset context menu.
#[derive(Debug, Clone, Copy, PartialEq, Eq)]
pub enum GestureIntent {
    Viz(VizCommand),
    Menu,
}

/// A gesture on the panel's surface: "pop out" docks it in its own window,
/// double-click and the fullscreen button go fullscreen, the hide button
/// hides, a right-click opens the menu.
pub fn panel_gesture(gesture: ProjectMGesture) -> (i: GestureIntent)
    ensures
        i == match gesture {
            ProjectMGesture::PopOut => GestureIntent::Viz(VizCommand::SetDock(VizDock::Window)),
            ProjectMGesture::Fullscreen | ProjectMGesture::DoubleClick => GestureIntent::Viz(
                VizCommand::SetFullscreen(true),
            ),
            ProjectMGesture::Hide => GestureIntent::Viz(VizCommand::SetVisible(false)),
            ProjectMGesture::ContextMenu => GestureIntent::Menu,
        },
{
    match gesture {
        ProjectMGesture::PopOut => GestureIntent::Viz(VizCommand::SetDock(VizDock::Window)),
        ProjectMGesture::Fullscreen | ProjectMGesture::DoubleClick => GestureIntent::Viz(
            VizCommand::SetFullscreen(true),
        ),
        ProjectMGesture::Hide => GestureIntent::Viz(VizCommand::SetVisible(false)),
        ProjectMGesture::ContextMenu => GestureIntent::Menu,
    }
}

/// A gesture on the independent window's surface: "pop out" docks it back
/// into the panel; the rest as on the panel.
pub fn window_gesture(gesture: ProjectMGesture) -> (i: GestureIntent)
    ensures
        i == match gesture {
            ProjectMGesture::PopOut => GestureIntent::Viz(VizCommand::SetDock(VizDock::Panel)),
            ProjectMGesture::Fullscreen | ProjectMGesture::DoubleClick => GestureIntent::Viz(
                VizCommand::SetFullscreen(true),
            ),
            ProjectMGesture::Hide => GestureIntent::Viz(VizCommand::SetVisible(false)),
            ProjectMGesture::ContextMenu => GestureIntent::Menu,
        },
{
    match gesture {
        ProjectMGesture::PopOut => GestureIntent::Viz(VizCommand::SetDock(VizDock::Panel)),
        ProjectMGesture::Fullscreen | ProjectMGesture::DoubleClick => GestureIntent::Viz(
            VizCommand::SetFullscreen(true),
        ),
        ProjectMGesture::Hide => GestureIntent::Viz(VizCommand::SetVisible(false)),
        ProjectMGesture::ContextMenu => GestureIntent::Menu,
    }
}

/// The playlist index a random preset request plays, from the clock's
/// sub-second nanoseconds: their remainder by the playlist length.
pub fn random_index(nanos: u32, count: usize) -> (i: usize)
    requires
        count > 0,
    ensures
        i == (nanos as int) % (count as int),
        i < count,
{
    let n = nanos as usize;
    n % count
}

/// What a queued preset request does to a playlist of `count` presets with
/// the random draw `nanos`: `None` for a random request on an empty list.
pub fn resolve_request(request: PresetRequest, count: usize, nanos: u32) -> (r: Option<PresetRequest>)
    ensures
        match request {
            PresetRequest::Random => if count == 0 {
                r is None
            } else {
                r == Some(PresetRequest::Index(((nanos as int) % (count as int)) as usize))
            },
            _ => r == Some(request),
        },
{
    match request {
        PresetRequest::Random => {
            if count == 0 {
                None
            } else {
                Some(PresetRequest::Index(random_index(nanos, count)))
            }
        },
        other => Some(other),
    }
}

} // verus!
