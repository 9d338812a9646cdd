//! The projectM surface as a state machine: what a window input does to the
//! surface's visibility, hover and engine status, and which actions the
//! window then performs (animate, repaint, advance the audio, raise a
//! gesture or an engine event).

use vstd::prelude::*;

use crate::projectm::availability::{
    gesture_for, is_fallback, EngineStatus, ProjectMAvailability, ProjectMEvent, ProjectMGesture,
    Status,
};
use crate::projectm::feed::{frame_due, FramePacer};
use crate::projectm::overlay::{buttons, buttons_spec, hit, hit_spec, layout_fits, Action, Rect};

verus! {

/// A window input the surface reacts to.
#[derive(Debug, Clone, Copy, PartialEq, Eq, Structural)]
pub enum SurfaceInput {
    /// The window's frame callback.
    Frame,
    /// The animation timer.
    Tick,
    /// The pointer moved over the surface.
    MouseMove,
    /// The pointer left the surface.
    MouseLeave,
    /// A left-button double click.
    DoubleClick,
    /// A left-button press at a position.
    LeftDown(i32, i32),
    /// Anything else.
    Other,
}

/// What the window does after an input.
#[derive(Debug, Clone, PartialEq, Eq)]
pub struct SurfaceActions {
    /// Turn the animation timer on or off, when set.
    pub animate: Option<bool>,
    /// Repaint the surface.
    pub invalidate: bool,
    /// Drain the audio feed into the engine and step the placeholder.
    pub advance: bool,
    /// A gesture to raise.
    pub gesture: Option<ProjectMGesture>,
    /// An engine event to queue.
    pub event: Option<ProjectMEvent>,
}

/// Whether a status paints the placeholder.
pub open spec fn fallback(status: Status) -> bool {
    status == Status::MissingLibrary || status == Status::NoOpenGl
}

/// No action.
pub open spec fn idle() -> SurfaceActions {
    SurfaceActions { animate: None, invalidate: false, advance: false, gesture: None, event: None }
}

/// The gesture an overlay action raises, by the specification of
/// `gesture_for`.
pub open spec fn gesture_of(a: Action) -> ProjectMGesture {
    match a {
        Action::PopOut => ProjectMGesture::PopOut,
        Action::Fullscreen => ProjectMGesture::Fullscreen,
        Action::Hide => ProjectMGesture::Hide,
    }
}

/// The projectM surface's state.
pub struct Surface {
    pub visible: bool,
    pub hovered: bool,
    pub engine: EngineStatus,
    pub pacer: FramePacer,
}

impl Surface {
    /// Shows or hides the surface; hiding also drops the hover.
    pub fn set_visible(&mut self, visible: bool)
        ensures
            final(self).visible == visible,
            final(self).hovered == (old(self).hovered && visible),
            final(self).engine == old(self).engine,
            final(self).pacer == old(self).pacer,
    {
        self.visible = visible;
        if !visible {
            self.hovered = false;
        }
    }

    /// Tracks the pointer entering or leaving; returns whether to repaint:
    /// the hover changed and the placeholder (which draws the overlay) is
    /// showing.
    pub fn set_hovered(&mut self, hovered: bool) -> (repaint: bool)
        ensures
            final(self).hovered == hovered,
            final(self).visible == old(self).visible,
            final(self).engine == old(self).engine,
            final(self).pacer == old(self).pacer,
            repaint == (old(self).hovered != hovered && fallback(old(self).engine.status)),
    {
        if self.hovered == hovered {
            return false;
        }
        self.hovered = hovered;
        is_fallback(self.engine.status)
    }

    /// Reacts to one window input at time `now` (nanoseconds), the surface
    /// lying in `bounds` at `dpi`.
    pub fn input(&mut self, input: SurfaceInput, now: u64, bounds: Rect, dpi: u32) -> (a: SurfaceActions)
        requires
            input is LeftDown ==> layout_fits(bounds, dpi),
        ensures
            final(self).visible == old(self).visible,
            match input {
                SurfaceInput::Frame => {
                    &&& a.animate == Some(old(self).visible)
                    &&& a.advance == false
                    &&& a.gesture is None
                    &&& !old(self).visible ==> {
                        &&& !a.invalidate
                        &&& a.event is None
                        &&& final(self).engine == old(self).engine
                        &&& final(self).pacer == old(self).pacer
                        &&& final(self).hovered == old(self).hovered
                    }
                    &&& old(self).visible ==> {
                        let reported = old(self).engine.status == Status::Unknown && !old(
                            self,
                        ).engine.gl_painted;
                        &&& reported ==> final(self).engine.status == Status::NoOpenGl && a.event
                            == Some(ProjectMEvent::AvailabilityChanged(ProjectMAvailability::NoOpenGl))
                        &&& !reported ==> final(self).engine.status == old(self).engine.status
                            && a.event is None
                        &&& final(self).engine.gl_painted == old(self).engine.gl_painted
                        &&& final(self).engine.version == old(self).engine.version
                        &&& final(self).hovered == old(self).hovered
                        &&& a.invalidate == (fallback(final(self).engine.status) && frame_due(
                            old(self).pacer.last,
                            old(self).pacer.interval,
                            now,
                        ))
                        &&& final(self).pacer.interval == old(self).pacer.interval
                        &&& final(self).pacer.last == (if a.invalidate {
                            Some(now)
                        } else {
                            old(self).pacer.last
                        })
                    }
                },
                SurfaceInput::Tick => {
                    &&& a.gesture is None
                    &&& a.event is None
                    &&& final(self).engine == old(self).engine
                    &&& final(self).hovered == old(self).hovered
                    &&& !old(self).visible ==> a == SurfaceActions {
                        animate: Some(false),
                        ..idle()
                    } && final(self).pacer == old(self).pacer
                    &&& old(self).visible ==> {
                        &&& a.animate is None
                        &&& a.advance
                        &&& a.invalidate == frame_due(old(self).pacer.last, old(self).pacer.interval, now)
                        &&& final(self).pacer.interval == old(self).pacer.interval
                        &&& final(self).pacer.last == (if a.invalidate {
                            Some(now)
                        } else {
                            old(self).pacer.last
                        })
                    }
                },
                SurfaceInput::MouseMove | SurfaceInput::MouseLeave => {
                    let h = input is MouseMove;
                    &&& final(self).hovered == h
                    &&& final(self).engine == old(self).engine
                    &&& final(self).pacer == old(self).pacer
                    &&& a == SurfaceActions {
                        invalidate: old(self).hovered != h && fallback(old(self).engine.status),
                        ..idle()
                    }
                },
                SurfaceInput::DoubleClick => {
                    &&& a == SurfaceActions { gesture: Some(ProjectMGesture::DoubleClick), ..idle() }
                    &&& final(self).hovered == old(self).hovered
                    &&& final(self).engine == old(self).engine
                    &&& final(self).pacer == old(self).pacer
                },
                SurfaceInput::LeftDown(x, y) => {
                    &&& final(self).hovered == old(self).hovered
                    &&& final(self).engine == old(self).engine
                    &&& final(self).pacer == old(self).pacer
                    &&& a.animate is None && !a.invalidate && !a.advance && a.event is None
                    &&& (fallback(old(self).engine.status) && old(self).hovered) ==> a.gesture
                        == match hit_spec(buttons_spec(bounds, dpi), x, y) {
                        Some(action) => Some(gesture_of(action)),
                        None => None,
                    }
                    &&& !(fallback(old(self).engine.status) && old(self).hovered) ==> a.gesture is None
                },
                SurfaceInput::Other => {
                    &&& a == idle()
                    &&& final(self).hovered == old(self).hovered
                    &&& final(self).engine == old(self).engine
                    &&& final(self).pacer == old(self).pacer
                },
            },
    {
        let none = SurfaceActions {
            animate: None,
            invalidate: false,
            advance: false,
            gesture: None,
            event: None,
        };
        match input {
            SurfaceInput::Frame => {
                let visible = self.visible;
                if !visible {
                    return SurfaceActions { animate: Some(false), ..none };
                }
                let event = self.engine.report_no_gl();
                let invalidate = is_fallback(self.engine.status) && self.pacer.due(now);
                SurfaceActions { animate: Some(true), invalidate, event, ..none }
            },
            SurfaceInput::Tick => {
                if !self.visible {
                    return SurfaceActions { animate: Some(false), ..none };
                }
                let invalidate = self.pacer.due(now);
                SurfaceActions { advance: true, invalidate, ..none }
            },
            SurfaceInput::MouseMove => {
                let invalidate = self.set_hovered(true);
                SurfaceActions { invalidate, ..none }
            },
            SurfaceInput::MouseLeave => {
                let invalidate = self.set_hovered(false);
                SurfaceActions { invalidate, ..none }
            },
            SurfaceInput::DoubleClick => SurfaceActions {
                gesture: Some(ProjectMGesture::DoubleClick),
                ..none
            },
            SurfaceInput::LeftDown(x, y) => {
                if is_fallback(self.engine.status) && self.hovered {
                    let laid_out = buttons(bounds, dpi);
                    let gesture = match hit(&laid_out, x, y) {
                        Some(action) => Some(gesture_for(action)),
                        None => None,
                    };
                    SurfaceActions { gesture, ..none }
                } else {
                    none
                }
            },
            SurfaceInput::Other => none,
        }
    }
}

} // verus!
