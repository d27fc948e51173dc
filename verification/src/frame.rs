//! Frame scheduling of a redraw-on-demand event loop.
//!
//! The loop draws a frame only when one was requested, tells the application
//! when a frame it drew has been presented, and folds window resizes into a
//! single notification per change of size. `FrameState` holds the flags that
//! drive those decisions; the event loop performs the actions that its
//! methods return (draw, notify, reconfigure, exit).
use vstd::prelude::*;

use crate::events::EventResult;
use crate::math::Vec2u32;

verus! {

/// The event type of the window system's user-event channel; it carries nothing.
pub struct UserEventType {}

/// The scheduling flags, as contracts speak of them.
pub struct FrameView {
    /// The window size last reported to the application.
    pub window_size: Vec2u32,
    /// Whether a frame is to be drawn at the next opportunity.
    pub redraw_requested: bool,
    /// Whether a frame was drawn and its completion not yet handled.
    pub is_redrawing: bool,
    /// Whether the window system reported a resize not yet handled.
    pub is_resizing: bool,
}

impl FrameView {
    /// State after the outcome of an application event handler is applied.
    pub open spec fn after_result(self, result: EventResult) -> FrameView {
        FrameView {
            redraw_requested: match result {
                EventResult::Exit => false,
                EventResult::Redraw => true,
                EventResult::Continue => self.redraw_requested,
            },
            ..self
        }
    }

    /// Whether drawing a frame starts at the loop's next chance to draw.
    pub open spec fn redraw_starts(self) -> bool {
        self.redraw_requested
    }

    /// State after the loop's chance to draw a frame.
    pub open spec fn after_redraw_chance(self) -> FrameView {
        if self.redraw_requested {
            FrameView { redraw_requested: false, is_redrawing: true, ..self }
        } else {
            self
        }
    }

    /// The size to report to the application at the end of an event batch,
    /// given the window's current size: reported once per handled resize, and
    /// only when the size actually changed.
    pub open spec fn resize_report(self, current: Vec2u32) -> Option<Vec2u32> {
        if self.is_resizing && current != self.window_size {
            Some(current)
        } else {
            None
        }
    }

    /// State after a pending resize is handled against the window's current size.
    pub open spec fn after_resize_handled(self, current: Vec2u32) -> FrameView {
        FrameView {
            window_size: if self.resize_report(current) is Some {
                current
            } else {
                self.window_size
            },
            is_resizing: false,
            ..self
        }
    }

    /// Whether the application is told that the last frame finished: only
    /// once per drawn frame, and only when no new frame is already pending.
    pub open spec fn finish_reported(self) -> bool {
        self.is_redrawing && !self.redraw_requested
    }

    /// State after the completion of a drawn frame is handled.
    pub open spec fn after_finish(self) -> FrameView {
        FrameView { is_redrawing: false, ..self }
    }
}

#[derive(Debug)]
pub struct FrameState {
    window_size: Vec2u32,
    redraw_requested: bool,
    is_redrawing: bool,
    is_resizing: bool,
}

impl View for FrameState {
    type V = FrameView;

    closed spec fn view(&self) -> FrameView {
        FrameView {
            window_size: self.window_size,
            redraw_requested: self.redraw_requested,
            is_redrawing: self.is_redrawing,
            is_resizing: self.is_resizing,
        }
    }
}

impl FrameState {
    /// A fresh state for a window of the given size; the first frame is requested.
    pub fn new(window_size: Vec2u32) -> (r: Self)
        ensures
            r@ == (FrameView {
                window_size,
                redraw_requested: true,
                is_redrawing: false,
                is_resizing: false,
            }),
    {
        FrameState {
            window_size,
            redraw_requested: true,
            is_redrawing: false,
            is_resizing: false,
        }
    }

    pub fn window_size(&self) -> (r: Vec2u32)
        ensures
            r == self@.window_size,
    {
        self.window_size
    }

    pub fn is_redrawing(&self) -> (r: bool)
        ensures
            r == self@.is_redrawing,
    {
        self.is_redrawing
    }

    pub fn is_redraw_requested(&self) -> (r: bool)
        ensures
            r == self@.redraw_requested,
    {
        self.redraw_requested
    }

    /// The window system asked for the window to be redrawn.
    pub fn request_redraw(&mut self)
        ensures
            final(self)@ == (FrameView { redraw_requested: true, ..old(self)@ }),
    {
        self.redraw_requested = true;
    }

    /// The window system reported a resize; it is handled at the end of the event batch.
    pub fn note_resize(&mut self)
        ensures
            final(self)@ == (FrameView { is_resizing: true, ..old(self)@ }),
    {
        self.is_resizing = true;
    }

    /// Handles a pending resize: returns the size to report to the application
    /// (and to reconfigure the surface with), if any.
    pub fn take_resize(&mut self, current: Vec2u32) -> (r: Option<Vec2u32>)
        ensures
            r == old(self)@.resize_report(current),
            final(self)@ == old(self)@.after_resize_handled(current),
            r == (if old(self)@.is_resizing && current != old(self)@.window_size {
                Some(current)
            } else {
                None::<Vec2u32>
            }),
            final(self)@.window_size == (if r is Some { current } else { old(self)@.window_size }),
            !final(self)@.is_resizing,
            final(self)@.redraw_requested == old(self)@.redraw_requested,
            final(self)@.is_redrawing == old(self)@.is_redrawing,
    {
        let mut report = None;
        if self.is_resizing {
            self.is_resizing = false;
            if current != self.window_size {
                self.window_size = current;
                report = Some(current);
            }
        }
        report
    }

    /// Handles the completion of a drawn frame: returns whether the
    /// application is to be told that the frame finished.
    pub fn take_redraw_finished(&mut self) -> (r: bool)
        ensures
            r == old(self)@.finish_reported(),
            final(self)@ == old(self)@.after_finish(),
            r == (old(self)@.is_redrawing && !old(self)@.redraw_requested),
            final(self)@ == (FrameView { is_redrawing: false, ..old(self)@ }),
    {
        let was_redrawing = self.is_redrawing;
        self.is_redrawing = false;
        was_redrawing && !self.redraw_requested
    }

    /// Applies what an application event handler answered: returns whether
    /// the event loop is to exit.
    pub fn apply_result(&mut self, result: EventResult) -> (exit: bool)
        ensures
            exit == (result == EventResult::Exit),
            final(self)@ == old(self)@.after_result(result),
            final(self)@.redraw_requested == match result {
                EventResult::Exit => false,
                EventResult::Redraw => true,
                EventResult::Continue => old(self)@.redraw_requested,
            },
            final(self)@.window_size == old(self)@.window_size,
            final(self)@.is_redrawing == old(self)@.is_redrawing,
            final(self)@.is_resizing == old(self)@.is_resizing,
    {
        match result {
            EventResult::Exit => {
                self.redraw_requested = false;
                true
            },
            EventResult::Redraw => {
                self.redraw_requested = true;
                false
            },
            EventResult::Continue => false,
        }
    }

    /// The loop's chance to draw: returns whether a frame is to be drawn now.
    pub fn begin_redraw(&mut self) -> (r: bool)
        ensures
            r == old(self)@.redraw_starts(),
            final(self)@ == old(self)@.after_redraw_chance(),
            r == old(self)@.redraw_requested,
            r ==> final(self)@ == (FrameView { redraw_requested: false, is_redrawing: true, ..old(self)@ }),
            !r ==> final(self)@ == old(self)@,
    {
        if !self.redraw_requested {
            return false;
        }
        self.redraw_requested = false;
        self.is_redrawing = true;
        true
    }
}

// ---------------------------------------------------------------------------
// Laws
// ---------------------------------------------------------------------------

/// A frame is drawn at most once per request: right after a frame starts,
/// nothing is pending, so the next chance to draw draws nothing.
pub proof fn lemma_one_frame_per_request(s: FrameView)
    requires
        s.redraw_starts(),
    ensures
        s.after_redraw_chance().is_redrawing,
        !s.after_redraw_chance().redraw_requested,
        !s.after_redraw_chance().redraw_starts(),
        s.after_redraw_chance().after_redraw_chance() == s.after_redraw_chance(),
{
}

/// Without a request, the chance to draw changes nothing.
pub proof fn lemma_no_request_no_frame(s: FrameView)
    requires
        !s.redraw_requested,
    ensures
        !s.redraw_starts(),
        s.after_redraw_chance() == s,
{
}

/// An application that answers `Redraw` gets a frame at the next chance to draw.
pub proof fn lemma_redraw_answer_draws(s: FrameView)
    ensures
        s.after_result(EventResult::Redraw).redraw_starts(),
{
}

/// An application that answers `Exit` cancels any pending frame.
pub proof fn lemma_exit_answer_cancels_frame(s: FrameView)
    ensures
        !s.after_result(EventResult::Exit).redraw_starts(),
        s.after_result(EventResult::Exit).after_redraw_chance() == s.after_result(EventResult::Exit),
{
}

/// An application that answers `Continue` leaves the schedule as it was.
pub proof fn lemma_continue_answer_changes_nothing(s: FrameView)
    ensures
        s.after_result(EventResult::Continue) == s,
{
}

/// A resize is reported once: handling it again with the same window size reports nothing.
pub proof fn lemma_resize_reported_once(s: FrameView, current: Vec2u32)
    ensures
        s.after_resize_handled(current).resize_report(current) is None,
        s.resize_report(current) is Some ==> s.after_resize_handled(current).window_size == current,
{
}

/// A resize to the size already reported is not reported.
pub proof fn lemma_same_size_not_reported(s: FrameView)
    ensures
        s.resize_report(s.window_size) is None,
{
}

/// The completion of a frame is reported once: handling it again reports nothing.
pub proof fn lemma_finish_reported_once(s: FrameView)
    ensures
        !s.after_finish().finish_reported(),
        !s.after_finish().is_redrawing,
{
}

/// A drawn frame whose completion is handled before any new request is
/// reported to the application as finished.
pub proof fn lemma_drawn_frame_reported_finished(s: FrameView)
    requires
        s.redraw_starts(),
    ensures
        s.after_redraw_chance().finish_reported(),
{
}

/// A pending resize to any size other than the last reported one is
/// reported, with that size, and becomes the reported size; any other resize
/// check reports nothing and keeps the size. Either way the resize is no
/// longer pending and the drawing flags are untouched.
pub proof fn lemma_resize_report_exact(s: FrameView, current: Vec2u32)
    ensures
        s.resize_report(current) is Some <==> s.is_resizing && current != s.window_size,
        s.resize_report(current) is Some ==> s.resize_report(current) == Some(current),
        s.after_resize_handled(current).window_size
            == if s.is_resizing && current != s.window_size { current } else { s.window_size },
        !s.after_resize_handled(current).is_resizing,
        s.after_resize_handled(current).redraw_requested == s.redraw_requested,
        s.after_resize_handled(current).is_redrawing == s.is_redrawing,
{
}

/// `Exit` clears the request for a frame, `Redraw` sets it, `Continue` keeps
/// it; no answer touches the size or the other flags.
pub proof fn lemma_result_sets_request(s: FrameView, result: EventResult)
    ensures
        result == EventResult::Exit ==> !s.after_result(result).redraw_requested,
        result == EventResult::Redraw ==> s.after_result(result).redraw_requested,
        result == EventResult::Continue ==> s.after_result(result).redraw_requested == s.redraw_requested,
        s.after_result(result).window_size == s.window_size,
        s.after_result(result).is_redrawing == s.is_redrawing,
        s.after_result(result).is_resizing == s.is_resizing,
{
}

/// A frame starts exactly when one is requested; starting it consumes the
/// request and marks the frame as being drawn, touching nothing else.
pub proof fn lemma_redraw_chance_exact(s: FrameView)
    ensures
        s.redraw_starts() == s.redraw_requested,
        s.redraw_requested ==> !s.after_redraw_chance().redraw_requested
            && s.after_redraw_chance().is_redrawing
            && s.after_redraw_chance().window_size == s.window_size
            && s.after_redraw_chance().is_resizing == s.is_resizing,
        !s.redraw_requested ==> s.after_redraw_chance() == s,
{
}

/// A finished frame is reported exactly when a frame was being drawn and no
/// new one is requested; handling it only clears the drawing flag.
pub proof fn lemma_finish_exact(s: FrameView)
    ensures
        s.finish_reported() == (s.is_redrawing && !s.redraw_requested),
        !s.after_finish().is_redrawing,
        s.after_finish().redraw_requested == s.redraw_requested,
        s.after_finish().window_size == s.window_size,
        s.after_finish().is_resizing == s.is_resizing,
{
}

} // verus!
