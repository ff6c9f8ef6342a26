//! Spinner: an animated arc turning round a track, showing that something is
//! loading.
//!
//! How far the arc has turned is an `f64` advanced at each animation frame;
//! that arithmetic, and the painting of the arc, are left to the caller.

use vstd::prelude::*;
use crate::widget::{AccessRole, LenReq, Request, UpdateEvent, F64};

verus! {

/// How a spinner measures itself along an axis.
#[derive(Clone, Copy, Debug, PartialEq, Eq, Structural)]
pub enum SpinnerMeasure {
    /// This length.
    Length(F64),
    /// The theme's basic widget height.
    ThemeHeight,
}

/// An animated spinner widget for showing a loading state.
pub struct Spinner {
    /// How many turns the arc has made.
    pub rotation_progress: F64,
    pub requests: Vec<Request>,
}

impl Default for Spinner {
    /// A spinner that has not turned yet.
    fn default() -> (spinner: Self)
        ensures
            spinner.rotation_progress == F64(0),
            spinner.requests@.len() == 0,
    {
        Spinner { rotation_progress: F64(0), requests: Vec::new() }
    }
}

impl Spinner {
    /// Creates a spinner that has not turned yet.
    pub fn new() -> (spinner: Self)
        ensures
            spinner.rotation_progress == F64(0),
            spinner.requests@.len() == 0,
    {
        Spinner { rotation_progress: F64(0), requests: Vec::new() }
    }

    /// Once added to the tree, the spinner asks for animation frames.
    pub fn update(&mut self, event: UpdateEvent)
        ensures
            final(self).rotation_progress == old(self).rotation_progress,
            final(self).requests@ == if event == UpdateEvent::WidgetAdded {
                old(self).requests@.push(Request::AnimFrame)
            } else {
                old(self).requests@
            },
    {
        if event == UpdateEvent::WidgetAdded {
            self.requests.push(Request::AnimFrame);
        }
    }

    /// At each animation frame, after the arc turned to `rotation_progress`,
    /// the spinner asks for the next frame and a repaint.
    pub fn on_anim_frame(&mut self, rotation_progress: F64)
        ensures
            final(self).rotation_progress == rotation_progress,
            final(self).requests@ == old(self).requests@.push(Request::AnimFrame).push(Request::PaintOnly),
    {
        self.rotation_progress = rotation_progress;
        self.requests.push(Request::AnimFrame);
        self.requests.push(Request::PaintOnly);
    }

    /// How the spinner measures itself: square, so the cross length when it
    /// is known and the theme's height otherwise, for its content; the space
    /// when fitted into it.
    pub fn measure(&self, len_req: LenReq, cross_length: Option<F64>) -> (m: SpinnerMeasure)
        ensures
            m == match len_req {
                LenReq::FitContent(space) => SpinnerMeasure::Length(space),
                _ => match cross_length {
                    Some(c) => SpinnerMeasure::Length(c),
                    None => SpinnerMeasure::ThemeHeight,
                },
            },
    {
        match len_req {
            LenReq::FitContent(space) => SpinnerMeasure::Length(space),
            _ => match cross_length {
                Some(c) => SpinnerMeasure::Length(c),
                None => SpinnerMeasure::ThemeHeight,
            },
        }
    }
}

impl Spinner {
    /// The role the widget reports to accessibility.
    pub fn accessibility_role(&self) -> (role: AccessRole)
        ensures
            role == AccessRole::ProgressIndicator,
    {
        AccessRole::ProgressIndicator
    }
}

} // verus!
