//! ScrollBar: a bar whose cursor shows, and lets the user change, how far a
//! scrolling container is scrolled along one axis.
//!
//! The scrollbar decides which keys and accessibility actions move its
//! cursor, and by how much in lines or pages; moving the cursor computes with
//! `f64` values and is left to the caller.

use vstd::prelude::*;
use crate::portal::{ScrollCommand, ScrollUnit};
use crate::widget::{AccessRole, AccessAction, Axis, KeyEvent, KeyInput, LenReq, Request, F64};

verus! {

/// How a scrollbar measures itself along an axis.
#[derive(Clone, Copy, Debug, PartialEq, Eq, Structural)]
pub enum ScrollBarMeasure {
    /// This length.
    Length(F64),
    /// The theme's scrollbar width, plus its padding on both sides.
    Thickness,
}

/// The scroll a key asks of a scrollbar along `axis`: lines with the arrows
/// along the axis, pages with Page Up and Page Down on a vertical bar, and
/// the ends with Home and End.
pub open spec fn bar_key_scroll(key: KeyInput, axis: Axis) -> Option<ScrollCommand> {
    let pan = |unit: ScrollUnit, forward: bool| Some(ScrollCommand::Pan { axis, unit, forward });
    match (key, axis) {
        (KeyInput::ArrowUp, Axis::Vertical) => pan(ScrollUnit::Item, false),
        (KeyInput::ArrowDown, Axis::Vertical) => pan(ScrollUnit::Item, true),
        (KeyInput::PageUp, Axis::Vertical) => pan(ScrollUnit::Page, false),
        (KeyInput::PageDown, Axis::Vertical) => pan(ScrollUnit::Page, true),
        (KeyInput::ArrowLeft, Axis::Horizontal) => pan(ScrollUnit::Item, false),
        (KeyInput::ArrowRight, Axis::Horizontal) => pan(ScrollUnit::Item, true),
        (KeyInput::Home, _) => Some(ScrollCommand::ToStart),
        (KeyInput::End, _) => Some(ScrollCommand::ToEnd),
        _ => None,
    }
}

/// The scroll an accessibility action asks of a scrollbar along `axis`, by
/// `unit`: only the actions along its axis move it.
pub open spec fn bar_access_scroll(action: AccessAction, axis: Axis, unit: ScrollUnit) -> Option<ScrollCommand> {
    match (action, axis) {
        (AccessAction::ScrollUp, Axis::Vertical) => Some(ScrollCommand::Pan { axis, unit, forward: false }),
        (AccessAction::ScrollDown, Axis::Vertical) => Some(ScrollCommand::Pan { axis, unit, forward: true }),
        (AccessAction::ScrollLeft, Axis::Horizontal) => Some(ScrollCommand::Pan { axis, unit, forward: false }),
        (AccessAction::ScrollRight, Axis::Horizontal) => Some(ScrollCommand::Pan { axis, unit, forward: true }),
        _ => None,
    }
}

/// A scrollbar.
pub struct ScrollBar {
    pub axis: Axis,
    /// How far the cursor is from the start: from 0 (beginning) to 1 (end).
    pub cursor_progress: F64,
    /// User input moved the cursor since the container last looked.
    pub moved: bool,
    /// The length of the scrolling container along the axis.
    pub portal_size: F64,
    /// The length of its content along the axis.
    pub content_size: F64,
    /// Where along the cursor it was grabbed, as a fraction of its length,
    /// while it is dragged.
    pub grab_anchor: Option<F64>,
    pub requests: Vec<Request>,
}

impl ScrollBar {
    /// Creates a scrollbar along `axis` for a container of length
    /// `portal_size` whose content has length `content_size`, at the start.
    pub fn new(axis: Axis, portal_size: F64, content_size: F64) -> (bar: Self)
        ensures
            bar.axis == axis,
            bar.cursor_progress == F64(0),
            !bar.moved,
            bar.portal_size == portal_size,
            bar.content_size == content_size,
            bar.grab_anchor.is_none(),
            bar.requests@.len() == 0,
    {
        ScrollBar {
            axis,
            cursor_progress: F64(0),
            moved: false,
            portal_size,
            content_size,
            grab_anchor: None,
            requests: Vec::new(),
        }
    }

    /// Returns how far the cursor is from the start.
    pub fn cursor_progress(&self) -> (p: F64)
        ensures
            p == self.cursor_progress,
    {
        self.cursor_progress
    }

    /// Sets the lengths of the container and of its content. Requests a render.
    pub fn set_sizes(this: &mut Self, portal_size: F64, content_size: F64)
        ensures
            *final(this) == (ScrollBar { portal_size, content_size, requests: final(this).requests, ..*old(this) }),
            final(this).requests@ == old(this).requests@.push(Request::Render),
    {
        this.portal_size = portal_size;
        this.content_size = content_size;
        this.requests.push(Request::Render);
    }

    /// Sets the length of the content. Requests a render.
    pub fn set_content_size(this: &mut Self, content_size: F64)
        ensures
            *final(this) == (ScrollBar { content_size, requests: final(this).requests, ..*old(this) }),
            final(this).requests@ == old(this).requests@.push(Request::Render),
    {
        this.content_size = content_size;
        this.requests.push(Request::Render);
    }

    /// The scroll a key event asks of the scrollbar: only a pressed key moves it.
    pub fn scroll_for_key_event(&self, event: &KeyEvent) -> (command: Option<ScrollCommand>)
        ensures
            command == if event.is_up { None } else { bar_key_scroll(event.key, self.axis) },
    {
        if event.is_up {
            return None;
        }
        let axis = self.axis;
        match (&event.key, axis) {
            (KeyInput::ArrowUp, Axis::Vertical) => Some(ScrollCommand::Pan { axis, unit: ScrollUnit::Item, forward: false }),
            (KeyInput::ArrowDown, Axis::Vertical) => Some(ScrollCommand::Pan { axis, unit: ScrollUnit::Item, forward: true }),
            (KeyInput::PageUp, Axis::Vertical) => Some(ScrollCommand::Pan { axis, unit: ScrollUnit::Page, forward: false }),
            (KeyInput::PageDown, Axis::Vertical) => Some(ScrollCommand::Pan { axis, unit: ScrollUnit::Page, forward: true }),
            (KeyInput::ArrowLeft, Axis::Horizontal) => Some(ScrollCommand::Pan { axis, unit: ScrollUnit::Item, forward: false }),
            (KeyInput::ArrowRight, Axis::Horizontal) => Some(ScrollCommand::Pan { axis, unit: ScrollUnit::Item, forward: true }),
            (KeyInput::Home, _) => Some(ScrollCommand::ToStart),
            (KeyInput::End, _) => Some(ScrollCommand::ToEnd),
            _ => None,
        }
    }

    /// The scroll an accessibility action asks of the scrollbar, by the unit
    /// it comes with (a line when it comes with none).
    pub fn scroll_for_access_event(&self, action: AccessAction, unit: Option<ScrollUnit>) -> (command: Option<ScrollCommand>)
        ensures
            command == bar_access_scroll(action, self.axis, match unit { Some(u) => u, None => ScrollUnit::Item }),
    {
        let unit = match unit {
            Some(u) => u,
            None => ScrollUnit::Item,
        };
        let axis = self.axis;
        match (action, axis) {
            (AccessAction::ScrollUp, Axis::Vertical) => Some(ScrollCommand::Pan { axis, unit, forward: false }),
            (AccessAction::ScrollDown, Axis::Vertical) => Some(ScrollCommand::Pan { axis, unit, forward: true }),
            (AccessAction::ScrollLeft, Axis::Horizontal) => Some(ScrollCommand::Pan { axis, unit, forward: false }),
            (AccessAction::ScrollRight, Axis::Horizontal) => Some(ScrollCommand::Pan { axis, unit, forward: true }),
            _ => None,
        }
    }

    /// The pointer was released or the gesture cancelled: a drag of the
    /// cursor ends. (Pressing and moving the pointer compute with `f64`
    /// positions and are left to the caller.)
    pub fn end_drag(&mut self)
        ensures
            *final(self) == (ScrollBar { grab_anchor: None, ..*old(self) }),
    {
        self.grab_anchor = None;
    }

    /// How the scrollbar measures itself along `axis`: along its own axis,
    /// the container's length for its content and the space when fitted into
    /// it; across it, its thickness.
    pub fn measure(&self, axis: Axis, len_req: LenReq) -> (m: ScrollBarMeasure)
        ensures
            m == if axis == self.axis {
                match len_req {
                    LenReq::FitContent(space) => ScrollBarMeasure::Length(space),
                    _ => ScrollBarMeasure::Length(self.portal_size),
                }
            } else {
                ScrollBarMeasure::Thickness
            },
    {
        if axis == self.axis {
            match len_req {
                LenReq::FitContent(space) => ScrollBarMeasure::Length(space),
                _ => ScrollBarMeasure::Length(self.portal_size),
            }
        } else {
            ScrollBarMeasure::Thickness
        }
    }

    /// A scrollbar takes the keyboard focus.
    pub fn accepts_focus(&self) -> (accepts: bool)
        ensures
            accepts,
    {
        true
    }
}

impl ScrollBar {
    /// The role the widget reports to accessibility.
    pub fn accessibility_role(&self) -> (role: AccessRole)
        ensures
            role == AccessRole::ScrollBar,
    {
        AccessRole::ScrollBar
    }
}

/// Home sends a scrollbar to the start and End to the end, whatever its
/// axis. The other keys that move it pan along its own axis only, in the
/// direction they point: Up, Left and Page Up towards the start, Down, Right
/// and Page Down towards the end; both arrows along its axis move it.
pub proof fn law_bar_keys_point_the_way(axis: Axis)
    ensures
        bar_key_scroll(KeyInput::Home, axis) == Some(ScrollCommand::ToStart),
        bar_key_scroll(KeyInput::End, axis) == Some(ScrollCommand::ToEnd),
        forall|k: KeyInput| #[trigger] bar_key_scroll(k, axis) matches Some(ScrollCommand::Pan { axis: a, forward, .. }) ==> {
            &&& a == axis
            &&& (forward <==> (k is ArrowDown || k is ArrowRight || k is PageDown))
            &&& (k is ArrowLeft || k is ArrowRight) ==> axis == Axis::Horizontal
            &&& (k is ArrowUp || k is ArrowDown || k is PageUp || k is PageDown) ==> axis == Axis::Vertical
        },
        bar_key_scroll(if axis == Axis::Vertical { KeyInput::ArrowUp } else { KeyInput::ArrowLeft }, axis) is Some,
        bar_key_scroll(if axis == Axis::Vertical { KeyInput::ArrowDown } else { KeyInput::ArrowRight }, axis) is Some,
{
}

} // verus!
