//! Portal: a scrolling container showing a part of a child that may be larger
//! than itself, with a scrollbar along each axis on which it scrolls.
//!
//! The portal decides how it answers keys and accessibility actions, which
//! axes it scrolls along, how it measures and sizes its child and which
//! scrollbars it shows. Positions and lengths are `f64` values, carried by
//! their bits; the arithmetic that moves the viewport by a line or a page and
//! keeps it inside the scroll range is left to the caller.

use vstd::prelude::*;
use crate::scroll_bar::ScrollBar;
use crate::widget::{AccessRole, 
    axis_cross, AccessAction, Axis, KeyEvent, KeyInput, LenReq, Request, Size, Vec2, WidgetId, WidgetPod, F64,
};

verus! {

/// How far a scroll command moves the viewport.
#[derive(Clone, Copy, Debug, PartialEq, Eq, Structural)]
pub enum ScrollUnit {
    /// One line: 120 logical pixels.
    Item,
    /// One page: the portal's length along the axis of the scroll.
    Page,
}

/// A move of the viewport the portal performs in answer to an input.
#[derive(Clone, Copy, Debug, PartialEq, Eq, Structural)]
pub enum ScrollCommand {
    /// Pan by one unit along `axis`, towards the end when `forward` and
    /// towards the start otherwise.
    Pan { axis: Axis, unit: ScrollUnit, forward: bool },
    /// Move to the top-left corner.
    ToStart,
    /// Move to the end of the scroll range along both axes.
    ToEnd,
}

/// How the portal measures itself along an axis.
#[derive(Clone, Copy, Debug, PartialEq, Eq, Structural)]
pub enum PortalMeasure {
    /// This length, whatever the child.
    Length(F64),
    /// The child's maximum-content length, computed with this cross length
    /// (none when the child is not constrained across the axis).
    Child { cross_length: Option<F64> },
}

/// The pan along `axis` by one `unit`.
pub open spec fn pan(axis: Axis, unit: ScrollUnit, forward: bool) -> ScrollCommand {
    ScrollCommand::Pan { axis, unit, forward }
}

/// The scroll a key asks for, before the portal's constraints apply.
pub open spec fn key_scroll(key: KeyInput) -> Option<ScrollCommand> {
    match key {
        KeyInput::PageDown => Some(pan(Axis::Vertical, ScrollUnit::Page, true)),
        KeyInput::PageUp => Some(pan(Axis::Vertical, ScrollUnit::Page, false)),
        KeyInput::ArrowDown => Some(pan(Axis::Vertical, ScrollUnit::Item, true)),
        KeyInput::ArrowUp => Some(pan(Axis::Vertical, ScrollUnit::Item, false)),
        KeyInput::ArrowRight => Some(pan(Axis::Horizontal, ScrollUnit::Item, true)),
        KeyInput::ArrowLeft => Some(pan(Axis::Horizontal, ScrollUnit::Item, false)),
        KeyInput::Home => Some(ScrollCommand::ToStart),
        KeyInput::End => Some(ScrollCommand::ToEnd),
        _ => None,
    }
}

/// The scroll an accessibility action asks for, by the given unit, before the
/// portal's constraints apply.
pub open spec fn access_scroll(action: AccessAction, unit: ScrollUnit) -> Option<ScrollCommand> {
    match action {
        AccessAction::ScrollUp => Some(pan(Axis::Vertical, unit, false)),
        AccessAction::ScrollDown => Some(pan(Axis::Vertical, unit, true)),
        AccessAction::ScrollLeft => Some(pan(Axis::Horizontal, unit, false)),
        AccessAction::ScrollRight => Some(pan(Axis::Horizontal, unit, true)),
        _ => None,
    }
}

/// The orientation a portal reports to accessibility: the one axis it can
/// scroll along, or none when it scrolls along both or neither.
pub open spec fn orientation_of(can_scroll_x: bool, can_scroll_y: bool) -> Option<Axis> {
    if can_scroll_y && !can_scroll_x {
        Some(Axis::Vertical)
    } else if can_scroll_x && !can_scroll_y {
        Some(Axis::Horizontal)
    } else {
        None
    }
}

/// Returns the scroll a key asks for, before the portal's constraints apply.
pub fn scroll_for_key(key: &KeyInput) -> (command: Option<ScrollCommand>)
    ensures
        command == key_scroll(*key),
{
    match key {
        KeyInput::PageDown => Some(ScrollCommand::Pan { axis: Axis::Vertical, unit: ScrollUnit::Page, forward: true }),
        KeyInput::PageUp => Some(ScrollCommand::Pan { axis: Axis::Vertical, unit: ScrollUnit::Page, forward: false }),
        KeyInput::ArrowDown => Some(ScrollCommand::Pan { axis: Axis::Vertical, unit: ScrollUnit::Item, forward: true }),
        KeyInput::ArrowUp => Some(ScrollCommand::Pan { axis: Axis::Vertical, unit: ScrollUnit::Item, forward: false }),
        KeyInput::ArrowRight => Some(ScrollCommand::Pan { axis: Axis::Horizontal, unit: ScrollUnit::Item, forward: true }),
        KeyInput::ArrowLeft => Some(ScrollCommand::Pan { axis: Axis::Horizontal, unit: ScrollUnit::Item, forward: false }),
        KeyInput::Home => Some(ScrollCommand::ToStart),
        KeyInput::End => Some(ScrollCommand::ToEnd),
        _ => None,
    }
}

/// Returns the orientation a portal reports to accessibility.
pub fn scroll_orientation(can_scroll_x: bool, can_scroll_y: bool) -> (o: Option<Axis>)
    ensures
        o == orientation_of(can_scroll_x, can_scroll_y),
{
    if can_scroll_y && !can_scroll_x {
        Some(Axis::Vertical)
    } else if can_scroll_x && !can_scroll_y {
        Some(Axis::Horizontal)
    } else {
        None
    }
}

/// A scrolling container with scrollbars and a child widget.
pub struct Portal<W> {
    pub child: WidgetPod<W>,
    /// The size the child was given at the last layout.
    pub content_size: Size,
    /// The position in the child of the portal's top-left corner.
    pub viewport_pos: Vec2,
    /// The child gets the portal's width as an upper bound, and the portal
    /// does not scroll horizontally.
    pub constrain_horizontal: bool,
    /// The child gets the portal's height as an upper bound, and the portal
    /// does not scroll vertically.
    pub constrain_vertical: bool,
    /// The child is at least as large as the portal.
    pub must_fill: bool,
    pub scrollbar_horizontal: WidgetPod<ScrollBar>,
    pub scrollbar_horizontal_visible: bool,
    pub scrollbar_vertical: WidgetPod<ScrollBar>,
    pub scrollbar_vertical_visible: bool,
    pub requests: Vec<Request>,
}

/// A scrollbar along `axis` for empty lengths, at the start, with no
/// identifier yet.
pub open spec fn initial_scrollbar(bar: WidgetPod<ScrollBar>, axis: Axis) -> bool {
    &&& bar.id.is_none()
    &&& bar.widget.axis == axis
    &&& bar.widget.cursor_progress == F64(0)
    &&& !bar.widget.moved
    &&& bar.widget.portal_size == F64(0)
    &&& bar.widget.content_size == F64(0)
    &&& bar.widget.grab_anchor.is_none()
    &&& bar.widget.requests@.len() == 0
}

impl<W> Portal<W> {
    /// Creates a scrolling container for the given child, scrolled to its
    /// top-left corner, constrained along no axis.
    pub fn new(child: WidgetPod<W>) -> (portal: Self)
        ensures
            portal.child == child,
            portal.content_size == (Size { width: F64(0), height: F64(0) }),
            portal.viewport_pos == (Vec2 { x: F64(0), y: F64(0) }),
            !portal.constrain_horizontal,
            !portal.constrain_vertical,
            !portal.must_fill,
            initial_scrollbar(portal.scrollbar_horizontal, Axis::Horizontal),
            !portal.scrollbar_horizontal_visible,
            initial_scrollbar(portal.scrollbar_vertical, Axis::Vertical),
            !portal.scrollbar_vertical_visible,
            portal.requests@.len() == 0,
    {
        Portal {
            child,
            content_size: Size { width: F64(0), height: F64(0) },
            viewport_pos: Vec2 { x: F64(0), y: F64(0) },
            constrain_horizontal: false,
            constrain_vertical: false,
            must_fill: false,
            scrollbar_horizontal: WidgetPod::new(ScrollBar::new(Axis::Horizontal, F64(0), F64(0))),
            scrollbar_horizontal_visible: false,
            scrollbar_vertical: WidgetPod::new(ScrollBar::new(Axis::Vertical, F64(0), F64(0))),
            scrollbar_vertical_visible: false,
            requests: Vec::new(),
        }
    }

    /// Sets whether the child is constrained vertically.
    pub fn constrain_vertical(self, constrain: bool) -> (portal: Self)
        ensures
            portal == (Portal { constrain_vertical: constrain, ..self }),
    {
        Portal { constrain_vertical: constrain, ..self }
    }

    /// Sets whether the child is constrained horizontally.
    pub fn constrain_horizontal(self, constrain: bool) -> (portal: Self)
        ensures
            portal == (Portal { constrain_horizontal: constrain, ..self }),
    {
        Portal { constrain_horizontal: constrain, ..self }
    }

    /// Sets whether the child must fill the portal.
    pub fn content_must_fill(self, must_fill: bool) -> (portal: Self)
        ensures
            portal == (Portal { must_fill, ..self }),
    {
        Portal { must_fill, ..self }
    }

    /// Returns the scrolling position of the container.
    pub fn get_viewport_pos(&self) -> (pos: Vec2)
        ensures
            pos == self.viewport_pos,
    {
        self.viewport_pos
    }

    /// Replaces the child; the old one is removed from the tree.
    pub fn set_child(this: &mut Self, child: WidgetPod<W>)
        ensures
            *final(this) == (Portal { child, requests: final(this).requests, ..*old(this) }),
            final(this).requests@ == old(this).requests@.push(Request::RemoveChild),
    {
        this.child = child;
        this.requests.push(Request::RemoveChild);
    }

    /// Returns the child widget.
    pub fn child_mut(this: &mut Self) -> (child: &mut W)
        ensures
            *child == old(this).child.widget,
            *final(this) == (Portal {
                child: WidgetPod { id: old(this).child.id, widget: *final(child) },
                ..*old(this)
            }),
    {
        &mut this.child.widget
    }

    /// Returns the horizontal scrollbar.
    pub fn horizontal_scrollbar_mut(this: &mut Self) -> (bar: &mut ScrollBar)
        ensures
            *bar == old(this).scrollbar_horizontal.widget,
            *final(this) == (Portal {
                scrollbar_horizontal: WidgetPod { id: old(this).scrollbar_horizontal.id, widget: *final(bar) },
                ..*old(this)
            }),
    {
        &mut this.scrollbar_horizontal.widget
    }

    /// Returns the vertical scrollbar.
    pub fn vertical_scrollbar_mut(this: &mut Self) -> (bar: &mut ScrollBar)
        ensures
            *bar == old(this).scrollbar_vertical.widget,
            *final(this) == (Portal {
                scrollbar_vertical: WidgetPod { id: old(this).scrollbar_vertical.id, widget: *final(bar) },
                ..*old(this)
            }),
    {
        &mut this.scrollbar_vertical.widget
    }

    /// Takes the moves the user made on the scrollbars: returns whether the
    /// horizontal and the vertical bar were moved since they were last
    /// looked at, and clears those marks. The viewport then follows the
    /// moved bars.
    pub fn take_scrollbar_moves(this: &mut Self) -> (moved: (bool, bool))
        ensures
            moved == (old(this).scrollbar_horizontal.widget.moved, old(this).scrollbar_vertical.widget.moved),
            *final(this) == (Portal {
                scrollbar_horizontal: WidgetPod {
                    id: old(this).scrollbar_horizontal.id,
                    widget: ScrollBar { moved: false, ..old(this).scrollbar_horizontal.widget },
                },
                scrollbar_vertical: WidgetPod {
                    id: old(this).scrollbar_vertical.id,
                    widget: ScrollBar { moved: false, ..old(this).scrollbar_vertical.widget },
                },
                ..*old(this)
            }),
    {
        let h = this.scrollbar_horizontal.widget.moved;
        let v = this.scrollbar_vertical.widget.moved;
        this.scrollbar_horizontal.widget.moved = false;
        this.scrollbar_vertical.widget.moved = false;
        (h, v)
    }

    /// The event's target is one of the portal's scrollbars.
    pub open spec fn targets_scrollbar(&self, target: WidgetId) -> bool {
        self.scrollbar_vertical.id == Some(target) || self.scrollbar_horizontal.id == Some(target)
    }

    /// Returns whether `target` is one of the portal's scrollbars.
    pub fn is_scrollbar(&self, target: WidgetId) -> (b: bool)
        ensures
            b == self.targets_scrollbar(target),
    {
        let v = match self.scrollbar_vertical.id {
            Some(id) => id.0 == target.0,
            None => false,
        };
        let h = match self.scrollbar_horizontal.id {
            Some(id) => id.0 == target.0,
            None => false,
        };
        v || h
    }

    /// The identifiers of the portal's children: its content, then its
    /// vertical and horizontal scrollbars.
    pub fn children_ids(&self) -> (ids: Vec<Option<WidgetId>>)
        ensures
            ids@ == seq![self.child.id, self.scrollbar_vertical.id, self.scrollbar_horizontal.id],
    {
        let mut ids = Vec::new();
        ids.push(self.child.id);
        ids.push(self.scrollbar_vertical.id);
        ids.push(self.scrollbar_horizontal.id);
        ids
    }

    /// Sets whether the child is constrained horizontally. Requests a new layout.
    pub fn set_constrain_horizontal(this: &mut Self, constrain: bool)
        ensures
            *final(this) == (Portal { constrain_horizontal: constrain, requests: final(this).requests, ..*old(this) }),
            final(this).requests@ == old(this).requests@.push(Request::Layout),
    {
        this.constrain_horizontal = constrain;
        this.requests.push(Request::Layout);
    }

    /// Sets whether the child is constrained vertically. Requests a new layout.
    pub fn set_constrain_vertical(this: &mut Self, constrain: bool)
        ensures
            *final(this) == (Portal { constrain_vertical: constrain, requests: final(this).requests, ..*old(this) }),
            final(this).requests@ == old(this).requests@.push(Request::Layout),
    {
        this.constrain_vertical = constrain;
        this.requests.push(Request::Layout);
    }

    /// Sets whether the child must fill the portal. Requests a new layout.
    pub fn set_content_must_fill(this: &mut Self, must_fill: bool)
        ensures
            *final(this) == (Portal { must_fill, requests: final(this).requests, ..*old(this) }),
            final(this).requests@ == old(this).requests@.push(Request::Layout),
    {
        this.must_fill = must_fill;
        this.requests.push(Request::Layout);
    }

    /// Whether the child is constrained along `axis`.
    pub open spec fn constrained_along(&self, axis: Axis) -> bool {
        match axis {
            Axis::Horizontal => self.constrain_horizontal,
            Axis::Vertical => self.constrain_vertical,
        }
    }

    /// The scroll the portal performs for a requested one: a pan along a
    /// constrained axis does nothing; moves to the start or the end are
    /// performed whatever the constraints.
    pub open spec fn allowed(&self, command: Option<ScrollCommand>) -> Option<ScrollCommand> {
        match command {
            Some(ScrollCommand::Pan { axis, .. }) => if self.constrained_along(axis) { None } else { command },
            _ => command,
        }
    }

    /// Returns whether the child is constrained along `axis`.
    pub fn is_constrained(&self, axis: Axis) -> (c: bool)
        ensures
            c == self.constrained_along(axis),
    {
        match axis {
            Axis::Horizontal => self.constrain_horizontal,
            Axis::Vertical => self.constrain_vertical,
        }
    }

    /// The portal takes the keyboard focus unless it is constrained along
    /// both axes.
    pub fn accepts_focus(&self) -> (accepts: bool)
        ensures
            accepts == !(self.constrain_horizontal && self.constrain_vertical),
    {
        !(self.constrain_horizontal && self.constrain_vertical)
    }

    /// Returns the scroll requested by `command` that the portal performs.
    fn allow(&self, command: Option<ScrollCommand>) -> (performed: Option<ScrollCommand>)
        ensures
            performed == self.allowed(command),
    {
        match command {
            Some(ScrollCommand::Pan { axis, .. }) => if self.is_constrained(axis) { None } else { command },
            _ => command,
        }
    }

    /// The scroll the portal performs for a key event: only a pressed key
    /// scrolls, and none while one of the portal's scrollbars has the focus
    /// (the scrollbar takes the keys then).
    pub fn scroll_for_key_event(&self, event: &KeyEvent, target: WidgetId) -> (command: Option<ScrollCommand>)
        ensures
            command == if event.is_up || self.targets_scrollbar(target) {
                None
            } else {
                self.allowed(key_scroll(event.key))
            },
    {
        if event.is_up || self.is_scrollbar(target) {
            None
        } else {
            self.allow(scroll_for_key(&event.key))
        }
    }

    /// The scroll the portal performs for an accessibility action, by the
    /// unit it comes with (a line when it comes with none); none for an
    /// action that targets one of the portal's scrollbars.
    pub fn scroll_for_access_event(
        &self,
        action: AccessAction,
        unit: Option<ScrollUnit>,
        target: WidgetId,
    ) -> (command: Option<ScrollCommand>)
        ensures
            command == if self.targets_scrollbar(target) {
                None
            } else {
                self.allowed(access_scroll(action, match unit { Some(u) => u, None => ScrollUnit::Item }))
            },
    {
        if self.is_scrollbar(target) {
            return None;
        }
        let unit = match unit {
            Some(u) => u,
            None => ScrollUnit::Item,
        };
        let requested = match action {
            AccessAction::ScrollUp => Some(ScrollCommand::Pan { axis: Axis::Vertical, unit, forward: false }),
            AccessAction::ScrollDown => Some(ScrollCommand::Pan { axis: Axis::Vertical, unit, forward: true }),
            AccessAction::ScrollLeft => Some(ScrollCommand::Pan { axis: Axis::Horizontal, unit, forward: false }),
            AccessAction::ScrollRight => Some(ScrollCommand::Pan { axis: Axis::Horizontal, unit, forward: true }),
            _ => None,
        };
        self.allow(requested)
    }

    /// How the portal measures itself along `axis`: nothing for its minimum
    /// content, the available space when fitted into it, and otherwise its
    /// child's maximum content, with the cross length passed down only when
    /// the child is constrained across `axis`.
    pub fn measure(&self, axis: Axis, len_req: LenReq, cross_length: Option<F64>) -> (m: PortalMeasure)
        ensures
            m == match len_req {
                LenReq::MinContent => PortalMeasure::Length(F64(0)),
                LenReq::FitContent(space) => PortalMeasure::Length(space),
                LenReq::MaxContent => PortalMeasure::Child {
                    cross_length: if self.constrained_along(axis_cross(axis)) { cross_length } else { None },
                },
            },
    {
        match len_req {
            LenReq::MinContent => PortalMeasure::Length(F64(0)),
            LenReq::FitContent(space) => PortalMeasure::Length(space),
            LenReq::MaxContent => {
                let cross = axis.cross();
                PortalMeasure::Child {
                    cross_length: if self.is_constrained(cross) { cross_length } else { None },
                }
            },
        }
    }

    /// How the child is sized along `axis` at layout, given the portal's
    /// length `space` along it: fitted into the space when constrained,
    /// at its maximum content otherwise.
    pub fn child_length_request(&self, axis: Axis, space: F64) -> (r: LenReq)
        ensures
            r == if self.constrained_along(axis) { LenReq::FitContent(space) } else { LenReq::MaxContent },
    {
        if self.is_constrained(axis) { LenReq::FitContent(space) } else { LenReq::MaxContent }
    }

    /// Decides at layout which scrollbars are shown: the one along an axis
    /// on which the child is not constrained and overflows the portal.
    pub fn update_scrollbar_visibility(this: &mut Self, overflows_x: bool, overflows_y: bool)
        ensures
            *final(this) == (Portal {
                scrollbar_horizontal_visible: !old(this).constrain_horizontal && overflows_x,
                scrollbar_vertical_visible: !old(this).constrain_vertical && overflows_y,
                ..*old(this)
            }),
    {
        this.scrollbar_horizontal_visible = !this.constrain_horizontal && overflows_x;
        this.scrollbar_vertical_visible = !this.constrain_vertical && overflows_y;
    }

    /// The orientation the portal reports to accessibility, given whether
    /// its scroll range is not empty along each axis: it scrolls along an
    /// axis when the range along it is not empty and it is not constrained.
    pub fn accessibility_orientation(&self, range_x_nonempty: bool, range_y_nonempty: bool) -> (o: Option<Axis>)
        ensures
            o == orientation_of(
                !self.constrain_horizontal && range_x_nonempty,
                !self.constrain_vertical && range_y_nonempty,
            ),
    {
        scroll_orientation(!self.constrain_horizontal && range_x_nonempty, !self.constrain_vertical && range_y_nonempty)
    }
}

/// A portal whose child is constrained along an axis does not scroll along
/// it: no key and no accessibility action pans it along that axis.
pub proof fn law_constrained_axis_never_pans<W>(portal: Portal<W>, axis: Axis, unit: ScrollUnit, forward: bool)
    requires
        portal.constrained_along(axis),
    ensures
        portal.allowed(Some(pan(axis, unit, forward))) is None,
{
}

impl<W> Portal<W> {
    /// The role the widget reports to accessibility.
    pub fn accessibility_role(&self) -> (role: AccessRole)
        ensures
            role == AccessRole::ScrollView,
    {
        AccessRole::ScrollView
    }
}

/// The keys scroll a portal the way they point: Home to the start and End
/// to the end; the arrows and the page keys pan along the axis they point
/// along, Down, Right and Page Down towards the end, Up, Left and Page Up
/// towards the start; the page keys move by a page, the arrows by a line.
pub proof fn law_portal_keys_point_the_way()
    ensures
        key_scroll(KeyInput::Home) == Some(ScrollCommand::ToStart),
        key_scroll(KeyInput::End) == Some(ScrollCommand::ToEnd),
        forall|k: KeyInput| #[trigger] key_scroll(k) matches Some(ScrollCommand::Pan { axis, unit, forward }) ==> {
            &&& (forward <==> (k is ArrowDown || k is ArrowRight || k is PageDown))
            &&& (axis == Axis::Horizontal <==> (k is ArrowLeft || k is ArrowRight))
            &&& (unit == ScrollUnit::Page <==> (k is PageUp || k is PageDown))
        },
        forall|k: KeyInput| (k is ArrowUp || k is ArrowDown || k is ArrowLeft || k is ArrowRight
            || k is PageUp || k is PageDown) ==> #[trigger] key_scroll(k) is Some,
{
}

} // verus!
