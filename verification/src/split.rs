//! Split: a container dividing its space between two children, along an
//! axis, with a bar between them that can be dragged.

use vstd::prelude::*;
use crate::widget::{AccessRole, 
    is_nan_bits, is_negative_bits, repaints_on, AccessAction, Axis, KeyEvent, KeyInput, Length, PaintState, Request, UpdateEvent,
    WidgetId, WidgetPod, F64, F64_SIGN_MASK,
};

verus! {

/// Where the bar of a split is placed.
#[derive(Clone, Copy, Debug, PartialEq, Eq, Structural)]
pub enum SplitPoint {
    /// At a fraction of the space, from 0 (start) to 1 (end).
    Fraction(F64),
    /// At a fixed length from the start.
    FromStart(Length),
    /// At a fixed length from the end.
    FromEnd(Length),
}

/// A move of the bar that a key or an accessibility action asks for. The
/// lengths involved are `f64` values, computed by the caller.
#[derive(Clone, Copy, Debug, PartialEq, Eq, Structural)]
pub enum SplitMove {
    /// Move the bar by one step towards the end (`forward`) or the start.
    Step { forward: bool },
    /// Move the bar as close to the start as the minimum lengths allow.
    ToMin,
    /// Move the bar as close to the end as the minimum lengths allow.
    ToMax,
    /// Set the length of the first child to the value the action carries.
    SetValue,
}

/// The move a key asks of a split along `axis`: the arrows along the axis
/// step the bar, Home and End send it to its limits.
pub open spec fn key_move(key: KeyInput, axis: Axis) -> Option<SplitMove> {
    match (key, axis) {
        (KeyInput::ArrowLeft, Axis::Horizontal) => Some(SplitMove::Step { forward: false }),
        (KeyInput::ArrowRight, Axis::Horizontal) => Some(SplitMove::Step { forward: true }),
        (KeyInput::ArrowUp, Axis::Vertical) => Some(SplitMove::Step { forward: false }),
        (KeyInput::ArrowDown, Axis::Vertical) => Some(SplitMove::Step { forward: true }),
        (KeyInput::Home, _) => Some(SplitMove::ToMin),
        (KeyInput::End, _) => Some(SplitMove::ToMax),
        _ => None,
    }
}

/// The move an accessibility action asks of a split.
pub open spec fn access_move(action: AccessAction) -> Option<SplitMove> {
    match action {
        AccessAction::Increment => Some(SplitMove::Step { forward: true }),
        AccessAction::Decrement => Some(SplitMove::Step { forward: false }),
        AccessAction::SetValue => Some(SplitMove::SetValue),
        _ => None,
    }
}

/// The shade of the bar of a split.
#[derive(Clone, Copy, Debug, PartialEq, Eq, Structural)]
pub enum BarShade {
    /// The bar cannot be moved: not draggable, or the split is disabled.
    Inactive,
    /// The bar is pressed, hovered or has the focus.
    Highlighted,
    /// Any other movable bar.
    Normal,
}

/// `0.5` as `f64` bits.
pub const F64_HALF: u64 = 0x3fe0_0000_0000_0000u64;

/// `1.0` as `f64` bits.
pub const F64_ONE: u64 = 0x3ff0_0000_0000_0000u64;

/// `6.0` as `f64` bits.
pub const F64_SIX: u64 = 0x4018_0000_0000_0000u64;

/// `x.clamp(0.0, 1.0)` on bits: a value below zero becomes `0.0`, one above
/// one becomes `1.0`; NaN and the values in between (`-0.0` among them) stay.
pub open spec fn clamp_unit(x: F64) -> F64 {
    if is_nan_bits(x.0) {
        x
    } else if is_negative_bits(x.0) {
        F64(0)
    } else if (x.0 & F64_SIGN_MASK) == 0 && x.0 > F64_ONE {
        F64(F64_ONE)
    } else {
        x
    }
}

/// A clamped fraction that is not NaN lies in `[0, 1]`: it is not below
/// zero, and when its sign is clear its bits are at most those of `1.0`
/// (positive `f64` values are ordered as their bits). Clamping again
/// changes nothing.
pub proof fn law_fraction_in_unit_range(x: F64)
    ensures
        !is_nan_bits(x.0) ==> !is_negative_bits(clamp_unit(x).0),
        !is_nan_bits(x.0) && (clamp_unit(x).0 & F64_SIGN_MASK) == 0 ==> clamp_unit(x).0 <= F64_ONE,
        clamp_unit(clamp_unit(x)) == clamp_unit(x),
{
    assert(!is_negative_bits(0u64)) by (bit_vector);
    assert(!is_nan_bits(0u64)) by (bit_vector);
    assert(!is_negative_bits(F64_ONE) && !is_nan_bits(F64_ONE) && (F64_ONE & F64_SIGN_MASK) == 0) by (bit_vector);
}

/// Returns `x.clamp(0.0, 1.0)`.
pub fn clamp_fraction(x: F64) -> (c: F64)
    ensures
        c == clamp_unit(x),
{
    let nan = (x.0 & crate::widget::F64_EXP_MASK) == crate::widget::F64_EXP_MASK
        && (x.0 & crate::widget::F64_MANTISSA_MASK) != 0;
    if nan {
        x
    } else if x.is_negative() {
        F64(0)
    } else if (x.0 & F64_SIGN_MASK) == 0 && x.0 > F64_ONE {
        F64(F64_ONE)
    } else {
        x
    }
}

/// The split point kept for a requested one: a fraction is clamped to
/// `[0, 1]`, a length is kept as it is.
pub open spec fn kept_split_point(p: SplitPoint) -> SplitPoint {
    match p {
        SplitPoint::Fraction(f) => SplitPoint::Fraction(clamp_unit(f)),
        other => other,
    }
}

/// Returns the split point kept for a requested one.
fn keep_split_point(p: SplitPoint) -> (k: SplitPoint)
    ensures
        k == kept_split_point(p),
{
    match p {
        SplitPoint::Fraction(f) => SplitPoint::Fraction(clamp_fraction(f)),
        other => other,
    }
}

/// A container containing two other widgets, splitting the space between
/// them along an axis, with a bar between them.
pub struct Split<A, B> {
    pub split_axis: Axis,
    pub split_point_chosen: SplitPoint,
    /// The minimum lengths of the two children along the axis.
    pub min_lengths: (Length, Length),
    pub bar_thickness: Length,
    /// The minimum length of the area in which the bar can be grabbed.
    pub min_bar_area: Length,
    /// The bar is drawn as a solid rectangle rather than as lines.
    pub solid: bool,
    /// The bar can be dragged.
    pub draggable: bool,
    pub child1: WidgetPod<A>,
    pub child2: WidgetPod<B>,
    pub requests: Vec<Request>,
}

impl<A, B> Split<A, B> {
    /// Creates a new horizontal split, with the bar in the middle, six pixels
    /// thick and draggable, and no minimum lengths.
    pub fn new(child1: WidgetPod<A>, child2: WidgetPod<B>) -> (s: Self)
        ensures
            s.split_axis == Axis::Horizontal,
            s.split_point_chosen == SplitPoint::Fraction(F64(F64_HALF)),
            s.min_lengths == (Length(F64(0)), Length(F64(0))),
            s.bar_thickness == Length(F64(F64_SIX)),
            s.min_bar_area == Length(F64(F64_SIX)),
            !s.solid,
            s.draggable,
            s.child1 == child1,
            s.child2 == child2,
            s.requests@.len() == 0,
    {
        Split {
            split_axis: Axis::Horizontal,
            split_point_chosen: SplitPoint::Fraction(F64(F64_HALF)),
            min_lengths: (Length(F64(0)), Length(F64(0))),
            bar_thickness: Length(F64(F64_SIX)),
            min_bar_area: Length(F64(F64_SIX)),
            solid: false,
            draggable: true,
            child1,
            child2,
            requests: Vec::new(),
        }
    }

    /// Sets the axis along which the space is split.
    pub fn split_axis(self, split_axis: Axis) -> (s: Self)
        ensures
            s == (Split { split_axis, ..self }),
    {
        Split { split_axis, ..self }
    }

    /// Places the bar at a fraction of the space, clamped to `[0, 1]`.
    pub fn split_fraction(self, split_point: F64) -> (s: Self)
        ensures
            s == (Split { split_point_chosen: SplitPoint::Fraction(clamp_unit(split_point)), ..self }),
    {
        Split { split_point_chosen: SplitPoint::Fraction(clamp_fraction(split_point)), ..self }
    }

    /// Places the bar; a fraction is clamped to `[0, 1]`.
    pub fn split_point(self, split_point: SplitPoint) -> (s: Self)
        ensures
            s == (Split { split_point_chosen: kept_split_point(split_point), ..self }),
    {
        Split { split_point_chosen: keep_split_point(split_point), ..self }
    }

    /// Places the bar at a fixed length from the start.
    pub fn split_point_from_start(self, split_point: Length) -> (s: Self)
        ensures
            s == (Split { split_point_chosen: SplitPoint::FromStart(split_point), ..self }),
    {
        Split { split_point_chosen: SplitPoint::FromStart(split_point), ..self }
    }

    /// Places the bar at a fixed length from the end.
    pub fn split_point_from_end(self, split_point: Length) -> (s: Self)
        ensures
            s == (Split { split_point_chosen: SplitPoint::FromEnd(split_point), ..self }),
    {
        Split { split_point_chosen: SplitPoint::FromEnd(split_point), ..self }
    }

    /// Sets the minimum lengths of the two children.
    pub fn min_lengths(self, first: Length, second: Length) -> (s: Self)
        ensures
            s == (Split { min_lengths: (first, second), ..self }),
    {
        Split { min_lengths: (first, second), ..self }
    }

    /// Sets the thickness of the bar.
    pub fn bar_thickness(self, bar_thickness: Length) -> (s: Self)
        ensures
            s == (Split { bar_thickness, ..self }),
    {
        Split { bar_thickness, ..self }
    }

    /// Sets the minimum length of the area in which the bar can be grabbed.
    pub fn min_bar_area(self, min_bar_area: Length) -> (s: Self)
        ensures
            s == (Split { min_bar_area, ..self }),
    {
        Split { min_bar_area, ..self }
    }

    /// Sets whether the bar can be dragged.
    pub fn draggable(self, draggable: bool) -> (s: Self)
        ensures
            s == (Split { draggable, ..self }),
    {
        Split { draggable, ..self }
    }

    /// Sets whether the bar is drawn as a solid rectangle.
    pub fn solid_bar(self, solid: bool) -> (s: Self)
        ensures
            s == (Split { solid, ..self }),
    {
        Split { solid, ..self }
    }

    /// Replaces the first child; the old one is removed from the tree.
    pub fn set_child1(this: &mut Self, child: WidgetPod<A>)
        ensures
            *final(this) == (Split { child1: child, requests: final(this).requests, ..*old(this) }),
            final(this).requests@ == old(this).requests@.push(Request::RemoveChild),
    {
        this.child1 = child;
        this.requests.push(Request::RemoveChild);
    }

    /// Replaces the second child; the old one is removed from the tree.
    pub fn set_child2(this: &mut Self, child: WidgetPod<B>)
        ensures
            *final(this) == (Split { child2: child, requests: final(this).requests, ..*old(this) }),
            final(this).requests@ == old(this).requests@.push(Request::RemoveChild),
    {
        this.child2 = child;
        this.requests.push(Request::RemoveChild);
    }

    /// Returns the first child.
    pub fn child1_mut(this: &mut Self) -> (child: &mut A)
        ensures
            *child == old(this).child1.widget,
            *final(this) == (Split {
                child1: WidgetPod { id: old(this).child1.id, widget: *final(child) },
                ..*old(this)
            }),
    {
        &mut this.child1.widget
    }

    /// Returns the second child.
    pub fn child2_mut(this: &mut Self) -> (child: &mut B)
        ensures
            *child == old(this).child2.widget,
            *final(this) == (Split {
                child2: WidgetPod { id: old(this).child2.id, widget: *final(child) },
                ..*old(this)
            }),
    {
        &mut this.child2.widget
    }

    /// Sets the split axis. Requests a new layout.
    pub fn set_split_axis(this: &mut Self, split_axis: Axis)
        ensures
            *final(this) == (Split { split_axis, requests: final(this).requests, ..*old(this) }),
            final(this).requests@ == old(this).requests@.push(Request::Layout),
    {
        this.split_axis = split_axis;
        this.requests.push(Request::Layout);
    }

    /// Places the bar; a fraction is clamped to `[0, 1]`. Requests a new layout.
    pub fn set_split_point(this: &mut Self, split_point: SplitPoint)
        ensures
            *final(this) == (Split {
                split_point_chosen: kept_split_point(split_point),
                requests: final(this).requests,
                ..*old(this)
            }),
            final(this).requests@ == old(this).requests@.push(Request::Layout),
    {
        this.split_point_chosen = keep_split_point(split_point);
        this.requests.push(Request::Layout);
    }

    /// Sets the minimum lengths of the two children. Requests a new layout.
    pub fn set_min_lengths(this: &mut Self, first: Length, second: Length)
        ensures
            *final(this) == (Split { min_lengths: (first, second), requests: final(this).requests, ..*old(this) }),
            final(this).requests@ == old(this).requests@.push(Request::Layout),
    {
        this.min_lengths = (first, second);
        this.requests.push(Request::Layout);
    }

    /// Sets the thickness of the bar. Requests a new layout.
    pub fn set_bar_thickness(this: &mut Self, bar_thickness: Length)
        ensures
            *final(this) == (Split { bar_thickness, requests: final(this).requests, ..*old(this) }),
            final(this).requests@ == old(this).requests@.push(Request::Layout),
    {
        this.bar_thickness = bar_thickness;
        this.requests.push(Request::Layout);
    }

    /// Sets the minimum grab area of the bar. Requests a new layout.
    pub fn set_min_bar_area(this: &mut Self, min_bar_area: Length)
        ensures
            *final(this) == (Split { min_bar_area, requests: final(this).requests, ..*old(this) }),
            final(this).requests@ == old(this).requests@.push(Request::Layout),
    {
        this.min_bar_area = min_bar_area;
        this.requests.push(Request::Layout);
    }

    /// Sets whether the bar can be dragged. Requests a repaint only.
    pub fn set_draggable(this: &mut Self, draggable: bool)
        ensures
            *final(this) == (Split { draggable, requests: final(this).requests, ..*old(this) }),
            final(this).requests@ == old(this).requests@.push(Request::PaintOnly),
    {
        this.draggable = draggable;
        this.requests.push(Request::PaintOnly);
    }

    /// Sets whether the bar is drawn solid. Requests a repaint only.
    pub fn set_bar_solid(this: &mut Self, solid: bool)
        ensures
            *final(this) == (Split { solid, requests: final(this).requests, ..*old(this) }),
            final(this).requests@ == old(this).requests@.push(Request::PaintOnly),
    {
        this.solid = solid;
        this.requests.push(Request::PaintOnly);
    }

    /// A split can take the keyboard focus.
    pub fn accepts_focus(&self) -> (accepts: bool)
        ensures
            accepts,
    {
        true
    }

    /// Focus, hover, active and disabled changes repaint the bar.
    pub fn update(&mut self, event: UpdateEvent)
        ensures
            *final(self) == (Split { requests: final(self).requests, ..*old(self) }),
            final(self).requests@ == if repaints_on(event) {
                old(self).requests@.push(Request::PaintOnly)
            } else {
                old(self).requests@
            },
    {
        match event {
            UpdateEvent::HoveredChanged(_) | UpdateEvent::ActiveChanged(_)
            | UpdateEvent::FocusChanged(_) | UpdateEvent::DisabledChanged(_) => {
                self.requests.push(Request::PaintOnly);
            },
            _ => {},
        }
    }

    /// The move a key event asks of the bar: only a pressed key moves it,
    /// and only when the split is enabled, has the focus itself and can be
    /// dragged.
    pub fn move_for_key_event(&self, event: &KeyEvent, is_disabled: bool, is_focus_target: bool) -> (m: Option<SplitMove>)
        ensures
            m == if is_disabled || !is_focus_target || !self.draggable || event.is_up {
                None
            } else {
                key_move(event.key, self.split_axis)
            },
    {
        if is_disabled || !is_focus_target || !self.draggable || event.is_up {
            return None;
        }
        match (&event.key, self.split_axis) {
            (KeyInput::ArrowLeft, Axis::Horizontal) => Some(SplitMove::Step { forward: false }),
            (KeyInput::ArrowRight, Axis::Horizontal) => Some(SplitMove::Step { forward: true }),
            (KeyInput::ArrowUp, Axis::Vertical) => Some(SplitMove::Step { forward: false }),
            (KeyInput::ArrowDown, Axis::Vertical) => Some(SplitMove::Step { forward: true }),
            (KeyInput::Home, _) => Some(SplitMove::ToMin),
            (KeyInput::End, _) => Some(SplitMove::ToMax),
            _ => None,
        }
    }

    /// The move an accessibility action asks of the bar, when the split is
    /// enabled and can be dragged.
    pub fn move_for_access_event(&self, action: AccessAction, is_disabled: bool) -> (m: Option<SplitMove>)
        ensures
            m == if is_disabled || !self.draggable { None } else { access_move(action) },
    {
        if is_disabled || !self.draggable {
            return None;
        }
        match action {
            AccessAction::Increment => Some(SplitMove::Step { forward: true }),
            AccessAction::Decrement => Some(SplitMove::Step { forward: false }),
            AccessAction::SetValue => Some(SplitMove::SetValue),
            _ => None,
        }
    }

    /// The shade the bar is painted in, in the given situation.
    pub fn bar_shade(&self, state: PaintState) -> (shade: BarShade)
        ensures
            shade == if !self.draggable || state.is_disabled {
                BarShade::Inactive
            } else if state.is_active || state.is_hovered || state.is_focus_target {
                BarShade::Highlighted
            } else {
                BarShade::Normal
            },
    {
        if !self.draggable || state.is_disabled {
            BarShade::Inactive
        } else if state.is_active || state.is_hovered || state.is_focus_target {
            BarShade::Highlighted
        } else {
            BarShade::Normal
        }
    }

    /// The identifiers of the two children.
    pub fn children_ids(&self) -> (ids: Vec<Option<WidgetId>>)
        ensures
            ids@ == seq![self.child1.id, self.child2.id],
    {
        let mut ids = Vec::new();
        ids.push(self.child1.id);
        ids.push(self.child2.id);
        ids
    }
}

impl<A, B> Split<A, B> {
    /// The role the widget reports to accessibility.
    pub fn accessibility_role(&self) -> (role: AccessRole)
        ensures
            role == AccessRole::Splitter,
    {
        AccessRole::Splitter
    }
}

/// The arrow keys move the bar of a split only along its axis, and in the
/// direction they point: Left and Up towards the start (shrinking the first
/// child), Right and Down towards the end; both arrows along the axis move
/// the bar. Home and End send it to its limits, whatever the axis.
pub proof fn law_split_arrows_point_the_way(axis: Axis)
    ensures
        forall|k: KeyInput| #[trigger] key_move(k, axis) matches Some(SplitMove::Step { forward }) ==> {
            &&& (forward <==> (k is ArrowDown || k is ArrowRight))
            &&& (k is ArrowLeft || k is ArrowRight) ==> axis == Axis::Horizontal
            &&& (k is ArrowUp || k is ArrowDown) ==> axis == Axis::Vertical
        },
        key_move(if axis == Axis::Vertical { KeyInput::ArrowUp } else { KeyInput::ArrowLeft }, axis)
            == Some(SplitMove::Step { forward: false }),
        key_move(if axis == Axis::Vertical { KeyInput::ArrowDown } else { KeyInput::ArrowRight }, axis)
            == Some(SplitMove::Step { forward: true }),
        key_move(KeyInput::Home, axis) == Some(SplitMove::ToMin),
        key_move(KeyInput::End, axis) == Some(SplitMove::ToMax),
{
}

} // verus!
