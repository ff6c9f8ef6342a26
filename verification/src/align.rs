//! Align: a container that aligns its child within the space it gets.

use vstd::prelude::*;
use crate::widget::{AccessRole, Request, WidgetId, WidgetPod, F64};

verus! {

/// A point in the unit square, in `f64`: `(0, 0)` is the top-left corner
/// and `(1, 1)` the bottom-right one.
#[derive(Clone, Copy, Debug, PartialEq, Eq, Structural)]
pub struct UnitPoint {
    pub u: F64,
    pub v: F64,
}

/// `0.5` as `f64` bits.
pub const F64_HALF: u64 = 0x3fe0_0000_0000_0000u64;

/// `1.0` as `f64` bits.
pub const F64_ONE: u64 = 0x3ff0_0000_0000_0000u64;

impl UnitPoint {
    /// The center, `(0.5, 0.5)`.
    pub fn center() -> (p: UnitPoint)
        ensures
            p == (UnitPoint { u: F64(F64_HALF), v: F64(F64_HALF) }),
    {
        UnitPoint { u: F64(F64_HALF), v: F64(F64_HALF) }
    }

    /// The middle of the right edge, `(1.0, 0.5)`.
    pub fn right() -> (p: UnitPoint)
        ensures
            p == (UnitPoint { u: F64(F64_ONE), v: F64(F64_HALF) }),
    {
        UnitPoint { u: F64(F64_ONE), v: F64(F64_HALF) }
    }

    /// The middle of the left edge, `(0.0, 0.5)`.
    pub fn left() -> (p: UnitPoint)
        ensures
            p == (UnitPoint { u: F64(0), v: F64(F64_HALF) }),
    {
        UnitPoint { u: F64(0), v: F64(F64_HALF) }
    }
}

/// A widget that aligns its child.
///
/// A size factor, where set, makes the widget as large as its child along
/// that axis times the factor, instead of taking all the space it is given.
pub struct Align<W> {
    pub align: UnitPoint,
    pub child: WidgetPod<W>,
    pub width_factor: Option<F64>,
    pub height_factor: Option<F64>,
    pub requests: Vec<Request>,
}

impl<W> Align<W> {
    /// Creates a widget aligning its child at `align`.
    pub fn new(align: UnitPoint, child: WidgetPod<W>) -> (a: Self)
        ensures
            a.align == align,
            a.child == child,
            a.width_factor.is_none(),
            a.height_factor.is_none(),
            a.requests@.len() == 0,
    {
        Align { align, child, width_factor: None, height_factor: None, requests: Vec::new() }
    }

    /// Creates a widget centering its child.
    pub fn centered(child: WidgetPod<W>) -> (a: Self)
        ensures
            a.align == (UnitPoint { u: F64(F64_HALF), v: F64(F64_HALF) }),
            a.child == child,
            a.width_factor.is_none(),
            a.height_factor.is_none(),
            a.requests@.len() == 0,
    {
        Self::new(UnitPoint::center(), child)
    }

    /// Creates a widget aligning its child to the right.
    pub fn right(child: WidgetPod<W>) -> (a: Self)
        ensures
            a.align == (UnitPoint { u: F64(F64_ONE), v: F64(F64_HALF) }),
            a.child == child,
            a.width_factor.is_none(),
            a.height_factor.is_none(),
            a.requests@.len() == 0,
    {
        Self::new(UnitPoint::right(), child)
    }

    /// Creates a widget aligning its child to the left.
    pub fn left(child: WidgetPod<W>) -> (a: Self)
        ensures
            a.align == (UnitPoint { u: F64(0), v: F64(F64_HALF) }),
            a.child == child,
            a.width_factor.is_none(),
            a.height_factor.is_none(),
            a.requests@.len() == 0,
    {
        Self::new(UnitPoint::left(), child)
    }

    /// Aligns only along the horizontal axis, keeping the child's height.
    pub fn horizontal(align: UnitPoint, child: WidgetPod<W>) -> (a: Self)
        ensures
            a.align == align,
            a.child == child,
            a.width_factor.is_none(),
            a.height_factor == Some(F64(F64_ONE)),
            a.requests@.len() == 0,
    {
        Align { align, child, width_factor: None, height_factor: Some(F64(F64_ONE)), requests: Vec::new() }
    }

    /// Aligns only along the vertical axis, keeping the child's width.
    pub fn vertical(align: UnitPoint, child: WidgetPod<W>) -> (a: Self)
        ensures
            a.align == align,
            a.child == child,
            a.width_factor == Some(F64(F64_ONE)),
            a.height_factor.is_none(),
            a.requests@.len() == 0,
    {
        Align { align, child, width_factor: Some(F64(F64_ONE)), height_factor: None, requests: Vec::new() }
    }

    /// Replaces the child; the old one is removed from the tree.
    pub fn set_child(this: &mut Self, child: WidgetPod<W>)
        ensures
            final(this).child == child,
            final(this).align == old(this).align,
            final(this).width_factor == old(this).width_factor,
            final(this).height_factor == old(this).height_factor,
            final(this).requests@ == old(this).requests@.push(Request::RemoveChild),
    {
        this.child = child;
        this.requests.push(Request::RemoveChild);
    }

    /// Returns the child widget.
    pub fn child_mut(this: &mut Self) -> (child: &mut W)
        ensures
            *child == old(this).child.widget,
            final(this).child.widget == *final(child),
            final(this).child.id == old(this).child.id,
            final(this).align == old(this).align,
            final(this).width_factor == old(this).width_factor,
            final(this).height_factor == old(this).height_factor,
            final(this).requests == old(this).requests,
    {
        &mut this.child.widget
    }

    /// The identifier of the child.
    pub fn children_ids(&self) -> (ids: Vec<Option<WidgetId>>)
        ensures
            ids@ == seq![self.child.id],
    {
        let mut ids = Vec::new();
        ids.push(self.child.id);
        ids
    }
}

impl<W> Align<W> {
    /// The role the widget reports to accessibility.
    pub fn accessibility_role(&self) -> (role: AccessRole)
        ensures
            role == AccessRole::GenericContainer,
    {
        AccessRole::GenericContainer
    }
}

} // verus!
