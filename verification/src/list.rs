//! List: a container arranging its children in a row or a column, with a
//! gap between them.

use vstd::prelude::*;
use crate::widget::{AccessRole, is_finite_bits, is_negative_bits, Axis, Request, WidgetId, WidgetPod, F64};

verus! {

/// A non-flex container with either horizontal or vertical layout.
pub struct List<W> {
    pub direction: Axis,
    pub children: Vec<WidgetPod<W>>,
    /// The spacing between two children along the main axis, in logical pixels.
    pub gap: F64,
    pub requests: Vec<Request>,
}

/// A gap a list or a stack accepts: a finite value not below zero.
pub open spec fn valid_gap(gap: F64) -> bool {
    is_finite_bits(gap.0) && !is_negative_bits(gap.0)
}

/// Returns whether `gap` is finite and not below zero.
pub fn is_valid_gap(gap: F64) -> (valid: bool)
    ensures
        valid == valid_gap(gap),
{
    gap.is_finite() && !gap.is_negative()
}

impl<W> List<W> {
    /// Creates a new list oriented along the given axis, with no gap.
    pub fn for_axis(axis: Axis) -> (list: Self)
        ensures
            list.direction == axis,
            list.children@.len() == 0,
            list.gap == F64(0),
            list.requests@.len() == 0,
    {
        List { direction: axis, children: Vec::new(), gap: F64(0), requests: Vec::new() }
    }

    /// Creates a new horizontal list: children from left to right.
    pub fn row() -> (list: Self)
        ensures
            list.direction == Axis::Horizontal,
            list.children@.len() == 0,
            list.gap == F64(0),
            list.requests@.len() == 0,
    {
        Self::for_axis(Axis::Horizontal)
    }

    /// Creates a new vertical list: children from top to bottom.
    pub fn column() -> (list: Self)
        ensures
            list.direction == Axis::Vertical,
            list.children@.len() == 0,
            list.gap == F64(0),
            list.requests@.len() == 0,
    {
        Self::for_axis(Axis::Vertical)
    }

    /// Sets the gap, a finite value not below zero.
    pub fn gap(self, gap: F64) -> (list: Self)
        requires
            valid_gap(gap),
        ensures
            list == (List { gap, ..self }),
    {
        List { gap, ..self }
    }

    /// Adds a child widget at the end.
    pub fn with_child(self, child: W) -> (list: Self)
        ensures
            list.children@ == self.children@.push(WidgetPod { id: None, widget: child }),
            list.direction == self.direction,
            list.gap == self.gap,
            list.requests == self.requests,
    {
        self.with_child_pod(WidgetPod::new(child))
    }

    /// Adds a child pod at the end.
    pub fn with_child_pod(self, child: WidgetPod<W>) -> (list: Self)
        ensures
            list.children@ == self.children@.push(child),
            list.direction == self.direction,
            list.gap == self.gap,
            list.requests == self.requests,
    {
        let mut list = self;
        list.children.push(child);
        list
    }

    /// Returns the number of children.
    pub fn len(&self) -> (n: usize)
        ensures
            n == self.children@.len(),
    {
        self.children.len()
    }

    /// Returns `true` if there are no children.
    pub fn is_empty(&self) -> (empty: bool)
        ensures
            empty == (self.children@.len() == 0),
    {
        self.children.len() == 0
    }

    /// Sets the direction. Requests a new layout.
    pub fn set_direction(this: &mut Self, direction: Axis)
        ensures
            final(this).direction == direction,
            final(this).children == old(this).children,
            final(this).gap == old(this).gap,
            final(this).requests@ == old(this).requests@.push(Request::Layout),
    {
        this.direction = direction;
        this.requests.push(Request::Layout);
    }

    /// Sets the gap, a finite value not below zero. Requests a new layout.
    pub fn set_gap(this: &mut Self, gap: F64)
        requires
            valid_gap(gap),
        ensures
            final(this).gap == gap,
            final(this).direction == old(this).direction,
            final(this).children == old(this).children,
            final(this).requests@ == old(this).requests@.push(Request::Layout),
    {
        this.gap = gap;
        this.requests.push(Request::Layout);
    }

    /// Appends a child widget. Signals a change of children.
    pub fn add_child(this: &mut Self, child: W)
        ensures
            final(this).children@ == old(this).children@.push(WidgetPod { id: None, widget: child }),
            final(this).direction == old(this).direction,
            final(this).gap == old(this).gap,
            final(this).requests@ == old(this).requests@.push(Request::ChildrenChanged),
    {
        this.children.push(WidgetPod::new(child));
        this.requests.push(Request::ChildrenChanged);
    }

    /// Inserts a child widget at `idx`, at most the number of children.
    /// Signals a change of children.
    pub fn insert_child(this: &mut Self, idx: usize, child: W)
        requires
            idx <= old(this).children@.len(),
        ensures
            final(this).children@ == old(this).children@.insert(idx as int, WidgetPod { id: None, widget: child }),
            final(this).direction == old(this).direction,
            final(this).gap == old(this).gap,
            final(this).requests@ == old(this).requests@.push(Request::ChildrenChanged),
    {
        Self::insert_child_pod(this, idx, WidgetPod::new(child));
    }

    /// Inserts a child pod at `idx`, at most the number of children.
    /// Signals a change of children.
    pub fn insert_child_pod(this: &mut Self, idx: usize, child: WidgetPod<W>)
        requires
            idx <= old(this).children@.len(),
        ensures
            final(this).children@ == old(this).children@.insert(idx as int, child),
            final(this).direction == old(this).direction,
            final(this).gap == old(this).gap,
            final(this).requests@ == old(this).requests@.push(Request::ChildrenChanged),
    {
        this.children.insert(idx, child);
        this.requests.push(Request::ChildrenChanged);
    }

    /// Removes the child at `idx` from the list and from the tree, then
    /// requests a new layout.
    pub fn remove_child(this: &mut Self, idx: usize)
        requires
            idx < old(this).children@.len(),
        ensures
            final(this).children@ == old(this).children@.remove(idx as int),
            final(this).direction == old(this).direction,
            final(this).gap == old(this).gap,
            final(this).requests@ == old(this).requests@.push(Request::RemoveChild).push(Request::Layout),
    {
        let _child = this.children.remove(idx);
        this.requests.push(Request::RemoveChild);
        this.requests.push(Request::Layout);
    }

    /// Returns the child widget at `idx`.
    pub fn child_mut(this: &mut Self, idx: usize) -> (child: &mut W)
        requires
            idx < old(this).children@.len(),
        ensures
            *child == old(this).children@[idx as int].widget,
            final(this).children@ == old(this).children@.update(
                idx as int,
                WidgetPod { id: old(this).children@[idx as int].id, widget: *final(child) },
            ),
            final(this).direction == old(this).direction,
            final(this).gap == old(this).gap,
            final(this).requests == old(this).requests,
    {
        &mut this.children[idx].widget
    }

    /// Removes all children: requests a new layout, then removes each child
    /// from the tree. An empty list is left as it is.
    pub fn clear(this: &mut Self)
        ensures
            final(this).children@.len() == 0,
            final(this).direction == old(this).direction,
            final(this).gap == old(this).gap,
            final(this).requests@ == if old(this).children@.len() == 0 {
                old(this).requests@
            } else {
                old(this).requests@.push(Request::Layout)
                    + Seq::new(old(this).children@.len(), |i: int| Request::RemoveChild)
            },
    {
        if this.children.len() == 0 {
            return;
        }
        this.requests.push(Request::Layout);
        let ghost r0 = this.requests@;
        let n = this.children.len();
        let mut k: usize = 0;
        while this.children.len() > 0
            invariant
                k + this.children@.len() == n,
                this.direction == old(this).direction,
                this.gap == old(this).gap,
                this.requests@ == r0 + Seq::new(k as nat, |i: int| Request::RemoveChild),
            decreases this.children.len(),
        {
            let _child = this.children.remove(0);
            this.requests.push(Request::RemoveChild);
            k += 1;
            assert(this.requests@ =~= r0 + Seq::new(k as nat, |i: int| Request::RemoveChild));
        }
        assert(r0 + Seq::new(k as nat, |i: int| Request::RemoveChild)
            =~= old(this).requests@.push(Request::Layout) + Seq::new(old(this).children@.len(), |i: int| Request::RemoveChild));
    }

    /// The identifiers of the children, in order.
    pub fn children_ids(&self) -> (ids: Vec<Option<WidgetId>>)
        ensures
            ids@ == Seq::new(self.children@.len(), |i: int| self.children@[i].id),
    {
        let mut ids = Vec::new();
        let mut i: usize = 0;
        while i < self.children.len()
            invariant
                i <= self.children@.len(),
                ids@ == Seq::new(i as nat, |k: int| self.children@[k].id),
            decreases self.children.len() - i,
        {
            ids.push(self.children[i].id);
            i += 1;
            assert(ids@ =~= Seq::new(i as nat, |k: int| self.children@[k].id));
        }
        ids
    }
}

impl<W> List<W> {
    /// The role the widget reports to accessibility.
    pub fn accessibility_role(&self) -> (role: AccessRole)
        ensures
            role == AccessRole::GenericContainer,
    {
        AccessRole::GenericContainer
    }
}

} // verus!
