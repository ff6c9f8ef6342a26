//! Stack: a container laying out its children one after the other in a row
//! or a column, with a gap between two of them and an optional cross-axis
//! alignment for each child.

use vstd::prelude::*;
use crate::flex::{CrossAxisAlignment, MainAxisAlignment};
use crate::list::valid_gap;
use crate::widget::{AccessRole, Axis, Request, WidgetId, WidgetPod, F64};

verus! {

/// A child of a stack: a widget, and its own cross-axis alignment, which
/// overrides the stack's when it is set.
pub struct StackChild<W> {
    pub widget: WidgetPod<W>,
    pub alignment: Option<CrossAxisAlignment>,
}

/// A container with either horizontal or vertical layout.
pub struct Stack<W> {
    pub direction: Axis,
    pub cross_alignment: CrossAxisAlignment,
    pub main_alignment: MainAxisAlignment,
    pub children: Vec<StackChild<W>>,
    /// The spacing between two children along the main axis, in logical
    /// pixels; `None` stands for the theme's default gap, which layout reads.
    pub gap: Option<F64>,
    pub requests: Vec<Request>,
}

/// The child holding `widget` with the alignment `alignment`.
pub open spec fn stack_child<W>(widget: WidgetPod<W>, alignment: Option<CrossAxisAlignment>) -> StackChild<W> {
    StackChild { widget, alignment }
}

/// The alignment in effect for a child: its own, or else the stack's.
pub open spec fn alignment_in_effect(own: Option<CrossAxisAlignment>, stack: CrossAxisAlignment) -> CrossAxisAlignment {
    match own {
        Some(a) => a,
        None => stack,
    }
}

/// The identifiers of the children's widgets, in order.
pub open spec fn child_ids<W>(children: Seq<StackChild<W>>) -> Seq<Option<WidgetId>> {
    Seq::new(children.len(), |i: int| children[i].widget.id)
}

/// The stack's fields other than its children and requests are those of `other`.
pub open spec fn same_settings<W>(a: Stack<W>, b: Stack<W>) -> bool {
    &&& a.direction == b.direction
    &&& a.cross_alignment == b.cross_alignment
    &&& a.main_alignment == b.main_alignment
    &&& a.gap == b.gap
}

impl<W> Stack<W> {
    /// Creates a new stack oriented along the given axis, centering its
    /// children across it, packing them at the start, with the theme's
    /// default gap.
    pub fn for_axis(axis: Axis) -> (stack: Self)
        ensures
            stack.direction == axis,
            stack.cross_alignment == CrossAxisAlignment::Center,
            stack.main_alignment == MainAxisAlignment::Start,
            stack.children@.len() == 0,
            stack.gap.is_none(),
            stack.requests@.len() == 0,
    {
        Stack {
            direction: axis,
            cross_alignment: CrossAxisAlignment::Center,
            main_alignment: MainAxisAlignment::Start,
            children: Vec::new(),
            gap: None,
            requests: Vec::new(),
        }
    }

    /// Creates a new horizontal stack: children from left to right.
    pub fn row() -> (stack: Self)
        ensures
            stack.direction == Axis::Horizontal,
            stack.cross_alignment == CrossAxisAlignment::Center,
            stack.main_alignment == MainAxisAlignment::Start,
            stack.children@.len() == 0,
            stack.gap.is_none(),
            stack.requests@.len() == 0,
    {
        Self::for_axis(Axis::Horizontal)
    }

    /// Creates a new vertical stack: children from top to bottom.
    pub fn column() -> (stack: Self)
        ensures
            stack.direction == Axis::Vertical,
            stack.cross_alignment == CrossAxisAlignment::Center,
            stack.main_alignment == MainAxisAlignment::Start,
            stack.children@.len() == 0,
            stack.gap.is_none(),
            stack.requests@.len() == 0,
    {
        Self::for_axis(Axis::Vertical)
    }

    /// Sets the children's cross-axis alignment.
    pub fn cross_axis_alignment(self, alignment: CrossAxisAlignment) -> (stack: Self)
        ensures
            stack == (Stack { cross_alignment: alignment, ..self }),
    {
        Stack { cross_alignment: alignment, ..self }
    }

    /// Sets the children's main-axis alignment.
    pub fn main_axis_alignment(self, alignment: MainAxisAlignment) -> (stack: Self)
        ensures
            stack == (Stack { main_alignment: alignment, ..self }),
    {
        Stack { main_alignment: alignment, ..self }
    }

    /// Sets the gap, a finite value not below zero.
    pub fn with_gap(self, gap: F64) -> (stack: Self)
        requires
            valid_gap(gap),
        ensures
            stack == (Stack { gap: Some(gap), ..self }),
    {
        Stack { gap: Some(gap), ..self }
    }

    /// Adds a child with an optional alignment of its own.
    pub fn with_child(self, child: WidgetPod<W>, alignment: Option<CrossAxisAlignment>) -> (stack: Self)
        ensures
            stack.children@ == self.children@.push(stack_child(child, alignment)),
            same_settings(stack, self),
            stack.requests == self.requests,
    {
        let mut stack = self;
        stack.children.push(StackChild { widget: child, alignment });
        stack
    }

    /// Returns the number of children.
    pub fn len(&self) -> (n: usize)
        ensures
            n == self.children@.len(),
    {
        self.children.len()
    }

    /// Returns `true` if there are no children.
    pub fn is_empty(&self) -> (empty: bool)
        ensures
            empty == (self.children@.len() == 0),
    {
        self.children.len() == 0
    }

    /// Sets the direction. Requests a new layout.
    pub fn set_direction(this: &mut Self, direction: Axis)
        ensures
            *final(this) == (Stack { direction, requests: final(this).requests, ..*old(this) }),
            final(this).requests@ == old(this).requests@.push(Request::Layout),
    {
        this.direction = direction;
        this.requests.push(Request::Layout);
    }

    /// Sets the children's cross-axis alignment. Requests a new layout.
    pub fn set_cross_axis_alignment(this: &mut Self, alignment: CrossAxisAlignment)
        ensures
            *final(this) == (Stack { cross_alignment: alignment, requests: final(this).requests, ..*old(this) }),
            final(this).requests@ == old(this).requests@.push(Request::Layout),
    {
        this.cross_alignment = alignment;
        this.requests.push(Request::Layout);
    }

    /// Sets the children's main-axis alignment. Requests a new layout.
    pub fn set_main_axis_alignment(this: &mut Self, alignment: MainAxisAlignment)
        ensures
            *final(this) == (Stack { main_alignment: alignment, requests: final(this).requests, ..*old(this) }),
            final(this).requests@ == old(this).requests@.push(Request::Layout),
    {
        this.main_alignment = alignment;
        this.requests.push(Request::Layout);
    }

    /// Sets the gap, a finite value not below zero. Requests a new layout.
    pub fn set_gap(this: &mut Self, gap: F64)
        requires
            valid_gap(gap),
        ensures
            *final(this) == (Stack { gap: Some(gap), requests: final(this).requests, ..*old(this) }),
            final(this).requests@ == old(this).requests@.push(Request::Layout),
    {
        this.gap = Some(gap);
        this.requests.push(Request::Layout);
    }

    /// Appends a child with an optional alignment of its own. Signals a
    /// change of children.
    pub fn add_child(this: &mut Self, child: WidgetPod<W>, alignment: Option<CrossAxisAlignment>)
        ensures
            final(this).children@ == old(this).children@.push(stack_child(child, alignment)),
            same_settings(*final(this), *old(this)),
            final(this).requests@ == old(this).requests@.push(Request::ChildrenChanged),
    {
        this.children.push(StackChild { widget: child, alignment });
        this.requests.push(Request::ChildrenChanged);
    }

    /// Inserts a child at `idx`, at most the number of children. Signals a
    /// change of children.
    pub fn insert_child(this: &mut Self, idx: usize, child: WidgetPod<W>, alignment: Option<CrossAxisAlignment>)
        requires
            idx <= old(this).children@.len(),
        ensures
            final(this).children@ == old(this).children@.insert(idx as int, stack_child(child, alignment)),
            same_settings(*final(this), *old(this)),
            final(this).requests@ == old(this).requests@.push(Request::ChildrenChanged),
    {
        this.children.insert(idx, StackChild { widget: child, alignment });
        this.requests.push(Request::ChildrenChanged);
    }

    /// Removes the child at `idx` from the stack and from the tree, then
    /// requests a new layout.
    pub fn remove_child(this: &mut Self, idx: usize)
        requires
            idx < old(this).children@.len(),
        ensures
            final(this).children@ == old(this).children@.remove(idx as int),
            same_settings(*final(this), *old(this)),
            final(this).requests@ == old(this).requests@.push(Request::RemoveChild).push(Request::Layout),
    {
        let _child = this.children.remove(idx);
        this.requests.push(Request::RemoveChild);
        this.requests.push(Request::Layout);
    }

    /// Returns the widget of the child at `idx`.
    pub fn child_mut(this: &mut Self, idx: usize) -> (child: &mut W)
        requires
            idx < old(this).children@.len(),
        ensures
            *child == old(this).children@[idx as int].widget.widget,
            final(this).children@ == old(this).children@.update(
                idx as int,
                StackChild {
                    widget: WidgetPod { id: old(this).children@[idx as int].widget.id, widget: *final(child) },
                    alignment: old(this).children@[idx as int].alignment,
                },
            ),
            same_settings(*final(this), *old(this)),
            final(this).requests == old(this).requests,
    {
        &mut this.children[idx].widget.widget
    }

    /// Sets the alignment of the child at `idx`. Requests a new layout.
    pub fn update_child_alignment(this: &mut Self, idx: usize, alignment: Option<CrossAxisAlignment>)
        requires
            idx < old(this).children@.len(),
        ensures
            final(this).children@ == old(this).children@.update(
                idx as int,
                stack_child(old(this).children@[idx as int].widget, alignment),
            ),
            same_settings(*final(this), *old(this)),
            final(this).requests@ == old(this).requests@.push(Request::Layout),
    {
        let old_child = this.children.remove(idx);
        this.children.insert(idx, StackChild { widget: old_child.widget, alignment });
        this.requests.push(Request::Layout);
    }

    /// Removes all children: requests a new layout, then removes each child
    /// from the tree. An empty stack is left as it is.
    pub fn clear(this: &mut Self)
        ensures
            final(this).children@.len() == 0,
            same_settings(*final(this), *old(this)),
            final(this).requests@ == if old(this).children@.len() == 0 {
                old(this).requests@
            } else {
                old(this).requests@.push(Request::Layout)
                    + Seq::new(old(this).children@.len(), |i: int| Request::RemoveChild)
            },
    {
        if this.children.len() == 0 {
            return;
        }
        this.requests.push(Request::Layout);
        let ghost r0 = this.requests@;
        let n = this.children.len();
        let mut k: usize = 0;
        while this.children.len() > 0
            invariant
                k + this.children@.len() == n,
                this.direction == old(this).direction,
                this.cross_alignment == old(this).cross_alignment,
                this.main_alignment == old(this).main_alignment,
                this.gap == old(this).gap,
                this.requests@ == r0 + Seq::new(k as nat, |i: int| Request::RemoveChild),
            decreases this.children.len(),
        {
            let _child = this.children.remove(0);
            this.requests.push(Request::RemoveChild);
            k += 1;
            assert(this.requests@ =~= r0 + Seq::new(k as nat, |i: int| Request::RemoveChild));
        }
        assert(r0 + Seq::new(k as nat, |i: int| Request::RemoveChild)
            =~= old(this).requests@.push(Request::Layout) + Seq::new(old(this).children@.len(), |i: int| Request::RemoveChild));
    }

    /// The cross-axis alignment in effect for the child at `idx`: its own,
    /// or else the stack's.
    pub fn child_alignment(&self, idx: usize) -> (alignment: CrossAxisAlignment)
        requires
            idx < self.children@.len(),
        ensures
            alignment == alignment_in_effect(self.children@[idx as int].alignment, self.cross_alignment),
    {
        match self.children[idx].alignment {
            Some(a) => a,
            None => self.cross_alignment,
        }
    }

    /// The number of gaps laid out between the children: one less than the
    /// number of children, and none for an empty stack.
    pub fn gap_count(&self) -> (n: usize)
        ensures
            n == if self.children@.len() == 0 { 0 } else { self.children@.len() - 1 },
    {
        if self.children.len() == 0 { 0 } else { self.children.len() - 1 }
    }

    /// The identifiers of the children's widgets, in order.
    pub fn children_ids(&self) -> (ids: Vec<Option<WidgetId>>)
        ensures
            ids@ == child_ids(self.children@),
    {
        let mut ids = Vec::new();
        let mut i: usize = 0;
        while i < self.children.len()
            invariant
                i <= self.children@.len(),
                ids@ == child_ids(self.children@.take(i as int)),
            decreases self.children.len() - i,
        {
            ids.push(self.children[i].widget.id);
            i += 1;
            assert(ids@ =~= child_ids(self.children@.take(i as int)));
        }
        assert(self.children@.take(i as int) =~= self.children@);
        ids
    }
}

/// Removing the child that was just inserted at an index gives back the
/// children as they were before the insertion.
pub proof fn law_remove_undoes_insert<W>(
    before: Seq<StackChild<W>>,
    idx: int,
    child: WidgetPod<W>,
    alignment: Option<CrossAxisAlignment>,
)
    requires
        0 <= idx <= before.len(),
    ensures
        before.insert(idx, stack_child(child, alignment)).remove(idx) == before,
{
    assert(before.insert(idx, stack_child(child, alignment)).remove(idx) =~= before);
}

impl<W> Stack<W> {
    /// The role the widget reports to accessibility.
    pub fn accessibility_role(&self) -> (role: AccessRole)
        ensures
            role == AccessRole::GenericContainer,
    {
        AccessRole::GenericContainer
    }
}

} // verus!
