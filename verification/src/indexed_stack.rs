//! IndexedStack: a container displaying only one of its children at a time.

use vstd::prelude::*;
use crate::widget::{AccessRole, Request, WidgetId, WidgetPod};

verus! {

/// A widget that displays only one of its children at a time.
pub struct IndexedStack<W> {
    pub children: Vec<WidgetPod<W>>,
    /// The index of the displayed child; `0` when there are no children.
    pub active_child: usize,
    pub requests: Vec<Request>,
}

/// `idx` may be the active child of a stack of `len` children:
/// a valid index, or `0` when there are no children.
pub open spec fn valid_active(idx: usize, len: nat) -> bool {
    if len == 0 { idx == 0 } else { idx < len }
}

impl<W> IndexedStack<W> {
    /// The active child is a valid index, or `0` when there are no children.
    pub open spec fn wf(&self) -> bool {
        valid_active(self.active_child, self.children@.len())
    }

    /// Creates a new stack with no children.
    pub fn new() -> (stack: Self)
        ensures
            stack.wf(),
            stack.children@.len() == 0,
            stack.active_child == 0,
            stack.requests@.len() == 0,
    {
        IndexedStack { children: Vec::new(), active_child: 0, requests: Vec::new() }
    }

    /// Adds a child widget at the end.
    pub fn with(self, child: WidgetPod<W>) -> (stack: Self)
        ensures
            stack.children@ == self.children@.push(child),
            stack.active_child == self.active_child,
            stack.requests == self.requests,
            self.wf() ==> stack.wf(),
    {
        let mut stack = self;
        stack.children.push(child);
        stack
    }

    /// Sets the active child, which must be a valid index, or 0 if there are no children.
    pub fn with_active_child(self, idx: usize) -> (stack: Self)
        requires
            valid_active(idx, self.children@.len()),
        ensures
            stack == (IndexedStack { active_child: idx, ..self }),
            stack.wf(),
    {
        IndexedStack { active_child: idx, ..self }
    }

    /// Returns the index of the currently active child.
    pub fn active_child(&self) -> (idx: usize)
        ensures
            idx == self.active_child,
    {
        self.active_child
    }

    /// Sets the active child, which must be a valid index, or 0 if there are no children.
    /// Requests a new layout.
    pub fn set_active_child(this: &mut Self, idx: usize)
        requires
            valid_active(idx, old(this).children@.len()),
        ensures
            final(this).wf(),
            final(this).active_child == idx,
            final(this).children == old(this).children,
            final(this).requests@ == old(this).requests@.push(Request::Layout),
    {
        this.active_child = idx;
        this.requests.push(Request::Layout);
    }

    /// Returns the number of children.
    pub fn len(&self) -> (n: usize)
        ensures
            n == self.children@.len(),
    {
        self.children.len()
    }

    /// Returns `true` if there are no children.
    pub fn is_empty(&self) -> (empty: bool)
        ensures
            empty == (self.children@.len() == 0),
    {
        self.children.len() == 0
    }

    /// Returns the child widget at the given index.
    pub fn get_mut(this: &mut Self, idx: usize) -> (child: &mut W)
        requires
            idx < old(this).children@.len(),
        ensures
            *child == old(this).children@[idx as int].widget,
            final(this).children@.len() == old(this).children@.len(),
            final(this).children@[idx as int].widget == *final(child),
            final(this).children@[idx as int].id == old(this).children@[idx as int].id,
            forall|j: int| 0 <= j < old(this).children@.len() && j != idx ==>
                final(this).children@[j] == old(this).children@[j],
            final(this).active_child == old(this).active_child,
            final(this).requests == old(this).requests,
    {
        &mut this.children[idx].widget
    }

    /// Appends a child widget; the active child stays the same. Signals a change of children.
    pub fn add(this: &mut Self, child: WidgetPod<W>)
        ensures
            final(this).children@ == old(this).children@.push(child),
            final(this).active_child == old(this).active_child,
            final(this).requests@ == old(this).requests@.push(Request::ChildrenChanged),
            old(this).wf() ==> final(this).wf(),
    {
        this.children.push(child);
        this.requests.push(Request::ChildrenChanged);
    }

    /// Inserts a child widget at the given index. In a non-empty stack the
    /// active index moves up when the child is inserted at or before it, so
    /// that the same child stays active; in an empty stack it stays `0`, the
    /// new and only child. Signals a change of children.
    pub fn insert(this: &mut Self, idx: usize, child: WidgetPod<W>)
        requires
            idx <= old(this).children@.len(),
            old(this).active_child < usize::MAX,
        ensures
            final(this).children@ == old(this).children@.insert(idx as int, child),
            final(this).active_child == if old(this).children@.len() == 0 {
                old(this).active_child
            } else if old(this).active_child >= idx {
                (old(this).active_child + 1) as usize
            } else {
                old(this).active_child
            },
            final(this).requests@ == old(this).requests@.push(Request::ChildrenChanged),
            old(this).wf() ==> final(this).wf(),
            old(this).wf() && old(this).children@.len() > 0 ==>
                final(this).children@[final(this).active_child as int] == old(this).children@[old(this).active_child as int],
    {
        let was_empty = this.children.len() == 0;
        this.children.insert(idx, child);
        if !was_empty && this.active_child >= idx {
            this.active_child += 1;
        }
        this.requests.push(Request::ChildrenChanged);
    }

    /// Replaces the child widget at the given index; the old one is removed from the tree.
    pub fn set(this: &mut Self, idx: usize, child: WidgetPod<W>)
        requires
            idx < old(this).children@.len(),
        ensures
            final(this).children@ == old(this).children@.update(idx as int, child),
            final(this).active_child == old(this).active_child,
            final(this).requests@ == old(this).requests@.push(Request::RemoveChild),
            old(this).wf() ==> final(this).wf(),
    {
        let _old_child = this.children.remove(idx);
        this.children.insert(idx, child);
        this.requests.push(Request::RemoveChild);
    }

    /// Not applicable: a stack's children have no parameters.
    pub fn set_params(this: &mut Self, idx: usize)
        ensures
            *final(this) == *old(this),
    {
    }

    /// Swaps the index of two children; the active index is kept. Signals a change of children.
    pub fn swap(this: &mut Self, a: usize, b: usize)
        requires
            a < old(this).children@.len(),
            b < old(this).children@.len(),
        ensures
            final(this).children@ == old(this).children@
                .update(a as int, old(this).children@[b as int])
                .update(b as int, old(this).children@[a as int]),
            final(this).active_child == old(this).active_child,
            final(this).requests@ == old(this).requests@.push(Request::ChildrenChanged),
            old(this).wf() ==> final(this).wf(),
    {
        if a != b {
            let (lo, hi) = if a < b { (a, b) } else { (b, a) };
            let child_hi = this.children.remove(hi);
            let child_lo = this.children.remove(lo);
            this.children.insert(lo, child_hi);
            this.children.insert(hi, child_lo);
        }
        this.requests.push(Request::ChildrenChanged);
    }

    /// Removes the child at the given index from the tree. If the active child is
    /// removed, the first child becomes active; otherwise the same child stays active.
    pub fn remove(this: &mut Self, idx: usize)
        requires
            idx < old(this).children@.len(),
        ensures
            final(this).children@ == old(this).children@.remove(idx as int),
            final(this).active_child == if idx == old(this).active_child {
                0
            } else if old(this).active_child > idx {
                (old(this).active_child - 1) as usize
            } else {
                old(this).active_child
            },
            final(this).requests@ == old(this).requests@.push(Request::RemoveChild),
            old(this).wf() ==> final(this).wf(),
            old(this).wf() && idx != old(this).active_child ==>
                final(this).children@[final(this).active_child as int] == old(this).children@[old(this).active_child as int],
    {
        let _child = this.children.remove(idx);
        if idx == this.active_child {
            this.active_child = 0;
        } else if this.active_child > idx {
            this.active_child -= 1;
        }
        this.requests.push(Request::RemoveChild);
    }

    /// Removes all children from the tree; the active index returns to `0`.
    pub fn clear(this: &mut Self)
        ensures
            final(this).wf(),
            final(this).children@.len() == 0,
            final(this).active_child == 0,
            final(this).requests@ == old(this).requests@ + Seq::new(old(this).children@.len(), |i: int| Request::RemoveChild),
    {
        let ghost r0 = this.requests@;
        let ghost n = this.children@.len();
        while this.children.len() > 0
            invariant
                this.children@.len() <= n,
                this.requests@ == r0 + Seq::new((n - this.children@.len()) as nat, |i: int| Request::RemoveChild),
            decreases this.children.len(),
        {
            let _child = this.children.remove(0);
            this.requests.push(Request::RemoveChild);
            assert(this.requests@ =~= r0 + Seq::new((n - this.children@.len()) as nat, |i: int| Request::RemoveChild));
        }
        assert(this.requests@ =~= r0 + Seq::new(n, |i: int| Request::RemoveChild));
        this.active_child = 0;
    }

    /// Which children are stashed at layout: all but the active one.
    pub fn stashed_children(&self) -> (stashed: Vec<bool>)
        ensures
            stashed@.len() == self.children@.len(),
            forall|i: int| 0 <= i < stashed@.len() ==> stashed@[i] == (i != self.active_child),
    {
        let mut stashed = Vec::new();
        let mut i: usize = 0;
        while i < self.children.len()
            invariant
                i <= self.children@.len(),
                stashed@.len() == i,
                forall|j: int| 0 <= j < i ==> stashed@[j] == (j != self.active_child),
            decreases self.children.len() - i,
        {
            stashed.push(i != self.active_child);
            i += 1;
        }
        stashed
    }

    /// The identifiers of the children, in order.
    pub fn children_ids(&self) -> (ids: Vec<Option<WidgetId>>)
        ensures
            ids@.len() == self.children@.len(),
            forall|i: int| 0 <= i < ids@.len() ==> ids@[i] == #[trigger] self.children@[i].id,
    {
        let mut ids = Vec::new();
        let mut i: usize = 0;
        while i < self.children.len()
            invariant
                i <= self.children@.len(),
                ids@.len() == i,
                forall|j: int| 0 <= j < i ==> ids@[j] == #[trigger] self.children@[j].id,
            decreases self.children.len() - i,
        {
            ids.push(self.children[i].id);
            i += 1;
        }
        ids
    }
}

// --- MARK: LAWS

/// Inserting a child keeps the active index valid: in an empty stack the
/// new child becomes the active one at index `0`; in a non-empty stack the
/// same child stays active, wherever the new one is inserted.
pub proof fn law_insert_keeps_active_child<W>(children: Seq<WidgetPod<W>>, active: usize, idx: usize, child: WidgetPod<W>)
    requires
        valid_active(active, children.len()),
        idx <= children.len(),
    ensures
        ({
            let new_children = children.insert(idx as int, child);
            let new_active = if children.len() == 0 {
                active as int
            } else if active >= idx {
                active + 1
            } else {
                active as int
            };
            &&& 0 <= new_active < new_children.len()
            &&& children.len() == 0 ==> new_children[new_active] == child
            &&& children.len() > 0 ==> new_children[new_active] == children[active as int]
        }),
{
}

/// Removing a child other than the active one keeps the same child active.
pub proof fn law_remove_keeps_active_child<W>(children: Seq<WidgetPod<W>>, active: usize, idx: usize)
    requires
        valid_active(active, children.len()),
        idx < children.len(),
        idx != active,
    ensures
        ({
            let new_children = children.remove(idx as int);
            let new_active = if active > idx { active - 1 } else { active as int };
            &&& 0 <= new_active < new_children.len()
            &&& new_children[new_active] == children[active as int]
        }),
{
}

impl<W> IndexedStack<W> {
    /// The role the widget reports to accessibility.
    pub fn accessibility_role(&self) -> (role: AccessRole)
        ensures
            role == AccessRole::GenericContainer,
    {
        AccessRole::GenericContainer
    }
}

} // verus!
