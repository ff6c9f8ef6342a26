//! LayoutObserver: a container that reports changes of its child's size.

use vstd::prelude::*;
use crate::widget::{AccessRole, f64_eq, EventCtx, Request, Size, WidgetId, WidgetPod};

verus! {

/// A widget which sends a [`LayoutChanged`] whenever the size of its child changes.
pub struct LayoutObserver<W> {
    pub child: WidgetPod<W>,
    /// The size reported last; `None` until the first layout, or after a forced resend.
    pub size: Option<Size>,
    pub requests: Vec<Request>,
}

/// The action sent when the size of the observed widget has changed.
///
/// The action does not carry the new size.
#[derive(Debug, Clone, Copy, PartialEq, Eq, Structural)]
pub struct LayoutChanged;

/// A layout at `size` is reported, after `last` was: there was no report
/// yet, or the sizes compare unequal as `f64`.
pub open spec fn size_reported(last: Option<Size>, size: Size) -> bool {
    match last {
        None => true,
        Some(s) => !(f64_eq(s.width, size.width) && f64_eq(s.height, size.height)),
    }
}

impl<W> LayoutObserver<W> {
    /// Creates a new observer of the given child, which reports its first layout.
    pub fn new(child: WidgetPod<W>) -> (observer: Self)
        ensures
            observer.child == child,
            observer.size.is_none(),
            observer.requests@.len() == 0,
    {
        LayoutObserver { child, size: None, requests: Vec::new() }
    }

    /// Replaces the child; the old one is removed from the tree. The next
    /// layout is reported. Requests a new layout.
    pub fn set_child(this: &mut Self, child: WidgetPod<W>)
        ensures
            final(this).child == child,
            final(this).size.is_none(),
            final(this).requests@ == old(this).requests@
                .push(Request::RemoveChild)
                .push(Request::ChildrenChanged)
                .push(Request::Layout),
    {
        this.child = child;
        this.requests.push(Request::RemoveChild);
        this.size = None;
        this.requests.push(Request::ChildrenChanged);
        this.requests.push(Request::Layout);
    }

    /// Forces the observer to report its next layout. Requests a new layout.
    pub fn force_resend(this: &mut Self)
        ensures
            final(this).size.is_none(),
            final(this).child == old(this).child,
            final(this).requests@ == old(this).requests@.push(Request::Layout),
    {
        this.size = None;
        this.requests.push(Request::Layout);
    }

    /// Returns the child widget.
    pub fn child_mut(this: &mut Self) -> (child: &mut W)
        ensures
            *child == old(this).child.widget,
            final(this).child.widget == *final(child),
            final(this).child.id == old(this).child.id,
            final(this).size == old(this).size,
            final(this).requests == old(this).requests,
    {
        &mut this.child.widget
    }

    /// Takes the size of the child's layout: it is reported when it differs
    /// from the one reported last, and recorded.
    pub fn layout(&mut self, ctx: &mut EventCtx<LayoutChanged>, size: Size)
        ensures
            final(self).size == Some(size),
            final(self).child == old(self).child,
            final(self).requests == old(self).requests,
            final(ctx).pointer_captured == old(ctx).pointer_captured,
            final(ctx).handled == old(ctx).handled,
            final(ctx).actions@ == if size_reported(old(self).size, size) {
                old(ctx).actions@.push(LayoutChanged)
            } else {
                old(ctx).actions@
            },
    {
        let changed = match self.size {
            None => true,
            Some(s) => !s.float_eq(size),
        };
        if changed {
            ctx.submit_action(LayoutChanged);
        }
        self.size = Some(size);
    }

    /// An observer takes no part in pointer interaction.
    pub fn accepts_pointer_interaction(&self) -> (accepts: bool)
        ensures
            !accepts,
    {
        false
    }

    /// The identifier of the child.
    pub fn children_ids(&self) -> (ids: Vec<Option<WidgetId>>)
        ensures
            ids@ == seq![self.child.id],
    {
        let mut ids = Vec::new();
        ids.push(self.child.id);
        ids
    }
}

/// A second layout at the same size as the last one, with no NaN in it,
/// is not reported again.
pub proof fn law_same_size_reported_once(size: Size)
    requires
        f64_eq(size.width, size.width),
        f64_eq(size.height, size.height),
    ensures
        size_reported(None, size),
        !size_reported(Some(size), size),
{
}

impl<W> LayoutObserver<W> {
    /// The role the widget reports to accessibility.
    pub fn accessibility_role(&self) -> (role: AccessRole)
        ensures
            role == AccessRole::GenericContainer,
    {
        AccessRole::GenericContainer
    }
}

} // verus!
