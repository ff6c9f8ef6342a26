//! Passthrough: a container hosting one child that can be replaced.

use vstd::prelude::*;
use crate::widget::{AccessRole, Request, WidgetId, WidgetPod};

verus! {

/// A pass-through container that hosts exactly one child, which may be replaced dynamically.
/// It adds no layout or chrome of its own.
pub struct Passthrough<W> {
    pub inner: WidgetPod<W>,
    pub requests: Vec<Request>,
}

impl<W> Passthrough<W> {
    /// Creates a new `Passthrough` with the given child.
    pub fn new(child: WidgetPod<W>) -> (host: Self)
        ensures
            host.inner == child,
            host.requests@.len() == 0,
    {
        Passthrough { inner: child, requests: Vec::new() }
    }

    /// Returns the identifier of the hosted child.
    pub fn inner_id(&self) -> (id: Option<WidgetId>)
        ensures
            id == self.inner.id,
    {
        self.inner.id
    }

    /// Replaces the child; the old one is removed from the tree.
    pub fn set_child(this: &mut Self, child: WidgetPod<W>)
        ensures
            final(this).inner == child,
            final(this).requests@ == old(this).requests@.push(Request::RemoveChild),
    {
        this.inner = child;
        this.requests.push(Request::RemoveChild);
    }

    /// Returns the hosted child.
    pub fn child_mut(this: &mut Self) -> (child: &mut W)
        ensures
            *child == old(this).inner.widget,
            final(this).inner.widget == *final(child),
            final(this).inner.id == old(this).inner.id,
            final(this).requests == old(this).requests,
    {
        &mut this.inner.widget
    }

    /// The identifier of the hosted child.
    pub fn children_ids(&self) -> (ids: Vec<Option<WidgetId>>)
        ensures
            ids@ == seq![self.inner.id],
    {
        let mut ids = Vec::new();
        ids.push(self.inner.id);
        ids
    }
}

impl<W> Passthrough<W> {
    /// The role the widget reports to accessibility.
    pub fn accessibility_role(&self) -> (role: AccessRole)
        ensures
            role == AccessRole::GenericContainer,
    {
        AccessRole::GenericContainer
    }
}

} // verus!
