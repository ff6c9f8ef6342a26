//! RootWidget: the widget wrapped around the rest of the tree.

use vstd::prelude::*;
use crate::widget::{AccessRole, Request, WidgetId, WidgetPod};

verus! {

/// A widget wrapped around the rest of the widget tree, reporting the window to
/// the accessibility tree and carrying the default background and padding.
pub struct RootWidget<W> {
    pub pod: WidgetPod<W>,
    pub requests: Vec<Request>,
}

impl<W> RootWidget<W> {
    /// Creates a new root widget around the given widget.
    pub fn new(widget: W) -> (root: Self)
        ensures
            root.pod.id.is_none(),
            root.pod.widget == widget,
            root.requests@.len() == 0,
    {
        RootWidget { pod: WidgetPod::new(widget), requests: Vec::new() }
    }

    /// Creates a new root widget from a child pod.
    pub fn from_pod(pod: WidgetPod<W>) -> (root: Self)
        ensures
            root.pod == pod,
            root.requests@.len() == 0,
    {
        RootWidget { pod, requests: Vec::new() }
    }

    /// Returns the hosted child.
    pub fn child_mut(this: &mut Self) -> (child: &mut W)
        ensures
            *child == old(this).pod.widget,
            final(this).pod.widget == *final(child),
            final(this).pod.id == old(this).pod.id,
            final(this).requests == old(this).requests,
    {
        &mut this.pod.widget
    }

    /// The identifier of the hosted child.
    pub fn children_ids(&self) -> (ids: Vec<Option<WidgetId>>)
        ensures
            ids@ == seq![self.pod.id],
    {
        let mut ids = Vec::new();
        ids.push(self.pod.id);
        ids
    }
}

impl<W> RootWidget<W> {
    /// The role the widget reports to accessibility.
    pub fn accessibility_role(&self) -> (role: AccessRole)
        ensures
            role == AccessRole::Window,
    {
        AccessRole::Window
    }
}

} // verus!
