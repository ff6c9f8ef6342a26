//! RadioGroup: a container holding radio buttons, of which at most one is selected.

use vstd::prelude::*;
use crate::widget::{AccessRole, Request, WidgetId, WidgetPod};

verus! {

/// A radio group container that holds radio buttons.
pub struct RadioGroup<W> {
    pub child: WidgetPod<W>,
    /// The button of the group that is currently selected, if any.
    pub selected_button: Option<WidgetId>,
    pub requests: Vec<Request>,
}

impl<W> RadioGroup<W> {
    /// Creates a new group with no selected button.
    pub fn new(child: WidgetPod<W>) -> (group: Self)
        ensures
            group.child == child,
            group.selected_button.is_none(),
            group.requests@.len() == 0,
    {
        RadioGroup { child, selected_button: None, requests: Vec::new() }
    }

    /// Returns the child widget.
    pub fn child_mut(this: &mut Self) -> (child: &mut W)
        ensures
            *child == old(this).child.widget,
            final(this).child.widget == *final(child),
            final(this).child.id == old(this).child.id,
            final(this).selected_button == old(this).selected_button,
            final(this).requests == old(this).requests,
    {
        &mut this.child.widget
    }

    /// The identifier of the child.
    pub fn children_ids(&self) -> (ids: Vec<Option<WidgetId>>)
        ensures
            ids@ == seq![self.child.id],
    {
        let mut ids = Vec::new();
        ids.push(self.child.id);
        ids
    }
}

impl<W> RadioGroup<W> {
    /// The role the widget reports to accessibility.
    pub fn accessibility_role(&self) -> (role: AccessRole)
        ensures
            role == AccessRole::RadioGroup,
    {
        AccessRole::RadioGroup
    }
}

} // verus!
