//! SelectorItem: an option in the menu of a selector.

use vstd::prelude::*;
use crate::label::{Label, TextAlign};
use crate::widget::{AccessRole, repaints_on, Request, UpdateEvent, WidgetId, WidgetPod};

verus! {

/// An option in the menu of a selector.
pub struct SelectorItem {
    pub child: WidgetPod<Label>,
    pub requests: Vec<Request>,
}

impl SelectorItem {
    /// Creates a new selector item with the given text.
    pub fn new(text: String) -> (item: Self)
        ensures
            item.child.id.is_none(),
            item.child.widget.text@ == text@,
            item.child.widget.wf(),
            item.child.widget.styles.props@ == Label::new_styles(),
            item.child.widget.text_alignment == TextAlign::Start,
            item.child.widget.hint,
            item.child.widget.requests@.len() == 0,
            item.requests@.len() == 0,
    {
        SelectorItem { child: WidgetPod::new(Label::new(text.as_str())), requests: Vec::new() }
    }

    /// Returns the label of the item.
    pub fn child_mut(this: &mut Self) -> (child: &mut Label)
        ensures
            *child == old(this).child.widget,
            final(this).child.widget == *final(child),
            final(this).child.id == old(this).child.id,
            final(this).requests == old(this).requests,
    {
        &mut this.child.widget
    }

    /// Hover, active, focus and disabled changes repaint the item.
    pub fn update(&mut self, event: UpdateEvent)
        ensures
            final(self).child == old(self).child,
            final(self).requests@ == if repaints_on(event) {
                old(self).requests@.push(Request::PaintOnly)
            } else {
                old(self).requests@
            },
    {
        match event {
            UpdateEvent::HoveredChanged(_)
            | UpdateEvent::ActiveChanged(_)
            | UpdateEvent::FocusChanged(_)
            | UpdateEvent::DisabledChanged(_) => self.requests.push(Request::PaintOnly),
            _ => {},
        }
    }

    /// The identifier of the label.
    pub fn children_ids(&self) -> (ids: Vec<Option<WidgetId>>)
        ensures
            ids@ == seq![self.child.id],
    {
        let mut ids = Vec::new();
        ids.push(self.child.id);
        ids
    }
}

impl SelectorItem {
    /// The role the widget reports to accessibility.
    pub fn accessibility_role(&self) -> (role: AccessRole)
        ensures
            role == AccessRole::MenuItem,
    {
        AccessRole::MenuItem
    }
}

} // verus!
