//! CollapsePanel: a panel with a header (a disclosure button and a label)
//! whose content can be collapsed.

use vstd::prelude::*;
use crate::disclosure_button::DisclosureButton;
use crate::label::{text_set, Label, TextAlign};
use crate::widget::{AccessRole, Request, WidgetId, WidgetPod};

verus! {

/// A collapsible panel with a header that contains a child widget.
///
/// The panel is collapsed when its disclosure button is not disclosed; the
/// child is then stashed (neither laid out nor painted).
pub struct CollapsePanel<W> {
    pub disclosure_button: WidgetPod<DisclosureButton>,
    pub header_label: WidgetPod<Label>,
    pub child: WidgetPod<W>,
    pub requests: Vec<Request>,
}

/// The panel is collapsed: its disclosure button is not disclosed.
pub open spec fn is_collapsed<W>(panel: CollapsePanel<W>) -> bool {
    !panel.disclosure_button.widget.is_disclosed
}

/// The disclosure button of a new panel, disclosed when not collapsed.
fn disclosure_button(collapse: bool) -> (button: WidgetPod<DisclosureButton>)
    ensures
        button.id.is_none(),
        button.widget.is_disclosed == !collapse,
        button.widget.requests@.len() == 0,
{
    WidgetPod::new(DisclosureButton::new(!collapse))
}

impl<W> CollapsePanel<W> {
    /// Creates a new panel with a header text and a child widget.
    pub fn new(collapse: bool, header_text: &str, child: WidgetPod<W>) -> (panel: Self)
        ensures
            is_collapsed(panel) == collapse,
            panel.disclosure_button.id.is_none(),
            panel.disclosure_button.widget.requests@.len() == 0,
            panel.header_label.id.is_none(),
            panel.header_label.widget.text@ == header_text@,
            panel.header_label.widget.wf(),
            panel.header_label.widget.styles.props@ == Label::new_styles(),
            panel.header_label.widget.text_alignment == TextAlign::Start,
            panel.header_label.widget.hint,
            panel.header_label.widget.requests@.len() == 0,
            panel.child == child,
            panel.requests@.len() == 0,
    {
        CollapsePanel {
            disclosure_button: disclosure_button(collapse),
            header_label: WidgetPod::new(Label::new(header_text)),
            child,
            requests: Vec::new(),
        }
    }

    /// Creates a new panel with a header label and a child widget.
    pub fn from_label(collapse: bool, header_label: WidgetPod<Label>, child: WidgetPod<W>) -> (panel: Self)
        ensures
            is_collapsed(panel) == collapse,
            panel.disclosure_button.id.is_none(),
            panel.disclosure_button.widget.requests@.len() == 0,
            panel.header_label == header_label,
            panel.child == child,
            panel.requests@.len() == 0,
    {
        CollapsePanel {
            disclosure_button: disclosure_button(collapse),
            header_label,
            child,
            requests: Vec::new(),
        }
    }

    /// Replaces the child; the old one is removed from the tree.
    pub fn set_child(this: &mut Self, child: WidgetPod<W>)
        ensures
            final(this).child == child,
            final(this).disclosure_button == old(this).disclosure_button,
            final(this).header_label == old(this).header_label,
            final(this).requests@ == old(this).requests@.push(Request::RemoveChild),
    {
        this.child = child;
        this.requests.push(Request::RemoveChild);
    }

    /// Sets whether the panel is collapsed. Requests a new layout of the
    /// disclosure button and of the panel.
    pub fn set_collapsed(this: &mut Self, collapsed: bool)
        ensures
            is_collapsed(*final(this)) == collapsed,
            final(this).disclosure_button.id == old(this).disclosure_button.id,
            final(this).disclosure_button.widget.requests@
                == old(this).disclosure_button.widget.requests@.push(Request::Layout),
            final(this).header_label == old(this).header_label,
            final(this).child == old(this).child,
            final(this).requests@ == old(this).requests@.push(Request::Layout),
    {
        DisclosureButton::set_disclosed(Self::disclosure_button_mut(this), !collapsed);
        this.requests.push(Request::Layout);
    }

    /// Sets the text of the header label.
    pub fn set_text(this: &mut Self, new_text: &str)
        ensures
            final(this).disclosure_button == old(this).disclosure_button,
            final(this).header_label.id == old(this).header_label.id,
            text_set(old(this).header_label.widget, final(this).header_label.widget, new_text@),
            final(this).child == old(this).child,
            final(this).requests == old(this).requests,
    {
        Label::set_text(Self::header_label_mut(this), new_text);
    }

    /// Returns the disclosure button.
    pub fn disclosure_button_mut(this: &mut Self) -> (button: &mut DisclosureButton)
        ensures
            *button == old(this).disclosure_button.widget,
            final(this).disclosure_button.widget == *final(button),
            final(this).disclosure_button.id == old(this).disclosure_button.id,
            final(this).header_label == old(this).header_label,
            final(this).child == old(this).child,
            final(this).requests == old(this).requests,
    {
        &mut this.disclosure_button.widget
    }

    /// Returns the header label.
    pub fn header_label_mut(this: &mut Self) -> (label: &mut Label)
        ensures
            *label == old(this).header_label.widget,
            final(this).header_label.widget == *final(label),
            final(this).header_label.id == old(this).header_label.id,
            final(this).disclosure_button == old(this).disclosure_button,
            final(this).child == old(this).child,
            final(this).requests == old(this).requests,
    {
        &mut this.header_label.widget
    }

    /// Returns the child.
    pub fn child_mut(this: &mut Self) -> (child: &mut W)
        ensures
            *child == old(this).child.widget,
            final(this).child.widget == *final(child),
            final(this).child.id == old(this).child.id,
            final(this).disclosure_button == old(this).disclosure_button,
            final(this).header_label == old(this).header_label,
            final(this).requests == old(this).requests,
    {
        &mut this.child.widget
    }

    /// Whether the child is stashed at layout: exactly when the panel is collapsed.
    pub fn child_stashed(&self) -> (stashed: bool)
        ensures
            stashed == is_collapsed(*self),
    {
        !self.disclosure_button.widget.is_disclosed()
    }

    /// The identifiers of the disclosure button, the header label and the child.
    pub fn children_ids(&self) -> (ids: Vec<Option<WidgetId>>)
        ensures
            ids@ == seq![self.disclosure_button.id, self.header_label.id, self.child.id],
    {
        let mut ids = Vec::new();
        ids.push(self.disclosure_button.id);
        ids.push(self.header_label.id);
        ids.push(self.child.id);
        ids
    }
}

impl<W> CollapsePanel<W> {
    /// The role the widget reports to accessibility.
    pub fn accessibility_role(&self) -> (role: AccessRole)
        ensures
            role == AccessRole::GenericContainer,
    {
        AccessRole::GenericContainer
    }
}

} // verus!
