//! Checkbox: a box that can be checked, with a text label.

use vstd::prelude::*;
use vstd::string::StringExecFns;
use crate::label::{text_set, Label, TextAlign};
use crate::widget::{AccessRole, 
    background_choice, background_for, is_space, key_is_space, repaints_on, AccessAction,
    BackgroundChoice, EventCtx, KeyEvent, PaintState, PointerInput, Request, UpdateEvent, WidgetId,
    WidgetPod,
};

verus! {

/// A checkbox that can be toggled.
///
/// The checked state does not toggle by itself: the checkbox emits
/// [`CheckboxToggled`] with the state it would like to take, and the owner
/// answers with [`Checkbox::set_checked`].
pub struct Checkbox {
    pub checked: bool,
    pub label: WidgetPod<Label>,
    pub requests: Vec<Request>,
}

/// The action emitted by a checkbox when it is activated: the state it
/// would like to take (`true`: "this checkbox would like to become checked").
#[derive(Debug, PartialEq, Eq, Clone, Copy, Structural)]
pub struct CheckboxToggled(pub bool);

/// Which border color property a checkbox paints.
#[derive(Debug, PartialEq, Eq, Clone, Copy, Structural)]
pub enum CheckboxBorder {
    Focused,
    Hovered,
    Normal,
}

/// Which checkmark color property a checked checkbox paints.
#[derive(Debug, PartialEq, Eq, Clone, Copy, Structural)]
pub enum CheckmarkChoice {
    Disabled,
    Normal,
}

/// What a checkbox paints: its box's background and border, the checkmark
/// when checked, and a focus ring around the whole widget.
#[derive(Debug, PartialEq, Eq, Clone, Copy, Structural)]
pub struct CheckboxPaint {
    pub background: BackgroundChoice,
    pub border: CheckboxBorder,
    pub checkmark: Option<CheckmarkChoice>,
    pub focus_ring: bool,
}

impl Checkbox {
    /// Creates a new checkbox with a text label.
    pub fn new(checked: bool, text: &str) -> (checkbox: Self)
        ensures
            checkbox.checked == checked,
            checkbox.label.id.is_none(),
            checkbox.label.widget.text@ == text@,
            checkbox.label.widget.wf(),
            checkbox.label.widget.styles.props@ == Label::new_styles(),
            checkbox.label.widget.text_alignment == TextAlign::Start,
            checkbox.label.widget.hint,
            checkbox.label.widget.requests@.len() == 0,
            checkbox.requests@.len() == 0,
    {
        Checkbox { checked, label: WidgetPod::new(Label::new(text)), requests: Vec::new() }
    }

    /// Creates a new checkbox with the given label.
    pub fn from_label(checked: bool, label: WidgetPod<Label>) -> (checkbox: Self)
        ensures
            checkbox.checked == checked,
            checkbox.label == label,
            checkbox.requests@.len() == 0,
    {
        Checkbox { checked, label, requests: Vec::new() }
    }

    /// Checks or unchecks the box. Requests a repaint with accessibility update.
    pub fn set_checked(this: &mut Self, checked: bool)
        ensures
            final(this).checked == checked,
            final(this).label == old(this).label,
            final(this).requests@ == old(this).requests@.push(Request::Render),
    {
        this.checked = checked;
        this.requests.push(Request::Render);
    }

    /// Sets the text of the label.
    pub fn set_text(this: &mut Self, new_text: &str)
        ensures
            final(this).checked == old(this).checked,
            final(this).label.id == old(this).label.id,
            text_set(old(this).label.widget, final(this).label.widget, new_text@),
            final(this).requests == old(this).requests,
    {
        Label::set_text(Self::label_mut(this), new_text);
    }

    /// Returns the label.
    pub fn label_mut(this: &mut Self) -> (label: &mut Label)
        ensures
            *label == old(this).label.widget,
            final(this).label.widget == *final(label),
            final(this).label.id == old(this).label.id,
            final(this).checked == old(this).checked,
            final(this).requests == old(this).requests,
    {
        &mut this.label.widget
    }

    /// Pointer handling: a press captures the pointer; a release over the
    /// checkbox that holds the capture asks for the other state.
    pub fn on_pointer_event(&mut self, ctx: &mut EventCtx<CheckboxToggled>, event: PointerInput)
        ensures
            *final(self) == *old(self),
            final(ctx).handled == old(ctx).handled,
            final(ctx).pointer_captured == (old(ctx).pointer_captured || event is Down),
            final(ctx).actions@ == if event is Up && old(ctx).is_active && old(ctx).is_hovered {
                old(ctx).actions@.push(CheckboxToggled(!old(self).checked))
            } else {
                old(ctx).actions@
            },
    {
        match event {
            PointerInput::Down => {
                ctx.capture_pointer();
            },
            PointerInput::Up(_) => {
                if ctx.is_active && ctx.is_hovered {
                    ctx.submit_action(CheckboxToggled(!self.checked));
                }
            },
            PointerInput::Other => {},
        }
    }

    /// Keyboard handling: releasing the space bar asks for the other state.
    pub fn on_text_event(&mut self, ctx: &mut EventCtx<CheckboxToggled>, event: &KeyEvent)
        ensures
            *final(self) == *old(self),
            final(ctx).handled == old(ctx).handled,
            final(ctx).pointer_captured == old(ctx).pointer_captured,
            final(ctx).actions@ == if event.is_up && is_space(event.key) {
                old(ctx).actions@.push(CheckboxToggled(!old(self).checked))
            } else {
                old(ctx).actions@
            },
    {
        if event.is_up && key_is_space(&event.key) {
            ctx.submit_action(CheckboxToggled(!self.checked));
        }
    }

    /// Accessibility handling: a click asks for the other state.
    pub fn on_access_event(&mut self, ctx: &mut EventCtx<CheckboxToggled>, action: AccessAction)
        ensures
            *final(self) == *old(self),
            final(ctx).handled == old(ctx).handled,
            final(ctx).pointer_captured == old(ctx).pointer_captured,
            final(ctx).actions@ == if action == AccessAction::Click {
                old(ctx).actions@.push(CheckboxToggled(!old(self).checked))
            } else {
                old(ctx).actions@
            },
    {
        if action == AccessAction::Click {
            ctx.submit_action(CheckboxToggled(!self.checked));
        }
    }

    /// Checkboxes can be focused with the Tab key.
    pub fn accepts_focus(&self) -> (accepts: bool)
        ensures
            accepts,
    {
        true
    }

    /// Hover, active, focus and disabled changes repaint the checkbox.
    pub fn update(&mut self, event: UpdateEvent)
        ensures
            final(self).checked == old(self).checked,
            final(self).label == old(self).label,
            final(self).requests@ == if repaints_on(event) {
                old(self).requests@.push(Request::PaintOnly)
            } else {
                old(self).requests@
            },
    {
        match event {
            UpdateEvent::HoveredChanged(_)
            | UpdateEvent::ActiveChanged(_)
            | UpdateEvent::FocusChanged(_)
            | UpdateEvent::DisabledChanged(_) => self.requests.push(Request::PaintOnly),
            _ => {},
        }
    }

    /// What the checkbox paints in the given situation: the background by
    /// [`background_for`]; the focused border when focused, else the hovered
    /// one when hovered; the checkmark when checked, in its disabled color
    /// when disabled; and a focus ring when focused or hovered.
    pub fn paint_plan(&self, state: PaintState) -> (plan: CheckboxPaint)
        ensures
            plan.background == background_for(state),
            plan.border == if state.is_focus_target {
                CheckboxBorder::Focused
            } else if state.is_hovered {
                CheckboxBorder::Hovered
            } else {
                CheckboxBorder::Normal
            },
            plan.checkmark == if !self.checked {
                None
            } else if state.is_disabled {
                Some(CheckmarkChoice::Disabled)
            } else {
                Some(CheckmarkChoice::Normal)
            },
            plan.focus_ring == (state.is_focus_target || state.is_hovered),
    {
        let border = if state.is_focus_target {
            CheckboxBorder::Focused
        } else if state.is_hovered {
            CheckboxBorder::Hovered
        } else {
            CheckboxBorder::Normal
        };
        let checkmark = if !self.checked {
            None
        } else if state.is_disabled {
            Some(CheckmarkChoice::Disabled)
        } else {
            Some(CheckmarkChoice::Normal)
        };
        CheckboxPaint {
            background: background_choice(state),
            border,
            checkmark,
            focus_ring: state.is_focus_target || state.is_hovered,
        }
    }

    /// The identifier of the label.
    pub fn children_ids(&self) -> (ids: Vec<Option<WidgetId>>)
        ensures
            ids@ == seq![self.label.id],
    {
        let mut ids = Vec::new();
        ids.push(self.label.id);
        ids
    }

    /// The text shown in debugging output: `[X]` when checked, `[ ]` otherwise.
    pub fn get_debug_text(&self) -> (text: Option<String>)
        ensures
            text is Some,
            text->0@ == if self.checked { seq!['[', 'X', ']'] } else { seq!['[', ' ', ']'] },
    {
        proof {
            reveal_strlit("[X]");
            reveal_strlit("[ ]");
        }
        if self.checked {
            Some(String::from_str("[X]"))
        } else {
            Some(String::from_str("[ ]"))
        }
    }
}

impl Checkbox {
    /// The role the widget reports to accessibility.
    pub fn accessibility_role(&self) -> (role: AccessRole)
        ensures
            role == AccessRole::CheckBox,
    {
        AccessRole::CheckBox
    }
}

} // verus!
