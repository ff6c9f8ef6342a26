//! Button: a clickable widget hosting a single child, usually a label.

use vstd::prelude::*;
use crate::label::Label;
use crate::widget::{AccessRole, 
    AccessAction, BackgroundChoice, EventCtx, KeyEvent, MouseButton, PaintState, PointerInput, Request,
    UpdateEvent, WidgetId, WidgetPod, background_choice, background_for, is_space_or_enter,
    key_is_space_or_enter, repaints_on,
};

verus! {

/// A button with a single child.
pub struct Button<W> {
    pub child: WidgetPod<W>,
    pub requests: Vec<Request>,
}

/// The action of a pressed button: the pointer button that released it,
/// or `None` for a keyboard or accessibility press.
#[derive(PartialEq, Debug)]
pub struct ButtonPress {
    pub button: Option<MouseButton>,
}

/// Which border color a button paints.
#[derive(Debug, PartialEq, Eq, Clone, Copy, Structural)]
pub enum ButtonBorder {
    /// White, while the button has the focus.
    FocusWhite,
    /// The hovered border color property.
    Hovered,
    /// The ordinary border color property.
    Normal,
}

/// What a button paints: its background and its border.
#[derive(Debug, PartialEq, Eq, Clone, Copy, Structural)]
pub struct ButtonPaint {
    pub background: BackgroundChoice,
    pub border: ButtonBorder,
}

impl<W> Button<W> {
    /// Creates a new button with the provided child.
    pub fn new(child: WidgetPod<W>) -> (button: Self)
        ensures
            button.child == child,
            button.requests@.len() == 0,
    {
        Button { child, requests: Vec::new() }
    }

    /// Returns the child widget.
    pub fn child_mut(this: &mut Self) -> (child: &mut W)
        ensures
            *child == old(this).child.widget,
            final(this).child.widget == *final(child),
            final(this).child.id == old(this).child.id,
            final(this).requests == old(this).requests,
    {
        &mut this.child.widget
    }

    /// Pointer handling: a press captures the pointer; a release over the
    /// button that holds the capture submits the press with the released
    /// pointer button. Both repaint the button.
    pub fn on_pointer_event(&mut self, ctx: &mut EventCtx<ButtonPress>, event: PointerInput)
        ensures
            final(self).child == old(self).child,
            final(ctx).is_active == old(ctx).is_active,
            final(ctx).is_hovered == old(ctx).is_hovered,
            final(ctx).handled == old(ctx).handled,
            match event {
                PointerInput::Down => {
                    &&& final(ctx).pointer_captured
                    &&& final(ctx).actions == old(ctx).actions
                    &&& final(self).requests@ == old(self).requests@.push(Request::PaintOnly)
                },
                PointerInput::Up(button) => {
                    &&& final(ctx).pointer_captured == old(ctx).pointer_captured
                    &&& final(ctx).actions@ == if old(ctx).is_active && old(ctx).is_hovered {
                        old(ctx).actions@.push(ButtonPress { button })
                    } else {
                        old(ctx).actions@
                    }
                    &&& final(self).requests@ == old(self).requests@.push(Request::PaintOnly)
                },
                PointerInput::Other => {
                    &&& final(ctx).pointer_captured == old(ctx).pointer_captured
                    &&& final(ctx).actions == old(ctx).actions
                    &&& final(self).requests == old(self).requests
                },
            },
    {
        match event {
            PointerInput::Down => {
                ctx.capture_pointer();
                self.requests.push(Request::PaintOnly);
            },
            PointerInput::Up(button) => {
                if ctx.is_active && ctx.is_hovered {
                    ctx.submit_action(ButtonPress { button });
                }
                self.requests.push(Request::PaintOnly);
            },
            PointerInput::Other => {},
        }
    }

    /// Keyboard handling: releasing space or Enter submits a press.
    pub fn on_text_event(&mut self, ctx: &mut EventCtx<ButtonPress>, event: &KeyEvent)
        ensures
            final(self).child == old(self).child,
            final(self).requests == old(self).requests,
            final(ctx).pointer_captured == old(ctx).pointer_captured,
            final(ctx).handled == old(ctx).handled,
            final(ctx).actions@ == if event.is_up && is_space_or_enter(event.key) {
                old(ctx).actions@.push(ButtonPress { button: None })
            } else {
                old(ctx).actions@
            },
    {
        if event.is_up && key_is_space_or_enter(&event.key) {
            ctx.submit_action(ButtonPress { button: None });
        }
    }

    /// Accessibility handling: a click submits a press.
    pub fn on_access_event(&mut self, ctx: &mut EventCtx<ButtonPress>, action: AccessAction)
        ensures
            final(self).child == old(self).child,
            final(self).requests == old(self).requests,
            final(ctx).pointer_captured == old(ctx).pointer_captured,
            final(ctx).handled == old(ctx).handled,
            final(ctx).actions@ == if action == AccessAction::Click {
                old(ctx).actions@.push(ButtonPress { button: None })
            } else {
                old(ctx).actions@
            },
    {
        if action == AccessAction::Click {
            ctx.submit_action(ButtonPress { button: None });
        }
    }

    /// Hover, active, focus and disabled changes repaint the button.
    pub fn update(&mut self, event: UpdateEvent)
        ensures
            final(self).child == old(self).child,
            final(self).requests@ == if repaints_on(event) {
                old(self).requests@.push(Request::PaintOnly)
            } else {
                old(self).requests@
            },
    {
        match event {
            UpdateEvent::HoveredChanged(_)
            | UpdateEvent::ActiveChanged(_)
            | UpdateEvent::FocusChanged(_)
            | UpdateEvent::DisabledChanged(_) => self.requests.push(Request::PaintOnly),
            _ => {},
        }
    }

    /// What the button paints in the given situation: the background by
    /// [`background_for`]; a white border while focused, else the hovered
    /// border when hovered.
    pub fn paint_plan(&self, state: PaintState) -> (plan: ButtonPaint)
        ensures
            plan.background == background_for(state),
            plan.border == if state.is_focus_target {
                ButtonBorder::FocusWhite
            } else if state.is_hovered {
                ButtonBorder::Hovered
            } else {
                ButtonBorder::Normal
            },
    {
        let border = if state.is_focus_target {
            ButtonBorder::FocusWhite
        } else if state.is_hovered {
            ButtonBorder::Hovered
        } else {
            ButtonBorder::Normal
        };
        ButtonPaint { background: background_choice(state), border }
    }

    /// Buttons can be focused with the Tab key.
    pub fn accepts_focus(&self) -> (accepts: bool)
        ensures
            accepts,
    {
        true
    }

    /// Buttons take no text input.
    pub fn accepts_text_input(&self) -> (accepts: bool)
        ensures
            !accepts,
    {
        false
    }

    /// The identifier of the child.
    pub fn children_ids(&self) -> (ids: Vec<Option<WidgetId>>)
        ensures
            ids@ == seq![self.child.id],
    {
        let mut ids = Vec::new();
        ids.push(self.child.id);
        ids
    }
}

impl Button<Label> {
    /// Creates a new button with a text label.
    pub fn with_text(text: &str) -> (button: Self)
        ensures
            button.child.id.is_none(),
            button.child.widget.text@ == text@,
            button.child.widget.wf(),
            button.child.widget.styles.props@ == Label::new_styles(),
            button.child.widget.text_alignment == crate::label::TextAlign::Start,
            button.child.widget.hint,
            button.child.widget.requests@.len() == 0,
            button.requests@.len() == 0,
    {
        Button::new(WidgetPod::new(Label::new(text)))
    }
}

impl<W> Button<W> {
    /// The role the widget reports to accessibility.
    pub fn accessibility_role(&self) -> (role: AccessRole)
        ensures
            role == AccessRole::Button,
    {
        AccessRole::Button
    }
}

} // verus!
