//! DisclosureButton: a triangle pointing right when undisclosed and down when disclosed.

use vstd::prelude::*;
use crate::widget::{AccessRole, 
    is_space_or_enter, key_is_space_or_enter, AccessAction, EventCtx, KeyEvent, PointerInput,
    Request, UpdateEvent,
};

verus! {

/// A triangle button that points towards the right when undisclosed and
/// towards the bottom when disclosed. It switches its own state when
/// activated, and emits no action.
pub struct DisclosureButton {
    pub is_disclosed: bool,
    pub requests: Vec<Request>,
}

impl DisclosureButton {
    /// Creates a new button with an initial disclosed state.
    pub fn new(is_disclosed: bool) -> (button: Self)
        ensures
            button.is_disclosed == is_disclosed,
            button.requests@.len() == 0,
    {
        DisclosureButton { is_disclosed, requests: Vec::new() }
    }

    /// Returns the disclosed state of the button.
    pub fn is_disclosed(&self) -> (disclosed: bool)
        ensures
            disclosed == self.is_disclosed,
    {
        self.is_disclosed
    }

    /// Changes the disclosed state of the button. Requests a new layout.
    pub fn set_disclosed(this: &mut Self, is_disclosed: bool)
        ensures
            final(this).is_disclosed == is_disclosed,
            final(this).requests@ == old(this).requests@.push(Request::Layout),
    {
        this.is_disclosed = is_disclosed;
        this.requests.push(Request::Layout);
    }

    /// Switches the disclosed state and requests a new layout.
    pub fn switch_disclosed_state(&mut self)
        ensures
            final(self).is_disclosed == !old(self).is_disclosed,
            final(self).requests@ == old(self).requests@.push(Request::Layout),
    {
        self.is_disclosed = !self.is_disclosed;
        self.requests.push(Request::Layout);
    }

    /// Pointer handling: a press of the enabled button captures the pointer
    /// and repaints it; a release over the enabled button that holds the
    /// capture switches the state.
    pub fn on_pointer_event(&mut self, ctx: &mut EventCtx<()>, event: PointerInput)
        ensures
            final(ctx).actions == old(ctx).actions,
            final(ctx).handled == old(ctx).handled,
            match event {
                PointerInput::Down => {
                    &&& final(ctx).pointer_captured == (old(ctx).pointer_captured || !old(ctx).is_disabled)
                    &&& final(self).is_disclosed == old(self).is_disclosed
                    &&& final(self).requests@ == if old(ctx).is_disabled {
                        old(self).requests@
                    } else {
                        old(self).requests@.push(Request::Render)
                    }
                },
                PointerInput::Up(_) => {
                    &&& final(ctx).pointer_captured == old(ctx).pointer_captured
                    &&& if old(ctx).is_active && old(ctx).is_hovered && !old(ctx).is_disabled {
                        &&& final(self).is_disclosed == !old(self).is_disclosed
                        &&& final(self).requests@ == old(self).requests@.push(Request::Layout)
                    } else {
                        *final(self) == *old(self)
                    }
                },
                PointerInput::Other => {
                    &&& final(ctx).pointer_captured == old(ctx).pointer_captured
                    &&& *final(self) == *old(self)
                },
            },
    {
        match event {
            PointerInput::Down => {
                if !ctx.is_disabled {
                    ctx.capture_pointer();
                    self.requests.push(Request::Render);
                }
            },
            PointerInput::Up(_) => {
                if ctx.is_active && ctx.is_hovered && !ctx.is_disabled {
                    self.switch_disclosed_state();
                }
            },
            PointerInput::Other => {},
        }
    }

    /// Keyboard handling: releasing space or Enter switches the state.
    pub fn on_text_event(&mut self, ctx: &mut EventCtx<()>, event: &KeyEvent)
        ensures
            *final(ctx) == *old(ctx),
            if event.is_up && is_space_or_enter(event.key) {
                &&& final(self).is_disclosed == !old(self).is_disclosed
                &&& final(self).requests@ == old(self).requests@.push(Request::Layout)
            } else {
                *final(self) == *old(self)
            },
    {
        if event.is_up && key_is_space_or_enter(&event.key) {
            self.switch_disclosed_state();
        }
    }

    /// Accessibility handling: a click aimed at the button itself switches the state.
    pub fn on_access_event(&mut self, ctx: &mut EventCtx<()>, action: AccessAction)
        ensures
            *final(ctx) == *old(ctx),
            if old(ctx).is_target && action == AccessAction::Click {
                &&& final(self).is_disclosed == !old(self).is_disclosed
                &&& final(self).requests@ == old(self).requests@.push(Request::Layout)
            } else {
                *final(self) == *old(self)
            },
    {
        if ctx.is_target && action == AccessAction::Click {
            self.switch_disclosed_state();
        }
    }

    /// Hover and focus changes repaint the button with accessibility update.
    pub fn update(&mut self, event: UpdateEvent)
        ensures
            final(self).is_disclosed == old(self).is_disclosed,
            final(self).requests@ == if event is HoveredChanged || event is FocusChanged {
                old(self).requests@.push(Request::Render)
            } else {
                old(self).requests@
            },
    {
        match event {
            UpdateEvent::HoveredChanged(_) | UpdateEvent::FocusChanged(_) => {
                self.requests.push(Request::Render);
            },
            _ => {},
        }
    }

    /// What the button paints: the arrow, rotated to point down when
    /// disclosed, and a focus ring while it has the focus.
    pub fn paint_plan(&self, is_focus_target: bool) -> (plan: (bool, bool))
        ensures
            plan == (self.is_disclosed, is_focus_target),
    {
        (self.is_disclosed, is_focus_target)
    }

    /// Disclosure buttons can be focused with the Tab key.
    pub fn accepts_focus(&self) -> (accepts: bool)
        ensures
            accepts,
    {
        true
    }
}

/// Switching the disclosed state twice in a row gives back the state the
/// button had: `before` is the state before the first switch, `between`
/// after it, `after` after the second one.
pub proof fn law_switch_twice_restores(before: bool, between: bool, after: bool)
    requires
        between == !before,
        after == !between,
    ensures
        after == before,
{
}

impl DisclosureButton {
    /// The role the widget reports to accessibility.
    pub fn accessibility_role(&self) -> (role: AccessRole)
        ensures
            role == AccessRole::DisclosureTriangle,
    {
        AccessRole::DisclosureTriangle
    }
}

} // verus!
