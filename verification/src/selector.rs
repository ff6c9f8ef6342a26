//! Selector: shows the selected option of a list, and opens a menu of all
//! options when activated (a "combo box").

use vstd::prelude::*;
use crate::label::{text_set, Label, TextAlign};
use crate::widget::{AccessRole, 
    is_space_or_enter, key_is_space_or_enter, repaints_on, AccessAction, EventCtx, KeyEvent,
    PointerInput, Request, UpdateEvent, WidgetId, WidgetPod,
};

verus! {

/// A selector which displays a list of options when you click it.
pub struct Selector {
    pub options: Vec<String>,
    pub selected_option: usize,
    /// The label showing the selected option.
    pub child: WidgetPod<Label>,
    /// The menu layer showing the options, while it is open.
    pub menu_layer_id: Option<WidgetId>,
    pub requests: Vec<Request>,
}

/// An option of a selector was picked.
#[derive(PartialEq, Debug)]
pub struct SelectionChanged {
    /// The content of the picked option.
    pub selected_content: String,
    /// The index of the picked option.
    pub index: usize,
}

/// What a selector asks of the framework when it is activated: remove the
/// open menu layer, or create one listing the options.
pub enum MenuLayerAction {
    Remove(WidgetId),
    Create { options: Vec<String>, selected_option: usize },
}

/// The action of activating a selector whose menu layer is `menu`: removing
/// the open menu, or creating one for `options` with `selected` selected.
pub open spec fn toggle_action(menu: Option<WidgetId>, options: Seq<String>, selected: usize, action: MenuLayerAction) -> bool {
    match menu {
        Some(id) => action == MenuLayerAction::Remove(id),
        None => match action {
            MenuLayerAction::Create { options: o, selected_option } => o@ == options && selected_option == selected,
            _ => false,
        },
    }
}

impl Selector {
    /// The selector has an option, and the selected one is one of them.
    pub open spec fn wf(&self) -> bool {
        self.options@.len() > 0 && self.selected_option < self.options@.len()
    }

    /// Creates a new selector with a non-empty list of options, showing the
    /// first one.
    pub fn new(options: Vec<String>) -> (sel: Self)
        requires
            options@.len() > 0,
        ensures
            sel.wf(),
            sel.options@ == options@,
            sel.selected_option == 0,
            sel.child.id.is_none(),
            sel.child.widget.text@ == sel.options@[0]@,
            sel.child.widget.wf(),
            sel.child.widget.styles.props@ == Label::new_styles(),
            sel.child.widget.text_alignment == TextAlign::Start,
            sel.child.widget.hint,
            sel.child.widget.requests@.len() == 0,
            sel.menu_layer_id.is_none(),
            sel.requests@.len() == 0,
    {
        let label = Label::new(options[0].as_str());
        Selector {
            options,
            selected_option: 0,
            child: WidgetPod::new(label),
            menu_layer_id: None,
            requests: Vec::new(),
        }
    }

    /// Sets the initially selected option, one of the options. The label is
    /// left as it is.
    pub fn with_selected_option(self, selected_option: usize) -> (sel: Self)
        requires
            selected_option < self.options@.len(),
        ensures
            sel == (Selector { selected_option, ..self }),
            self.wf() ==> sel.wf(),
    {
        Selector { selected_option, ..self }
    }

    /// Replaces the list of options with a non-empty one, and selects the
    /// first one.
    pub fn set_options(this: &mut Self, options: Vec<String>)
        requires
            options@.len() > 0,
        ensures
            final(this).wf(),
            final(this).options@ == options@,
            final(this).selected_option == 0,
            final(this).child.id == old(this).child.id,
            text_set(old(this).child.widget, final(this).child.widget, final(this).options@[0]@),
            final(this).menu_layer_id == old(this).menu_layer_id,
            final(this).requests == old(this).requests,
    {
        this.options = options;
        Self::select_option(this, 0);
    }

    /// Selects the given option, one of the options, and shows it.
    pub fn select_option(this: &mut Self, selected_option: usize)
        requires
            selected_option < old(this).options@.len(),
        ensures
            final(this).wf(),
            final(this).selected_option == selected_option,
            final(this).options == old(this).options,
            final(this).child.id == old(this).child.id,
            text_set(
                old(this).child.widget,
                final(this).child.widget,
                old(this).options@[selected_option as int]@,
            ),
            final(this).menu_layer_id == old(this).menu_layer_id,
            final(this).requests == old(this).requests,
    {
        this.selected_option = selected_option;
        let option = this.options[selected_option].clone();
        Label::set_text(Self::child_mut(this), option.as_str());
    }

    /// Returns the label showing the selected option.
    pub fn child_mut(this: &mut Self) -> (child: &mut Label)
        ensures
            *child == old(this).child.widget,
            final(this).child.widget == *final(child),
            final(this).child.id == old(this).child.id,
            final(this).options == old(this).options,
            final(this).selected_option == old(this).selected_option,
            final(this).menu_layer_id == old(this).menu_layer_id,
            final(this).requests == old(this).requests,
    {
        &mut this.child.widget
    }

    /// Removes the open menu layer, or asks for one listing the options.
    fn toggle_selector_layer(&mut self) -> (action: MenuLayerAction)
        ensures
            toggle_action(old(self).menu_layer_id, old(self).options@, old(self).selected_option, action),
            final(self).menu_layer_id.is_none(),
            final(self).options == old(self).options,
            final(self).selected_option == old(self).selected_option,
            final(self).child == old(self).child,
            final(self).requests == old(self).requests,
    {
        match self.menu_layer_id {
            Some(id) => {
                self.menu_layer_id = None;
                MenuLayerAction::Remove(id)
            },
            None => {
                let options = self.options.clone();
                assert(options@ == self.options@) by {
                    assert forall|i: int| 0 <= i < options@.len() implies options@[i] == self.options@[i] by {
                        assert(cloned::<String>(self.options@[i], options@[i]));
                    }
                    assert(options@ =~= self.options@);
                }
                MenuLayerAction::Create { options, selected_option: self.selected_option }
            },
        }
    }

    /// Pointer handling: a press captures the pointer while no menu is open;
    /// a release over the selector that holds the capture opens or closes the menu.
    pub fn on_pointer_event(&mut self, ctx: &mut EventCtx<SelectionChanged>, event: PointerInput) -> (action: Option<MenuLayerAction>)
        ensures
            final(ctx).actions == old(ctx).actions,
            final(ctx).handled == old(ctx).handled,
            final(ctx).pointer_captured == (old(ctx).pointer_captured
                || (event is Down && old(self).menu_layer_id.is_none())),
            final(self).options == old(self).options,
            final(self).selected_option == old(self).selected_option,
            final(self).child == old(self).child,
            final(self).requests == old(self).requests,
            if event is Up && old(ctx).is_active && old(ctx).is_hovered {
                &&& action is Some
                &&& toggle_action(old(self).menu_layer_id, old(self).options@, old(self).selected_option, action->0)
                &&& final(self).menu_layer_id.is_none()
            } else {
                &&& action.is_none()
                &&& final(self).menu_layer_id == old(self).menu_layer_id
            },
    {
        match event {
            PointerInput::Down => {
                if self.menu_layer_id.is_none() {
                    ctx.capture_pointer();
                }
                None
            },
            PointerInput::Up(_) => {
                if ctx.is_active && ctx.is_hovered {
                    Some(self.toggle_selector_layer())
                } else {
                    None
                }
            },
            PointerInput::Other => None,
        }
    }

    /// Keyboard handling: releasing space or Enter opens or closes the menu.
    pub fn on_text_event(&mut self, ctx: &mut EventCtx<SelectionChanged>, event: &KeyEvent) -> (action: Option<MenuLayerAction>)
        ensures
            *final(ctx) == *old(ctx),
            final(self).options == old(self).options,
            final(self).selected_option == old(self).selected_option,
            final(self).child == old(self).child,
            final(self).requests == old(self).requests,
            if event.is_up && is_space_or_enter(event.key) {
                &&& action is Some
                &&& toggle_action(old(self).menu_layer_id, old(self).options@, old(self).selected_option, action->0)
                &&& final(self).menu_layer_id.is_none()
            } else {
                &&& action.is_none()
                &&& final(self).menu_layer_id == old(self).menu_layer_id
            },
    {
        if event.is_up && key_is_space_or_enter(&event.key) {
            Some(self.toggle_selector_layer())
        } else {
            None
        }
    }

    /// Accessibility handling: a click opens or closes the menu.
    pub fn on_access_event(&mut self, ctx: &mut EventCtx<SelectionChanged>, action: AccessAction) -> (layer: Option<MenuLayerAction>)
        ensures
            *final(ctx) == *old(ctx),
            final(self).options == old(self).options,
            final(self).selected_option == old(self).selected_option,
            final(self).child == old(self).child,
            final(self).requests == old(self).requests,
            if action == AccessAction::Click {
                &&& layer is Some
                &&& toggle_action(old(self).menu_layer_id, old(self).options@, old(self).selected_option, layer->0)
                &&& final(self).menu_layer_id.is_none()
            } else {
                &&& layer.is_none()
                &&& final(self).menu_layer_id == old(self).menu_layer_id
            },
    {
        if action == AccessAction::Click {
            Some(self.toggle_selector_layer())
        } else {
            None
        }
    }

    /// Hover, active, focus and disabled changes repaint the selector.
    pub fn update(&mut self, event: UpdateEvent)
        ensures
            final(self).options == old(self).options,
            final(self).selected_option == old(self).selected_option,
            final(self).child == old(self).child,
            final(self).menu_layer_id == old(self).menu_layer_id,
            final(self).requests@ == if repaints_on(event) {
                old(self).requests@.push(Request::PaintOnly)
            } else {
                old(self).requests@
            },
    {
        match event {
            UpdateEvent::HoveredChanged(_)
            | UpdateEvent::ActiveChanged(_)
            | UpdateEvent::FocusChanged(_)
            | UpdateEvent::DisabledChanged(_) => self.requests.push(Request::PaintOnly),
            _ => {},
        }
    }

    /// Selectors can be focused with the Tab key.
    pub fn accepts_focus(&self) -> (accepts: bool)
        ensures
            accepts,
    {
        true
    }

    /// Selectors take no text input.
    pub fn accepts_text_input(&self) -> (accepts: bool)
        ensures
            !accepts,
    {
        false
    }

    /// The identifier of the label.
    pub fn children_ids(&self) -> (ids: Vec<Option<WidgetId>>)
        ensures
            ids@ == seq![self.child.id],
    {
        let mut ids = Vec::new();
        ids.push(self.child.id);
        ids
    }
}

impl Selector {
    /// The role the widget reports to accessibility.
    pub fn accessibility_role(&self) -> (role: AccessRole)
        ensures
            role == AccessRole::ComboBox,
    {
        AccessRole::ComboBox
    }
}

} // verus!
