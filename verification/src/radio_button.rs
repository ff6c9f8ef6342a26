//! RadioButton: a button of a radio group, with a text label. Selecting one
//! button of a group deselects the one selected before.
//!
//! The framework applies the changes a button makes to its group, and those
//! the group makes to another button, after the current pass; the functions
//! here return them as values for the caller to apply.

use vstd::prelude::*;
use crate::checkbox::{CheckboxBorder, CheckmarkChoice};
use crate::label::{text_set, Label, TextAlign};
use crate::radio_group::RadioGroup;
use crate::widget::{AccessRole, 
    is_space, key_is_space, repaints_on, AccessAction, EventCtx, KeyEvent, PaintState, PointerInput,
    Request, UpdateEvent, WidgetId, WidgetPod,
};

verus! {

/// A radio button with a text label.
pub struct RadioButton {
    pub selected: bool,
    pub label: WidgetPod<Label>,
    /// The group this button belongs to, known once the button was added to the tree.
    pub parent_group: Option<WidgetId>,
    pub requests: Vec<Request>,
}

/// What a radio button paints: the border of its circle, and the dot inside
/// it when selected.
#[derive(Debug, PartialEq, Eq, Clone, Copy, Structural)]
pub struct RadioButtonPaint {
    pub border: CheckboxBorder,
    pub checkmark: Option<CheckmarkChoice>,
}

/// The action emitted by a radio button when it is selected.
#[derive(Debug, PartialEq, Eq, Clone, Copy, Structural)]
pub struct RadioButtonSelected;

/// A change that a button asks of its group: button `button` became
/// selected (`selected`) or deselected.
#[derive(Debug, PartialEq, Eq, Clone, Copy, Structural)]
pub struct GroupUpdate {
    pub group: WidgetId,
    pub button: WidgetId,
    pub selected: bool,
}

/// The button a group records as selected after button `id` became
/// selected (`selected`) or deselected, when it recorded `current` before.
pub open spec fn next_selected(current: Option<WidgetId>, id: WidgetId, selected: bool) -> Option<WidgetId> {
    if selected {
        Some(id)
    } else if current == Some(id) {
        None
    } else {
        current
    }
}

/// The button that must be deselected after button `id` became selected
/// (`selected`) or deselected, when the group recorded `current` before:
/// the previously selected button, when another one is selected.
pub open spec fn to_deselect(current: Option<WidgetId>, id: WidgetId, selected: bool) -> Option<WidgetId> {
    if selected && current is Some && current->0 != id {
        current
    } else {
        None
    }
}

/// The update that button `id` asks of its group `parent`, if it has one.
pub open spec fn group_update(parent: Option<WidgetId>, id: WidgetId, selected: bool) -> Option<GroupUpdate> {
    match parent {
        Some(group) => Some(GroupUpdate { group, button: id, selected }),
        None => None,
    }
}

impl RadioButton {
    /// Creates a new radio button with a text label.
    pub fn new(checked: bool, text: &str) -> (button: Self)
        ensures
            button.selected == checked,
            button.parent_group.is_none(),
            button.label.id.is_none(),
            button.label.widget.text@ == text@,
            button.label.widget.wf(),
            button.label.widget.styles.props@ == Label::new_styles(),
            button.label.widget.text_alignment == TextAlign::Start,
            button.label.widget.hint,
            button.label.widget.requests@.len() == 0,
            button.requests@.len() == 0,
    {
        RadioButton {
            selected: checked,
            label: WidgetPod::new(Label::new(text)),
            parent_group: None,
            requests: Vec::new(),
        }
    }

    /// Creates a new radio button with the given label.
    pub fn from_label(checked: bool, label: WidgetPod<Label>) -> (button: Self)
        ensures
            button.selected == checked,
            button.parent_group.is_none(),
            button.label == label,
            button.requests@.len() == 0,
    {
        RadioButton { selected: checked, label, parent_group: None, requests: Vec::new() }
    }

    /// Selects or deselects this button (whose identifier is `self_id`).
    /// Requests a repaint with accessibility update, and returns the update
    /// to apply to the group the button belongs to.
    pub fn set_checked(this: &mut Self, self_id: WidgetId, checked: bool) -> (update: Option<GroupUpdate>)
        ensures
            final(this).selected == checked,
            final(this).label == old(this).label,
            final(this).parent_group == old(this).parent_group,
            final(this).requests@ == old(this).requests@.push(Request::Render),
            update == group_update(old(this).parent_group, self_id, checked),
    {
        this.selected = checked;
        this.requests.push(Request::Render);
        match this.parent_group {
            Some(group) => Some(GroupUpdate { group, button: self_id, selected: checked }),
            None => None,
        }
    }

    /// Sets the text of the label.
    pub fn set_text(this: &mut Self, new_text: &str)
        ensures
            final(this).selected == old(this).selected,
            final(this).parent_group == old(this).parent_group,
            final(this).label.id == old(this).label.id,
            text_set(old(this).label.widget, final(this).label.widget, new_text@),
            final(this).requests == old(this).requests,
    {
        Label::set_text(Self::label_mut(this), new_text);
    }

    /// Returns the label.
    pub fn label_mut(this: &mut Self) -> (label: &mut Label)
        ensures
            *label == old(this).label.widget,
            final(this).label.widget == *final(label),
            final(this).label.id == old(this).label.id,
            final(this).selected == old(this).selected,
            final(this).parent_group == old(this).parent_group,
            final(this).requests == old(this).requests,
    {
        &mut this.label.widget
    }

    /// Selects this button in answer to the user: submits the selection,
    /// requests a repaint with accessibility update, and returns the update
    /// to apply to the group.
    fn select(&mut self, ctx: &mut EventCtx<RadioButtonSelected>, self_id: WidgetId) -> (update: Option<GroupUpdate>)
        ensures
            final(self).selected,
            final(self).label == old(self).label,
            final(self).parent_group == old(self).parent_group,
            final(self).requests@ == old(self).requests@.push(Request::Render),
            final(ctx).actions@ == old(ctx).actions@.push(RadioButtonSelected),
            final(ctx).pointer_captured == old(ctx).pointer_captured,
            final(ctx).handled == old(ctx).handled,
            update == group_update(old(self).parent_group, self_id, true),
    {
        self.selected = true;
        ctx.submit_action(RadioButtonSelected);
        self.requests.push(Request::Render);
        match self.parent_group {
            Some(group) => Some(GroupUpdate { group, button: self_id, selected: true }),
            None => None,
        }
    }

    /// Pointer handling: a press captures the pointer; a release over the
    /// button that holds the capture selects it.
    pub fn on_pointer_event(
        &mut self,
        ctx: &mut EventCtx<RadioButtonSelected>,
        self_id: WidgetId,
        event: PointerInput,
    ) -> (update: Option<GroupUpdate>)
        ensures
            final(ctx).handled == old(ctx).handled,
            final(ctx).pointer_captured == (old(ctx).pointer_captured || event is Down),
            final(self).label == old(self).label,
            final(self).parent_group == old(self).parent_group,
            if event is Up && old(ctx).is_active && old(ctx).is_hovered {
                &&& final(self).selected
                &&& final(self).requests@ == old(self).requests@.push(Request::Render)
                &&& final(ctx).actions@ == old(ctx).actions@.push(RadioButtonSelected)
                &&& update == group_update(old(self).parent_group, self_id, true)
            } else {
                &&& *final(self) == *old(self)
                &&& final(ctx).actions == old(ctx).actions
                &&& update.is_none()
            },
    {
        match event {
            PointerInput::Down => {
                ctx.capture_pointer();
                None
            },
            PointerInput::Up(_) => {
                if ctx.is_active && ctx.is_hovered {
                    self.select(ctx, self_id)
                } else {
                    None
                }
            },
            PointerInput::Other => None,
        }
    }

    /// Keyboard handling: releasing the space bar selects the button.
    pub fn on_text_event(
        &mut self,
        ctx: &mut EventCtx<RadioButtonSelected>,
        self_id: WidgetId,
        event: &KeyEvent,
    ) -> (update: Option<GroupUpdate>)
        ensures
            final(ctx).handled == old(ctx).handled,
            final(ctx).pointer_captured == old(ctx).pointer_captured,
            final(self).label == old(self).label,
            final(self).parent_group == old(self).parent_group,
            if event.is_up && is_space(event.key) {
                &&& final(self).selected
                &&& final(self).requests@ == old(self).requests@.push(Request::Render)
                &&& final(ctx).actions@ == old(ctx).actions@.push(RadioButtonSelected)
                &&& update == group_update(old(self).parent_group, self_id, true)
            } else {
                &&& *final(self) == *old(self)
                &&& final(ctx).actions == old(ctx).actions
                &&& update.is_none()
            },
    {
        if event.is_up && key_is_space(&event.key) {
            self.select(ctx, self_id)
        } else {
            None
        }
    }

    /// Accessibility handling: a click selects the button.
    pub fn on_access_event(
        &mut self,
        ctx: &mut EventCtx<RadioButtonSelected>,
        self_id: WidgetId,
        action: AccessAction,
    ) -> (update: Option<GroupUpdate>)
        ensures
            final(ctx).handled == old(ctx).handled,
            final(ctx).pointer_captured == old(ctx).pointer_captured,
            final(self).label == old(self).label,
            final(self).parent_group == old(self).parent_group,
            if action == AccessAction::Click {
                &&& final(self).selected
                &&& final(self).requests@ == old(self).requests@.push(Request::Render)
                &&& final(ctx).actions@ == old(ctx).actions@.push(RadioButtonSelected)
                &&& update == group_update(old(self).parent_group, self_id, true)
            } else {
                &&& *final(self) == *old(self)
                &&& final(ctx).actions == old(ctx).actions
                &&& update.is_none()
            },
    {
        if action == AccessAction::Click {
            self.select(ctx, self_id)
        } else {
            None
        }
    }

    /// What the button paints in the given situation: the focused border
    /// color when it has the focus, else the hovered one when hovered, else
    /// the ordinary one; the dot when selected, in the disabled color when
    /// disabled.
    pub fn paint_plan(&self, state: PaintState) -> (plan: RadioButtonPaint)
        ensures
            plan.border == if state.is_focus_target {
                CheckboxBorder::Focused
            } else if state.is_hovered {
                CheckboxBorder::Hovered
            } else {
                CheckboxBorder::Normal
            },
            plan.checkmark == if !self.selected {
                None
            } else if state.is_disabled {
                Some(CheckmarkChoice::Disabled)
            } else {
                Some(CheckmarkChoice::Normal)
            },
    {
        let border = if state.is_focus_target {
            CheckboxBorder::Focused
        } else if state.is_hovered {
            CheckboxBorder::Hovered
        } else {
            CheckboxBorder::Normal
        };
        let checkmark = if !self.selected {
            None
        } else if state.is_disabled {
            Some(CheckmarkChoice::Disabled)
        } else {
            Some(CheckmarkChoice::Normal)
        };
        RadioButtonPaint { border, checkmark }
    }

    /// Radio buttons can be focused with the Tab key.
    pub fn accepts_focus(&self) -> (accepts: bool)
        ensures
            accepts,
    {
        true
    }

    /// Reacts to a change of situation. Once added to the tree, the button
    /// records the nearest enclosing group (`nearest_group`), which a radio
    /// button always has. Hover, active, focus and disabled changes repaint
    /// the button.
    pub fn update(&mut self, event: UpdateEvent, nearest_group: Option<WidgetId>)
        requires
            event is WidgetAdded ==> nearest_group is Some,
        ensures
            final(self).selected == old(self).selected,
            final(self).label == old(self).label,
            final(self).parent_group == if event is WidgetAdded {
                nearest_group
            } else {
                old(self).parent_group
            },
            final(self).requests@ == if repaints_on(event) {
                old(self).requests@.push(Request::PaintOnly)
            } else {
                old(self).requests@
            },
    {
        match event {
            UpdateEvent::WidgetAdded => {
                if let Some(id) = nearest_group {
                    self.parent_group = Some(id);
                }
            },
            UpdateEvent::HoveredChanged(_)
            | UpdateEvent::ActiveChanged(_)
            | UpdateEvent::FocusChanged(_)
            | UpdateEvent::DisabledChanged(_) => self.requests.push(Request::PaintOnly),
            _ => {},
        }
    }

    /// Records in `group` that button `self_id` became selected (`selected`)
    /// or deselected, and returns the button that must be deselected: the one
    /// selected before, when another button is selected.
    pub fn update_group<W>(group: &mut RadioGroup<W>, self_id: WidgetId, selected: bool) -> (deselect: Option<WidgetId>)
        ensures
            final(group).selected_button == next_selected(old(group).selected_button, self_id, selected),
            deselect == to_deselect(old(group).selected_button, self_id, selected),
            final(group).child == old(group).child,
            final(group).requests == old(group).requests,
    {
        let selected_button = group.selected_button;
        let mut deselect = None;
        if let Some(button_id) = selected_button {
            if button_id != self_id && selected {
                deselect = Some(button_id);
            }
            if button_id == self_id && !selected {
                group.selected_button = None;
            }
        }
        if selected {
            group.selected_button = Some(self_id);
        }
        deselect
    }

    /// Deselects this button at the request of its group. Requests a repaint
    /// with accessibility update.
    pub fn deselect(this: &mut Self)
        ensures
            !final(this).selected,
            final(this).label == old(this).label,
            final(this).parent_group == old(this).parent_group,
            final(this).requests@ == old(this).requests@.push(Request::Render),
    {
        this.selected = false;
        this.requests.push(Request::Render);
    }

    /// The identifier of the label.
    pub fn children_ids(&self) -> (ids: Vec<Option<WidgetId>>)
        ensures
            ids@ == seq![self.label.id],
    {
        let mut ids = Vec::new();
        ids.push(self.label.id);
        ids
    }
}

// --- MARK: LAWS

/// Every selected button of `buttons` (selection flags by identifier) is the
/// one the group records as selected.
pub open spec fn selection_consistent(buttons: Map<WidgetId, bool>, recorded: Option<WidgetId>) -> bool {
    forall|b: WidgetId| #[trigger] buttons.dom().contains(b) && buttons[b] ==> recorded == Some(b)
}

/// The selection flags after button `id` became selected (`selected`) or
/// deselected, the group was updated, and the button it named was deselected.
pub open spec fn after_group_update(
    buttons: Map<WidgetId, bool>,
    recorded: Option<WidgetId>,
    id: WidgetId,
    selected: bool,
) -> Map<WidgetId, bool> {
    let flagged = buttons.insert(id, selected);
    match to_deselect(recorded, id, selected) {
        Some(d) => if flagged.dom().contains(d) { flagged.insert(d, false) } else { flagged },
        None => flagged,
    }
}

/// At most one button of a group is selected, and it is the one the group
/// records: selecting or deselecting a button, updating the group, and
/// deselecting the button the group names keeps it so.
pub proof fn law_group_selection_exclusive(
    buttons: Map<WidgetId, bool>,
    recorded: Option<WidgetId>,
    id: WidgetId,
    selected: bool,
)
    requires
        selection_consistent(buttons, recorded),
        buttons.dom().contains(id),
    ensures
        selection_consistent(
            after_group_update(buttons, recorded, id, selected),
            next_selected(recorded, id, selected),
        ),
{
    let after = after_group_update(buttons, recorded, id, selected);
    let next = next_selected(recorded, id, selected);
    assert forall|b: WidgetId| #[trigger] after.dom().contains(b) && after[b] implies next == Some(b) by {
        if b != id {
            assert(buttons.dom().contains(b));
            match to_deselect(recorded, id, selected) {
                Some(d) => {
                    if b != d {
                        assert(buttons[b]);
                    }
                },
                None => {
                    assert(buttons[b]);
                },
            }
        }
    }
}

/// Selecting two buttons of a group one after the other leaves only the
/// second one selected.
pub proof fn law_second_selection_wins(
    buttons: Map<WidgetId, bool>,
    recorded: Option<WidgetId>,
    first: WidgetId,
    second: WidgetId,
)
    requires
        selection_consistent(buttons, recorded),
        buttons.dom().contains(first),
        buttons.dom().contains(second),
        first != second,
    ensures
        ({
            let after_first = after_group_update(buttons, recorded, first, true);
            let recorded_first = next_selected(recorded, first, true);
            let after_second = after_group_update(after_first, recorded_first, second, true);
            &&& next_selected(recorded_first, second, true) == Some(second)
            &&& after_second[second]
            &&& !after_second[first]
        }),
{
    law_group_selection_exclusive(buttons, recorded, first, true);
}

impl RadioButton {
    /// The role the widget reports to accessibility.
    pub fn accessibility_role(&self) -> (role: AccessRole)
        ensures
            role == AccessRole::RadioButton,
    {
        AccessRole::RadioButton
    }
}

} // verus!
