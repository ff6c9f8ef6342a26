//! Slider: the decisions of a widget selecting a value from a continuous
//! range. Its values are `f64`, clamped and snapped to a step with `f64`
//! arithmetic; the slider itself is held by the caller, and this module says
//! which inputs move it and how.

use vstd::prelude::*;
use crate::widget::{AccessAction, AccessRole, KeyInput};

verus! {

/// A move of a slider's value that an input asks for.
#[derive(Clone, Copy, Debug, PartialEq, Eq, Structural)]
pub enum SliderMove {
    /// Move by one step (ten with `big`) up or down.
    Step { up: bool, big: bool },
    /// Move to the minimum.
    ToMin,
    /// Move to the maximum.
    ToMax,
    /// Move to the value the accessibility action carries.
    SetValue,
}

/// The move a pressed key asks of a slider: the left and down arrows step
/// down, the right and up arrows step up (ten steps with Shift), Home and
/// End send the value to the ends of the range.
pub open spec fn slider_key(key: KeyInput, shift: bool) -> Option<SliderMove> {
    match key {
        KeyInput::ArrowLeft | KeyInput::ArrowDown => Some(SliderMove::Step { up: false, big: shift }),
        KeyInput::ArrowRight | KeyInput::ArrowUp => Some(SliderMove::Step { up: true, big: shift }),
        KeyInput::Home => Some(SliderMove::ToMin),
        KeyInput::End => Some(SliderMove::ToMax),
        _ => None,
    }
}

/// The move a key event asks of a slider: only a pressed key, on an enabled
/// slider that has the focus itself.
pub fn slider_key_move(key: &KeyInput, shift: bool, is_up: bool, is_disabled: bool, is_focus_target: bool)
    -> (m: Option<SliderMove>)
    ensures
        m == if is_disabled || !is_focus_target || is_up { None } else { slider_key(*key, shift) },
{
    if is_disabled || !is_focus_target || is_up {
        return None;
    }
    match key {
        KeyInput::ArrowLeft | KeyInput::ArrowDown => Some(SliderMove::Step { up: false, big: shift }),
        KeyInput::ArrowRight | KeyInput::ArrowUp => Some(SliderMove::Step { up: true, big: shift }),
        KeyInput::Home => Some(SliderMove::ToMin),
        KeyInput::End => Some(SliderMove::ToMax),
        _ => None,
    }
}

/// The move an accessibility action asks of an enabled slider: increment
/// and decrement step it, set-value sets it.
pub fn slider_access_move(action: AccessAction, is_disabled: bool) -> (m: Option<SliderMove>)
    ensures
        m == if is_disabled {
            None
        } else {
            match action {
                AccessAction::Increment => Some(SliderMove::Step { up: true, big: false }),
                AccessAction::Decrement => Some(SliderMove::Step { up: false, big: false }),
                AccessAction::SetValue => Some(SliderMove::SetValue),
                _ => None,
            }
        },
{
    if is_disabled {
        return None;
    }
    match action {
        AccessAction::Increment => Some(SliderMove::Step { up: true, big: false }),
        AccessAction::Decrement => Some(SliderMove::Step { up: false, big: false }),
        AccessAction::SetValue => Some(SliderMove::SetValue),
        _ => None,
    }
}

/// The role a slider reports to accessibility.
pub fn slider_role() -> (role: AccessRole)
    ensures
        role == AccessRole::Slider,
{
    AccessRole::Slider
}

/// The keys move a slider the way they point: Right and Up step the value
/// up, Left and Down step it down, by ten steps with Shift; Home and End
/// send it to the ends of the range.
pub proof fn law_slider_keys_point_the_way(shift: bool)
    ensures
        slider_key(KeyInput::Home, shift) == Some(SliderMove::ToMin),
        slider_key(KeyInput::End, shift) == Some(SliderMove::ToMax),
        forall|k: KeyInput| #[trigger] slider_key(k, shift) matches Some(SliderMove::Step { up, big }) ==> {
            &&& (up <==> (k is ArrowRight || k is ArrowUp))
            &&& big == shift
        },
        forall|k: KeyInput| (k is ArrowUp || k is ArrowDown || k is ArrowLeft || k is ArrowRight)
            ==> #[trigger] slider_key(k, shift) is Some,
{
}

} // verus!
