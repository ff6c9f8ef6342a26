use masonry::button::{Button, ButtonBorder, ButtonPaint};
use masonry::button9::{Button9, ThemeColor};
use masonry::checkbox::{Checkbox, CheckboxBorder, CheckmarkChoice};
use masonry::disclosure_button::DisclosureButton;
use masonry::radio_button::RadioButton;
use masonry::widget::{BackgroundChoice, PaintState};

fn state(is_disabled: bool, is_active: bool, is_hovered: bool, is_focus_target: bool) -> PaintState {
    PaintState { is_disabled, is_active, is_hovered, is_focus_target }
}

#[test]
fn checkbox_focus_indicator() {
    let checkbox = Checkbox::new(true, "Focus test");
    let plan = checkbox.paint_plan(state(false, false, false, true));
    assert!(plan.focus_ring);
    assert_eq!(plan.border, CheckboxBorder::Focused);
    assert_eq!(plan.checkmark, Some(CheckmarkChoice::Normal));
    assert_eq!(plan.background, BackgroundChoice::Normal);
}

#[test]
fn checkbox_paint_choices() {
    let unchecked = Checkbox::new(false, "x");
    let plan = unchecked.paint_plan(state(true, true, true, false));
    assert_eq!(plan.background, BackgroundChoice::Disabled);
    assert_eq!(plan.border, CheckboxBorder::Hovered);
    assert_eq!(plan.checkmark, None);
    assert!(plan.focus_ring);
    let checked = Checkbox::new(true, "x");
    assert_eq!(checked.paint_plan(state(true, false, false, false)).checkmark, Some(CheckmarkChoice::Disabled));
    assert!(!checked.paint_plan(state(false, true, false, false)).focus_ring);
    assert_eq!(checked.paint_plan(state(false, true, false, false)).background, BackgroundChoice::Active);
}

#[test]
fn button_paint_choices() {
    let button = Button::with_text("x");
    assert_eq!(
        button.paint_plan(state(false, true, true, false)),
        ButtonPaint { background: BackgroundChoice::Active, border: ButtonBorder::Hovered }
    );
    assert_eq!(button.paint_plan(state(false, false, true, true)).border, ButtonBorder::FocusWhite);
    assert_eq!(button.paint_plan(state(true, true, false, false)).background, BackgroundChoice::Disabled);
}

#[test]
fn button9_paint_choices() {
    let b = Button9::new("x");
    let pressed = b.paint_plan(state(false, true, true, false));
    assert_eq!((pressed.top, pressed.bottom), (ThemeColor::ButtonDark, ThemeColor::ButtonLight));
    assert_eq!(pressed.border, ThemeColor::BorderLight);
    let disabled = b.paint_plan(state(true, true, true, false));
    assert_eq!((disabled.top, disabled.bottom), (ThemeColor::DisabledButtonLight, ThemeColor::DisabledButtonDark));
    assert_eq!(disabled.border, ThemeColor::BorderDark);
}

#[test]
fn disclosure_paint() {
    assert_eq!(DisclosureButton::new(true).paint_plan(false), (true, false));
    assert_eq!(DisclosureButton::new(false).paint_plan(true), (false, true));
}

#[test]
fn radio_button_focus_indicator() {
    let radio = RadioButton::new(true, "Focus test");
    let plan = radio.paint_plan(state(false, false, false, true));
    assert_eq!(plan.border, CheckboxBorder::Focused);
    assert_eq!(plan.checkmark, Some(CheckmarkChoice::Normal));
}

#[test]
fn radio_button_paint_choices() {
    let radio = RadioButton::new(false, "x");
    let plan = radio.paint_plan(state(false, false, true, false));
    assert_eq!(plan.border, CheckboxBorder::Hovered);
    assert_eq!(plan.checkmark, None);
    let radio = RadioButton::new(true, "x");
    let plan = radio.paint_plan(state(true, false, false, false));
    assert_eq!(plan.border, CheckboxBorder::Normal);
    assert_eq!(plan.checkmark, Some(CheckmarkChoice::Disabled));
}
