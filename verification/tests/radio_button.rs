use masonry::label::{Label, StyleProperty};
use masonry::radio_button::{GroupUpdate, RadioButton, RadioButtonSelected};
use masonry::radio_group::RadioGroup;
use masonry::widget::{
    AccessAction, EventCtx, KeyEvent, KeyInput, PointerInput, Request, UpdateEvent, WidgetId,
    WidgetPod,
};

#[test]
fn simple_radio_button() {
    let radio_id = WidgetId(1);
    let group_id = WidgetId(2);
    let mut group = RadioGroup::new(WidgetPod::with_id(RadioButton::new(false, "Hello"), radio_id));
    assert!(!group.child.widget.selected);

    // Added to the tree, the button learns its group.
    let radio = RadioGroup::child_mut(&mut group);
    radio.update(UpdateEvent::WidgetAdded, Some(group_id));
    assert_eq!(radio.parent_group, Some(group_id));

    // No action before the click.
    let mut ctx = EventCtx::new(false, true, false, true);
    assert!(ctx.actions.is_empty());

    // Clicking: press, then release over the button holding the capture.
    assert_eq!(radio.on_pointer_event(&mut ctx, radio_id, PointerInput::Down), None);
    assert!(ctx.pointer_captured);
    let mut ctx_up = EventCtx::new(true, true, false, true);
    let update = radio.on_pointer_event(&mut ctx_up, radio_id, PointerInput::Up(None));
    assert_eq!(ctx_up.actions, vec![RadioButtonSelected]);
    assert!(radio.selected);
    assert_eq!(update, Some(GroupUpdate { group: group_id, button: radio_id, selected: true }));
    let update = update.unwrap();
    assert_eq!(RadioButton::update_group(&mut group, update.button, update.selected), None);
    assert_eq!(group.selected_button, Some(radio_id));

    let radio = RadioGroup::child_mut(&mut group);
    let update = RadioButton::set_checked(radio, radio_id, true);
    assert!(radio.selected);
    assert_eq!(update, Some(GroupUpdate { group: group_id, button: radio_id, selected: true }));

    // The button can be focused with the Tab key.
    assert!(radio.accepts_focus());
}

#[test]
fn edit_radio_button() {
    let image_1 = RadioButton::from_label(
        true,
        WidgetPod::new(
            Label::new("The quick brown fox jumps over the lazy dog")
                .with_style(StyleProperty::FontSize(20.0f32.to_bits())),
        ),
    );

    let mut image_2 = RadioButton::new(false, "Hello world");
    RadioButton::set_checked(&mut image_2, WidgetId(7), true);
    RadioButton::set_text(&mut image_2, "The quick brown fox jumps over the lazy dog");
    Label::insert_style(RadioButton::label_mut(&mut image_2), StyleProperty::FontSize(20.0f32.to_bits()));

    assert_eq!(image_1.selected, image_2.selected);
    assert_eq!(image_1.label.widget.text, image_2.label.widget.text);
    assert_eq!(image_1.label.widget.styles.props, image_2.label.widget.styles.props);
    assert_eq!(image_1.label.widget.text_alignment, image_2.label.widget.text_alignment);
}

#[test]
fn selecting_another_button_deselects_the_first() {
    let (a, b) = (WidgetId(10), WidgetId(11));
    let mut group = RadioGroup::new(WidgetPod::new(()));
    let mut first = RadioButton::new(false, "a");
    let mut second = RadioButton::new(false, "b");
    first.update(UpdateEvent::WidgetAdded, Some(WidgetId(1)));
    second.update(UpdateEvent::WidgetAdded, Some(WidgetId(1)));

    let mut ctx = EventCtx::new(false, false, false, true);
    let u = first.on_access_event(&mut ctx, a, AccessAction::Click).unwrap();
    assert_eq!(RadioButton::update_group(&mut group, u.button, u.selected), None);

    let key = KeyEvent { key: KeyInput::Character(" ".to_string()), is_up: true };
    let u = second.on_text_event(&mut ctx, b, &key).unwrap();
    let deselect = RadioButton::update_group(&mut group, u.button, u.selected);
    assert_eq!(deselect, Some(a));
    RadioButton::deselect(&mut first);
    assert!(!first.selected && second.selected);
    assert_eq!(group.selected_button, Some(b));
    assert_eq!(ctx.actions, vec![RadioButtonSelected, RadioButtonSelected]);
    assert_eq!(first.requests, vec![Request::Render, Request::Render]);

    // Deselecting the recorded button clears the record.
    assert_eq!(RadioButton::update_group(&mut group, b, false), None);
    assert_eq!(group.selected_button, None);
    // Enter does not select a radio button.
    let enter = KeyEvent { key: KeyInput::Enter, is_up: true };
    assert_eq!(second.on_text_event(&mut ctx, b, &enter), None);
}
