use masonry::badge::{Badge, BadgeCountOverflow, BADGE_TEXT_SIZE, FONT_WEIGHT_BOLD};
use masonry::label::{Label, StyleProperty};
use masonry::widget::{Request, UpdateEvent, WidgetPod};

fn badge_text(badge: &Badge<Label>) -> String {
    badge.child.widget.text.clone()
}

#[test]
fn badge_is_non_interactive() {
    let badge = Badge::new(WidgetPod::new(Label::new("New")));
    // Clicking a badge emits nothing and focuses nothing: it has no event
    // handlers and cannot be focused.
    assert!(!badge.accepts_focus());
    assert!(badge.requests.is_empty());
}

#[test]
fn badge_with_text() {
    let badge = Badge::with_text("New");
    assert_eq!(badge_text(&badge), "New");
    assert_eq!(
        badge.child.widget.styles.props,
        vec![
            StyleProperty::FontSize(12.0f32.to_bits()),
            StyleProperty::FontWeight(700.0f32.to_bits()),
        ]
    );
    assert_eq!(BADGE_TEXT_SIZE, 12.0f32.to_bits());
    assert_eq!(FONT_WEIGHT_BOLD, 700.0f32.to_bits());
}

#[test]
fn badge_count_overflow() {
    let badge = Badge::count(120);
    assert_eq!(badge_text(&badge), "99+");
}

#[test]
fn badge_count_formats() {
    assert_eq!(badge_text(&Badge::count(0)), "0");
    assert_eq!(badge_text(&Badge::count(7)), "7");
    assert_eq!(badge_text(&Badge::count(99)), "99");
    assert_eq!(badge_text(&Badge::count(100)), "99+");
    let exact = Badge::count_with_overflow(123456, BadgeCountOverflow::Exact);
    assert_eq!(badge_text(&exact), "123456");
    let no_plus = Badge::count_with_overflow(10, BadgeCountOverflow::Cap { max: 9, show_plus: false });
    assert_eq!(badge_text(&no_plus), "9");
    let under = Badge::count_with_overflow(9, BadgeCountOverflow::Cap { max: 9, show_plus: true });
    assert_eq!(badge_text(&under), "9");
    let max = Badge::count_with_overflow(u32::MAX, BadgeCountOverflow::Exact);
    assert_eq!(badge_text(&max), "4294967295");
    assert_eq!(
        BadgeCountOverflow::default(),
        BadgeCountOverflow::Cap { max: 99, show_plus: true }
    );
}

#[test]
fn badge_count_nonzero() {
    assert!(Badge::count_nonzero(0).is_none());
    let badge = Badge::count_nonzero(3).unwrap();
    assert_eq!(badge_text(&badge), "3");
}

#[test]
fn badge_set_child_and_update() {
    let mut badge = Badge::with_text("A");
    Badge::set_child(&mut badge, WidgetPod::new(Label::new("B")));
    assert_eq!(badge_text(&badge), "B");
    assert_eq!(badge.requests, vec![Request::RemoveChild]);
    badge.update(UpdateEvent::DisabledChanged(true));
    badge.update(UpdateEvent::HoveredChanged(true));
    assert_eq!(badge.requests, vec![Request::RemoveChild, Request::PaintOnly]);
    Label::set_text(Badge::child_mut(&mut badge), "C");
    assert_eq!(badge_text(&badge), "C");
}
