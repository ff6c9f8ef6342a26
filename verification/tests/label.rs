use masonry::label::{FontFamily, Label, StyleKind, StyleProperty, TextAlign, TEXT_SIZE_NORMAL};
use masonry::widget::{Request, UpdateEvent};

fn same_rendering(a: &Label, b: &Label) -> bool {
    a.text == b.text
        && a.styles.props == b.styles.props
        && a.text_alignment == b.text_alignment
        && a.hint == b.hint
}

#[test]
fn simple_label() {
    let label = Label::new("Hello");
    assert_eq!(label.text(), "Hello");
    assert_eq!(label.styles.props, vec![StyleProperty::FontSize(15.0f32.to_bits())]);
    assert_eq!(TEXT_SIZE_NORMAL, 15.0f32.to_bits());
    assert_eq!(label.text_alignment, TextAlign::Start);
    assert!(label.hint);
}

#[test]
fn styled_label() {
    let label = Label::new("The quick brown fox jumps over the lazy dog")
        .with_style(StyleProperty::FontFamily(FontFamily::Monospace))
        .with_style(StyleProperty::FontSize(20.0f32.to_bits()))
        .with_text_alignment(TextAlign::Center);
    assert_eq!(
        label.styles.props,
        vec![
            StyleProperty::FontSize(20.0f32.to_bits()),
            StyleProperty::FontFamily(FontFamily::Monospace),
        ]
    );
    assert_eq!(label.text_alignment, TextAlign::Center);
}

#[test]
fn underline_label() {
    let label = Label::new("Emphasis").with_style(StyleProperty::Underline(true));
    assert_eq!(
        label.styles.props,
        vec![StyleProperty::FontSize(15.0f32.to_bits()), StyleProperty::Underline(true)]
    );
}

#[test]
fn strikethrough_label() {
    let label = Label::new("Tpyo")
        .with_style(StyleProperty::Strikethrough(true))
        .with_style(StyleProperty::StrikethroughSize(Some(4.0f32.to_bits())));
    assert_eq!(
        label.styles.props,
        vec![
            StyleProperty::FontSize(15.0f32.to_bits()),
            StyleProperty::Strikethrough(true),
            StyleProperty::StrikethroughSize(Some(4.0f32.to_bits())),
        ]
    );
}

#[test]
fn edit_label() {
    let image_1 = Label::new("The quick brown fox jumps over the lazy dog")
        .with_style(StyleProperty::FontFamily(FontFamily::Monospace))
        .with_style(StyleProperty::FontSize(20.0f32.to_bits()))
        .with_text_alignment(TextAlign::Center);

    let mut image_2 = Label::new("Hello world").with_style(StyleProperty::FontSize(40.0f32.to_bits()));
    Label::set_text(&mut image_2, "The quick brown fox jumps over the lazy dog");
    Label::insert_style(&mut image_2, StyleProperty::FontFamily(FontFamily::Monospace));
    Label::insert_style(&mut image_2, StyleProperty::FontSize(20.0f32.to_bits()));
    Label::set_text_alignment(&mut image_2, TextAlign::Center);

    assert!(same_rendering(&image_1, &image_2));
    assert_eq!(image_2.requests, vec![Request::Layout; 4]);
}

#[test]
fn label_style_replacement_returns_old() {
    let (label, old) = Label::new("x").try_with_style(StyleProperty::FontSize(1));
    assert_eq!(old, Some(StyleProperty::FontSize(15.0f32.to_bits())));
    let (mut label, old) = label.try_with_style(StyleProperty::Brush(0));
    assert_eq!(old, None);
    assert_eq!(Label::remove_style(&mut label, StyleKind::Brush), Some(StyleProperty::Brush(0)));
    assert_eq!(Label::remove_style(&mut label, StyleKind::Brush), None);
    Label::retain_styles(&mut label, |p: &StyleProperty| !matches!(p, StyleProperty::FontSize(_)));
    assert!(label.styles.props.is_empty());
    Label::set_hint(&mut label, false);
    label.update(UpdateEvent::FontsChanged);
    label.update(UpdateEvent::DisabledChanged(true));
    assert_eq!(
        label.requests,
        vec![Request::Layout, Request::Layout, Request::Layout, Request::PaintOnly, Request::Layout, Request::Render]
    );
    assert!(!label.accepts_pointer_interaction());
    assert_eq!(label.get_debug_text(), Some("x".to_string()));
}
