use masonry::align::{Align, UnitPoint};
use masonry::badge::Badge;
use masonry::badged::{BadgePlacement, Badged};
use masonry::button::{Button, ButtonPress};
use masonry::checkbox::{Checkbox, CheckboxToggled};
use masonry::clip::Clip;
use masonry::collapse_panel::CollapsePanel;
use masonry::content_host::ContentHost;
use masonry::disclosure_button::DisclosureButton;
use masonry::label::{Label, StyleProperty};
use masonry::passthrough::Passthrough;
use masonry::prose::Prose;
use masonry::resize_observer::{LayoutChanged, ResizeObserver};
use masonry::root_widget::RootWidget;
use masonry::sized_box::SizedBox;
use masonry::widget::{
    AccessAction, AccessRole, EventCtx, KeyEvent, KeyInput, MouseButton, PointerInput, Request, Size, UpdateEvent, Vec2,
    WidgetId, WidgetPod, F64,
};

fn f(v: f64) -> F64 {
    F64(v.to_bits())
}

fn space_up() -> KeyEvent {
    KeyEvent { key: KeyInput::Character(" ".to_string()), is_up: true }
}

#[test]
fn simple_button() {
    let mut button = Button::with_text("Hello");
    assert_eq!(button.child.widget.text, "Hello");

    // No action before the click.
    let mut ctx = EventCtx::new(false, true, false, true);
    assert!(ctx.actions.is_empty());
    button.on_pointer_event(&mut ctx, PointerInput::Down);
    assert!(ctx.pointer_captured);
    let mut ctx = EventCtx::new(true, true, false, true);
    button.on_pointer_event(&mut ctx, PointerInput::Up(Some(MouseButton::Primary)));
    assert_eq!(ctx.actions, vec![ButtonPress { button: Some(MouseButton::Primary) }]);

    // Tab focuses the button.
    assert!(button.accepts_focus());
    assert!(!button.accepts_text_input());

    let mut ctx = EventCtx::new(false, false, false, true);
    button.on_text_event(&mut ctx, &KeyEvent { key: KeyInput::Character(" ".to_string()), is_up: false });
    button.on_text_event(&mut ctx, &space_up());
    assert_eq!(ctx.actions, vec![ButtonPress { button: None }]);
}

#[test]
fn edit_button() {
    let image_1 = Button::new(WidgetPod::new(
        Label::new("The quick brown fox jumps over the lazy dog")
            .with_style(StyleProperty::FontSize(20.0f32.to_bits())),
    ));

    let mut image_2 = Button::with_text("Hello world");
    let label = Button::child_mut(&mut image_2);
    Label::set_text(label, "The quick brown fox jumps over the lazy dog");
    Label::insert_style(label, StyleProperty::FontSize(20.0f32.to_bits()));

    assert_eq!(image_1.child.widget.text, image_2.child.widget.text);
    assert_eq!(image_1.child.widget.styles.props, image_2.child.widget.styles.props);
}

#[test]
fn button_release_outside_does_not_press() {
    let mut button = Button::with_text("x");
    let mut ctx = EventCtx::new(true, false, false, true);
    button.on_pointer_event(&mut ctx, PointerInput::Up(None));
    assert!(ctx.actions.is_empty());
    button.on_access_event(&mut ctx, AccessAction::Click);
    assert_eq!(ctx.actions, vec![ButtonPress { button: None }]);
    button.update(UpdateEvent::ActiveChanged(true));
    button.update(UpdateEvent::FontsChanged);
    assert_eq!(button.requests, vec![Request::PaintOnly, Request::PaintOnly]);
}

#[test]
fn simple_checkbox() {
    let mut checkbox = Checkbox::new(false, "Hello");
    assert!(!checkbox.checked);
    let mut ctx = EventCtx::new(false, true, false, true);
    assert!(ctx.actions.is_empty());
    checkbox.on_pointer_event(&mut ctx, PointerInput::Down);
    let mut ctx = EventCtx::new(true, true, false, true);
    checkbox.on_pointer_event(&mut ctx, PointerInput::Up(None));
    assert_eq!(ctx.actions, vec![CheckboxToggled(true)]);

    Checkbox::set_checked(&mut checkbox, true);
    assert!(checkbox.checked);
    assert_eq!(checkbox.get_debug_text(), Some("[X]".to_string()));
    assert!(checkbox.accepts_focus());

    let mut ctx = EventCtx::new(false, false, false, true);
    checkbox.on_text_event(&mut ctx, &KeyEvent { key: KeyInput::Character(" ".to_string()), is_up: false });
    checkbox.on_text_event(&mut ctx, &space_up());
    assert_eq!(ctx.actions, vec![CheckboxToggled(false)]);
}

#[test]
fn edit_checkbox() {
    let image_1 = Checkbox::from_label(
        true,
        WidgetPod::new(
            Label::new("The quick brown fox jumps over the lazy dog")
                .with_style(StyleProperty::FontSize(20.0f32.to_bits())),
        ),
    );

    let mut image_2 = Checkbox::new(false, "Hello world");
    Checkbox::set_checked(&mut image_2, true);
    Checkbox::set_text(&mut image_2, "The quick brown fox jumps over the lazy dog");
    Label::insert_style(Checkbox::label_mut(&mut image_2), StyleProperty::FontSize(20.0f32.to_bits()));

    assert_eq!(image_1.checked, image_2.checked);
    assert_eq!(image_1.label.widget.text, image_2.label.widget.text);
    assert_eq!(image_1.label.widget.styles.props, image_2.label.widget.styles.props);
    assert_eq!(image_2.get_debug_text(), Some("[X]".to_string()));
    let unchecked = Checkbox::new(false, "x");
    assert_eq!(unchecked.get_debug_text(), Some("[ ]".to_string()));
}

#[test]
fn content_host_replaces_child() {
    let mut host = ContentHost::new(WidgetPod::new(Label::new("A")));
    assert_eq!(host.inner.widget.text, "A");
    ContentHost::replace_child(&mut host, WidgetPod::with_id(Label::new("B"), WidgetId(4)));
    assert_eq!(host.inner.widget.text, "B");
    assert_eq!(host.inner_id(), Some(WidgetId(4)));
    assert_eq!(host.requests, vec![Request::RemoveChild]);
}

#[test]
fn content_host_child_mut() {
    let mut host = ContentHost::new(WidgetPod::new(Label::new("Hello")));
    Label::set_text(ContentHost::child_mut(&mut host), "World");
    assert_eq!(host.inner.widget.text, "World");
    assert!(host.requests.is_empty());
    assert_eq!(host.children_ids(), vec![None]);
}

#[test]
fn passthrough_replaces_child() {
    let mut host = Passthrough::new(WidgetPod::new(Label::new("A")));
    assert_eq!(Passthrough::child_mut(&mut host).text, "A");
    Passthrough::set_child(&mut host, WidgetPod::new(Label::new("B")));
    assert_eq!(host.inner.widget.text, "B");
    assert_eq!(host.requests, vec![Request::RemoveChild]);
}

#[test]
fn root_widget_hosts_child() {
    let mut root = RootWidget::new(Label::new("app"));
    assert_eq!(RootWidget::child_mut(&mut root).text, "app");
    let root2 = RootWidget::from_pod(WidgetPod::with_id(Label::new("x"), WidgetId(9)));
    assert_eq!(root2.children_ids(), vec![Some(WidgetId(9))]);
}

#[test]
fn badged_button() {
    let widget = Align::centered(WidgetPod::new(Badged::new(
        WidgetPod::new(Button::with_text("Inbox")),
        WidgetPod::new(Badge::with_text("3")),
    )));
    assert_eq!(widget.align, UnitPoint::center());
    let badged = &widget.child.widget;
    assert!(badged.has_badge());
    assert_eq!(badged.placement, BadgePlacement::TopRight);
    assert_eq!(badged.offset, Vec2::zero());
    assert_eq!(badged.badge.as_ref().unwrap().widget.child.widget.text, "3");
    // The badge is centered on the top-right corner of the content.
    let corner = badged.placement.resolve(f(100.0), f(40.0));
    assert_eq!(corner, Vec2 { x: f(100.0), y: f(0.0) });
}

#[test]
fn badged_button_optional_badge() {
    let widget = Align::centered(WidgetPod::new(Badged::<Button<Label>, Badge<Label>>::new_optional(
        WidgetPod::new(Button::with_text("Inbox")),
        None,
    )));
    assert!(!widget.child.widget.has_badge());
    assert_eq!(widget.child.widget.children_ids(), vec![None]);
}

#[test]
fn badged_edits() {
    let mut b = Badged::new_optional(WidgetPod::new(Label::new("c")), None);
    Badged::set_badge(&mut b, WidgetPod::new(Badge::with_text("1")));
    Badged::set_badge(&mut b, WidgetPod::new(Badge::with_text("2")));
    Badged::set_badge_placement(&mut b, BadgePlacement::BottomLeft);
    Badged::set_badge_placement(&mut b, BadgePlacement::BottomLeft);
    Badged::set_badge_offset(&mut b, Vec2 { x: f(-0.0), y: f(0.0) });
    Badged::set_badge_offset(&mut b, Vec2 { x: f(2.0), y: f(0.0) });
    assert_eq!(Badged::badge_mut(&mut b).unwrap().child.widget.text, "2");
    Badged::clear_badge(&mut b);
    Badged::clear_badge(&mut b);
    assert!(Badged::badge_mut(&mut b).is_none());
    assert_eq!(
        b.requests,
        vec![
            Request::ChildrenChanged,
            Request::RemoveChild,
            Request::Layout,
            Request::Layout,
            Request::RemoveChild,
        ]
    );
    assert_eq!(BadgePlacement::BottomRight.resolve(f(3.0), f(4.0)), Vec2 { x: f(3.0), y: f(4.0) });
    assert_eq!(BadgePlacement::TopLeft.resolve(f(3.0), f(4.0)), Vec2::zero());
}

#[test]
fn centered() {
    let a = Align::centered(WidgetPod::new(Label::new("hello")));
    assert_eq!(a.align, UnitPoint { u: f(0.5), v: f(0.5) });
}

#[test]
fn right() {
    let a = Align::right(WidgetPod::new(Label::new("hello")));
    assert_eq!(a.align, UnitPoint { u: f(1.0), v: f(0.5) });
}

#[test]
fn left() {
    let a = Align::left(WidgetPod::new(Label::new("hello")));
    assert_eq!(a.align, UnitPoint { u: f(0.0), v: f(0.5) });
}

#[test]
fn sets_clip_path_when_enabled() {
    let clip = Clip::new(WidgetPod::new(Label::new("Hello")));
    let size = Size { width: f(50.0), height: f(20.0) };
    assert_eq!(clip.clip_path(size), Some(size));
}

#[test]
fn clears_clip_path_when_disabled() {
    let clip = Clip::new(WidgetPod::new(Label::new("Hello"))).enabled(false);
    assert_eq!(clip.clip_path(Size { width: f(50.0), height: f(20.0) }), None);
}

#[test]
fn can_toggle_enabled_at_runtime() {
    let mut clip = Clip::new(WidgetPod::new(Label::new("Hello")));
    let size = Size { width: f(50.0), height: f(20.0) };
    assert!(clip.clip_path(size).is_some());
    Clip::set_enabled(&mut clip, false);
    assert!(clip.clip_path(size).is_none());
    Clip::set_enabled(&mut clip, true);
    assert!(clip.clip_path(size).is_some());
    assert_eq!(clip.get_debug_text(), Some("enabled".to_string()));
}

#[test]
fn detects_inner_resizing() {
    let inner = WidgetPod::new(SizedBox::<Label>::empty());
    let mut observer = ResizeObserver::new(inner);
    let mut ctx = EventCtx::new(false, false, false, false);
    // There is an initial layout.
    observer.layout(&mut ctx, Size { width: f(100.0), height: f(100.0) });
    assert_eq!(ctx.actions, vec![LayoutChanged]);
    // The inner box gets taller.
    observer.layout(&mut ctx, Size { width: f(100.0), height: f(200.0) });
    assert_eq!(ctx.actions, vec![LayoutChanged, LayoutChanged]);
    // Laid out again at the same size: no report.
    observer.layout(&mut ctx, Size { width: f(100.0), height: f(200.0) });
    assert_eq!(ctx.actions.len(), 2);
}

#[test]
fn detects_window_resizing() {
    let mut observer = ResizeObserver::new(WidgetPod::new(SizedBox::<Label>::empty()));
    let mut ctx = EventCtx::new(false, false, false, false);
    observer.layout(&mut ctx, Size { width: f(200.0), height: f(200.0) });
    assert_eq!(ctx.actions.len(), 1);
    observer.layout(&mut ctx, Size { width: f(300.0), height: f(200.0) });
    assert_eq!(ctx.actions.len(), 2);
    ResizeObserver::force_resend(&mut observer);
    observer.layout(&mut ctx, Size { width: f(300.0), height: f(200.0) });
    assert_eq!(ctx.actions.len(), 3);
}

#[test]
fn collapse_panel_toggles() {
    let mut panel = CollapsePanel::new(true, "Header", WidgetPod::new(Label::new("body")));
    assert!(panel.child_stashed());
    assert!(!panel.disclosure_button.widget.is_disclosed());
    CollapsePanel::set_collapsed(&mut panel, false);
    assert!(!panel.child_stashed());
    CollapsePanel::set_text(&mut panel, "Other");
    assert_eq!(panel.header_label.widget.text, "Other");
    assert_eq!(panel.requests, vec![Request::Layout]);

    // Activating the disclosure button collapses the panel again.
    let button = CollapsePanel::disclosure_button_mut(&mut panel);
    let mut ctx = EventCtx::new(false, false, false, true);
    button.on_access_event(&mut ctx, AccessAction::Click);
    assert!(panel.child_stashed());
}

#[test]
fn disclosure_button_switches() {
    let mut button = DisclosureButton::new(false);
    let mut ctx = EventCtx::new(false, true, true, true);
    button.on_pointer_event(&mut ctx, PointerInput::Down);
    assert!(!ctx.pointer_captured);
    let mut ctx = EventCtx::new(true, true, false, true);
    button.on_pointer_event(&mut ctx, PointerInput::Down);
    button.on_pointer_event(&mut ctx, PointerInput::Up(None));
    assert!(button.is_disclosed());
    button.on_text_event(&mut ctx, &KeyEvent { key: KeyInput::Enter, is_up: true });
    assert!(!button.is_disclosed());
    let mut not_target = EventCtx::new(false, false, false, false);
    button.on_access_event(&mut not_target, AccessAction::Click);
    assert!(!button.is_disclosed());
    assert_eq!(button.requests, vec![Request::Render, Request::Layout, Request::Layout]);
}

#[test]
fn prose_clipping() {
    let mut prose = Prose::new("Lorem ipsum").with_clip(true);
    assert!(prose.clip);
    assert_eq!(Prose::text_mut(&mut prose), "Lorem ipsum");
    Prose::set_clip(&mut prose, false);
    assert!(!prose.clip);
    assert_eq!(prose.requests, vec![Request::Layout]);
    assert_eq!(prose.text_area_pod().id, None);
}

#[test]
fn switching_disclosure_twice_restores_it() {
    let mut button = DisclosureButton::new(true);
    button.switch_disclosed_state();
    assert!(!button.is_disclosed());
    button.switch_disclosed_state();
    assert!(button.is_disclosed());
    assert_eq!(button.requests, vec![Request::Layout, Request::Layout]);
}

#[test]
fn widgets_report_their_roles() {

    assert_eq!(Checkbox::new(false, "x").accessibility_role(), AccessRole::CheckBox);
    assert_eq!(DisclosureButton::new(true).accessibility_role(), AccessRole::DisclosureTriangle);
    assert_eq!(Label::new("x").accessibility_role(), AccessRole::Label);
}
