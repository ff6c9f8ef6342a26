use masonry::portal::{ScrollCommand, ScrollUnit};
use masonry::scroll_bar::{ScrollBar, ScrollBarMeasure};
use masonry::widget::{AccessAction, Axis, KeyEvent, KeyInput, LenReq, Request, F64};

fn f(v: f64) -> F64 {
    F64(v.to_bits())
}

fn down(key: KeyInput) -> KeyEvent {
    KeyEvent { key, is_up: false }
}

#[test]
fn keyboard_scroll_updates_access_tree() {
    let bar = ScrollBar::new(Axis::Vertical, f(200.0), f(600.0));
    assert_eq!(
        bar.scroll_for_key_event(&down(KeyInput::ArrowDown)),
        Some(ScrollCommand::Pan { axis: Axis::Vertical, unit: ScrollUnit::Item, forward: true })
    );
}

#[test]
fn simple_scrollbar() {
    let bar = ScrollBar::new(Axis::Vertical, f(200.0), f(600.0));
    assert_eq!(bar.cursor_progress(), f(0.0));
    assert!(!bar.moved);
    assert_eq!(bar.grab_anchor, None);
    assert!(bar.accepts_focus());
    assert_eq!(bar.measure(Axis::Vertical, LenReq::MaxContent), ScrollBarMeasure::Length(f(200.0)));
    assert_eq!(bar.measure(Axis::Vertical, LenReq::MinContent), ScrollBarMeasure::Length(f(200.0)));
    assert_eq!(bar.measure(Axis::Vertical, LenReq::FitContent(f(50.0))), ScrollBarMeasure::Length(f(50.0)));
    assert_eq!(bar.measure(Axis::Horizontal, LenReq::MaxContent), ScrollBarMeasure::Thickness);
}

#[test]
fn horizontal_scrollbar() {
    let bar = ScrollBar::new(Axis::Horizontal, f(200.0), f(600.0));
    let pan = |unit, forward| Some(ScrollCommand::Pan { axis: Axis::Horizontal, unit, forward });
    assert_eq!(bar.scroll_for_key_event(&down(KeyInput::ArrowRight)), pan(ScrollUnit::Item, true));
    assert_eq!(bar.scroll_for_key_event(&down(KeyInput::ArrowLeft)), pan(ScrollUnit::Item, false));
    // Vertical keys and pages do not move a horizontal bar.
    assert_eq!(bar.scroll_for_key_event(&down(KeyInput::ArrowDown)), None);
    assert_eq!(bar.scroll_for_key_event(&down(KeyInput::PageDown)), None);
    assert_eq!(bar.scroll_for_key_event(&down(KeyInput::Home)), Some(ScrollCommand::ToStart));
    assert_eq!(bar.scroll_for_key_event(&down(KeyInput::End)), Some(ScrollCommand::ToEnd));
    assert_eq!(bar.scroll_for_key_event(&KeyEvent { key: KeyInput::End, is_up: true }), None);
    assert_eq!(bar.scroll_for_access_event(AccessAction::ScrollRight, Some(ScrollUnit::Page)), pan(ScrollUnit::Page, true));
    assert_eq!(bar.scroll_for_access_event(AccessAction::ScrollLeft, None), pan(ScrollUnit::Item, false));
    assert_eq!(bar.scroll_for_access_event(AccessAction::ScrollDown, None), None);
    assert_eq!(bar.scroll_for_access_event(AccessAction::Click, None), None);
}

#[test]
fn vertical_scrollbar_keys() {
    let bar = ScrollBar::new(Axis::Vertical, f(200.0), f(600.0));
    let pan = |unit, forward| Some(ScrollCommand::Pan { axis: Axis::Vertical, unit, forward });
    assert_eq!(bar.scroll_for_key_event(&down(KeyInput::ArrowUp)), pan(ScrollUnit::Item, false));
    assert_eq!(bar.scroll_for_key_event(&down(KeyInput::PageUp)), pan(ScrollUnit::Page, false));
    assert_eq!(bar.scroll_for_key_event(&down(KeyInput::PageDown)), pan(ScrollUnit::Page, true));
    assert_eq!(bar.scroll_for_key_event(&down(KeyInput::ArrowLeft)), None);
    assert_eq!(bar.scroll_for_access_event(AccessAction::ScrollUp, None), pan(ScrollUnit::Item, false));
    assert_eq!(bar.scroll_for_access_event(AccessAction::ScrollDown, Some(ScrollUnit::Page)), pan(ScrollUnit::Page, true));
    assert_eq!(bar.scroll_for_access_event(AccessAction::ScrollLeft, None), None);
}

#[test]
fn scrollbar_sizes_and_drag() {
    let mut bar = ScrollBar::new(Axis::Vertical, f(200.0), f(600.0));
    ScrollBar::set_sizes(&mut bar, f(100.0), f(300.0));
    ScrollBar::set_content_size(&mut bar, f(400.0));
    assert_eq!(bar.portal_size, f(100.0));
    assert_eq!(bar.content_size, f(400.0));
    assert_eq!(bar.requests, vec![Request::Render, Request::Render]);
    bar.grab_anchor = Some(f(0.5));
    bar.end_drag();
    assert_eq!(bar.grab_anchor, None);
}
