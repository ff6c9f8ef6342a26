use masonry::label::Label;
use masonry::portal::{scroll_orientation, Portal, PortalMeasure, ScrollCommand, ScrollUnit};
use masonry::widget::{AccessAction, Axis, KeyEvent, KeyInput, LenReq, Request, Vec2, WidgetId, WidgetPod, F64};

fn f(v: f64) -> F64 {
    F64(v.to_bits())
}

fn down(key: KeyInput) -> KeyEvent {
    KeyEvent { key, is_up: false }
}

const OTHER: WidgetId = WidgetId(99);
const BAR: WidgetId = WidgetId(7);

fn portal() -> Portal<Label> {
    let mut p = Portal::new(WidgetPod::new(Label::new("content")));
    p.scrollbar_vertical.id = Some(BAR);
    p
}

#[test]
fn portal_keyboard_scroll_updates_access_tree() {
    let p = portal();
    assert_eq!(
        p.scroll_for_key_event(&down(KeyInput::PageDown), OTHER),
        Some(ScrollCommand::Pan { axis: Axis::Vertical, unit: ScrollUnit::Page, forward: true })
    );
}

#[test]
fn portal_keys_map_to_scrolls() {
    let p = portal();
    let pan = |axis, unit, forward| Some(ScrollCommand::Pan { axis, unit, forward });
    assert_eq!(p.scroll_for_key_event(&down(KeyInput::PageUp), OTHER), pan(Axis::Vertical, ScrollUnit::Page, false));
    assert_eq!(p.scroll_for_key_event(&down(KeyInput::ArrowDown), OTHER), pan(Axis::Vertical, ScrollUnit::Item, true));
    assert_eq!(p.scroll_for_key_event(&down(KeyInput::ArrowUp), OTHER), pan(Axis::Vertical, ScrollUnit::Item, false));
    assert_eq!(p.scroll_for_key_event(&down(KeyInput::ArrowRight), OTHER), pan(Axis::Horizontal, ScrollUnit::Item, true));
    assert_eq!(p.scroll_for_key_event(&down(KeyInput::ArrowLeft), OTHER), pan(Axis::Horizontal, ScrollUnit::Item, false));
    assert_eq!(p.scroll_for_key_event(&down(KeyInput::Home), OTHER), Some(ScrollCommand::ToStart));
    assert_eq!(p.scroll_for_key_event(&down(KeyInput::End), OTHER), Some(ScrollCommand::ToEnd));
    assert_eq!(p.scroll_for_key_event(&down(KeyInput::Enter), OTHER), None);
    assert_eq!(p.scroll_for_key_event(&down(KeyInput::Character("j".to_string())), OTHER), None);
    // Released keys and keys meant for a scrollbar do not scroll the portal.
    assert_eq!(p.scroll_for_key_event(&KeyEvent { key: KeyInput::PageDown, is_up: true }, OTHER), None);
    assert_eq!(p.scroll_for_key_event(&down(KeyInput::PageDown), BAR), None);
}

#[test]
fn constrained_portal_does_not_pan_along_that_axis() {
    let p = portal().constrain_vertical(true);
    assert_eq!(p.scroll_for_key_event(&down(KeyInput::PageDown), OTHER), None);
    assert_eq!(
        p.scroll_for_key_event(&down(KeyInput::ArrowRight), OTHER),
        Some(ScrollCommand::Pan { axis: Axis::Horizontal, unit: ScrollUnit::Item, forward: true })
    );
    // Moves to the start or the end ignore the constraints.
    assert_eq!(p.scroll_for_key_event(&down(KeyInput::End), OTHER), Some(ScrollCommand::ToEnd));
    assert!(p.accepts_focus());
    let both = p.constrain_horizontal(true);
    assert!(!both.accepts_focus());
    assert_eq!(both.scroll_for_key_event(&down(KeyInput::ArrowRight), OTHER), None);
    assert_eq!(both.scroll_for_access_event(AccessAction::ScrollDown, None, OTHER), None);
}

#[test]
fn portal_access_scrolls() {
    let p = portal();
    assert_eq!(
        p.scroll_for_access_event(AccessAction::ScrollDown, None, OTHER),
        Some(ScrollCommand::Pan { axis: Axis::Vertical, unit: ScrollUnit::Item, forward: true })
    );
    assert_eq!(
        p.scroll_for_access_event(AccessAction::ScrollLeft, Some(ScrollUnit::Page), OTHER),
        Some(ScrollCommand::Pan { axis: Axis::Horizontal, unit: ScrollUnit::Page, forward: false })
    );
    assert_eq!(
        p.scroll_for_access_event(AccessAction::ScrollUp, Some(ScrollUnit::Item), OTHER),
        Some(ScrollCommand::Pan { axis: Axis::Vertical, unit: ScrollUnit::Item, forward: false })
    );
    assert_eq!(
        p.scroll_for_access_event(AccessAction::ScrollRight, Some(ScrollUnit::Page), OTHER),
        Some(ScrollCommand::Pan { axis: Axis::Horizontal, unit: ScrollUnit::Page, forward: true })
    );
    assert_eq!(p.scroll_for_access_event(AccessAction::Click, None, OTHER), None);
    assert_eq!(p.scroll_for_access_event(AccessAction::ScrollDown, None, BAR), None);
}

#[test]
fn portal_measure_and_layout() {
    let p = portal().constrain_horizontal(true);
    assert_eq!(p.measure(Axis::Vertical, LenReq::MinContent, Some(f(50.))), PortalMeasure::Length(f(0.)));
    assert_eq!(p.measure(Axis::Vertical, LenReq::FitContent(f(30.)), None), PortalMeasure::Length(f(30.)));
    // Across the vertical axis lies the horizontal one, which is constrained.
    assert_eq!(
        p.measure(Axis::Vertical, LenReq::MaxContent, Some(f(50.))),
        PortalMeasure::Child { cross_length: Some(f(50.)) }
    );
    assert_eq!(
        p.measure(Axis::Horizontal, LenReq::MaxContent, Some(f(50.))),
        PortalMeasure::Child { cross_length: None }
    );
    assert_eq!(p.child_length_request(Axis::Horizontal, f(80.)), LenReq::FitContent(f(80.)));
    assert_eq!(p.child_length_request(Axis::Vertical, f(80.)), LenReq::MaxContent);
}

#[test]
fn portal_scrollbars_and_orientation() {
    let mut p = portal().constrain_horizontal(true);
    Portal::update_scrollbar_visibility(&mut p, true, true);
    assert!(!p.scrollbar_horizontal_visible);
    assert!(p.scrollbar_vertical_visible);
    Portal::update_scrollbar_visibility(&mut p, true, false);
    assert!(!p.scrollbar_vertical_visible);
    assert_eq!(p.accessibility_orientation(true, true), Some(Axis::Vertical));
    assert_eq!(p.accessibility_orientation(true, false), None);
    assert_eq!(scroll_orientation(true, false), Some(Axis::Horizontal));
    assert_eq!(scroll_orientation(true, true), None);
    assert_eq!(scroll_orientation(false, false), None);
}

#[test]
fn portal_settings() {
    let mut p = portal().content_must_fill(true);
    assert!(p.must_fill);
    assert_eq!(p.get_viewport_pos(), Vec2 { x: f(0.), y: f(0.) });
    Portal::set_constrain_horizontal(&mut p, true);
    Portal::set_constrain_vertical(&mut p, true);
    Portal::set_content_must_fill(&mut p, false);
    assert!(p.constrain_horizontal && p.constrain_vertical && !p.must_fill);
    Portal::child_mut(&mut p).text = "other".to_string();
    assert_eq!(p.child.widget.text, "other");
    Portal::set_child(&mut p, WidgetPod::new(Label::new("new")));
    assert_eq!(p.child.widget.text, "new");
    assert_eq!(p.requests, vec![Request::Layout, Request::Layout, Request::Layout, Request::RemoveChild]);
}

#[test]
fn portal_scrollbars_are_children() {
    let mut p = portal();
    p.child.id = Some(WidgetId(1));
    p.scrollbar_horizontal.id = Some(WidgetId(8));
    assert_eq!(p.children_ids(), vec![Some(WidgetId(1)), Some(BAR), Some(WidgetId(8))]);
    assert!(p.is_scrollbar(WidgetId(8)));
    assert!(p.is_scrollbar(BAR));
    assert!(!p.is_scrollbar(WidgetId(1)));
    assert_eq!(p.scrollbar_horizontal.widget.axis, Axis::Horizontal);
    assert_eq!(p.scrollbar_vertical.widget.axis, Axis::Vertical);
    Portal::vertical_scrollbar_mut(&mut p).moved = true;
    assert_eq!(Portal::take_scrollbar_moves(&mut p), (false, true));
    assert_eq!(Portal::take_scrollbar_moves(&mut p), (false, false));
    Portal::horizontal_scrollbar_mut(&mut p).cursor_progress = f(0.5);
    assert_eq!(p.scrollbar_horizontal.widget.cursor_progress, f(0.5));
}
