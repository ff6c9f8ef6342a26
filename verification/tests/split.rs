use masonry::label::Label;
use masonry::split::{clamp_fraction, BarShade, Split, SplitMove, SplitPoint};
use masonry::widget::{AccessAction, Axis, KeyEvent, KeyInput, Length, PaintState, Request, UpdateEvent, WidgetPod, F64};

fn f(v: f64) -> F64 {
    F64(v.to_bits())
}

fn px(v: f64) -> Length {
    Length(f(v))
}

fn hello_world() -> Split<Label, Label> {
    Split::new(WidgetPod::new(Label::new("Hello")), WidgetPod::new(Label::new("World")))
}

#[test]
fn columns() {
    let s = hello_world().split_axis(Axis::Horizontal).draggable(false);
    assert_eq!(s.split_axis, Axis::Horizontal);
    assert!(!s.draggable);
    assert_eq!(s.split_point_chosen, SplitPoint::Fraction(f(0.5)));
}

#[test]
fn rows() {
    let s = hello_world().split_axis(Axis::Vertical).draggable(false);
    assert_eq!(s.split_axis, Axis::Vertical);
    assert_eq!(s.bar_thickness, px(6.0));
    assert_eq!(s.min_bar_area, px(6.0));
}

#[test]
fn edit_splitter() {
    let image_1 = hello_world()
        .split_fraction(f(0.3))
        .min_lengths(px(40.0), px(10.0))
        .bar_thickness(px(12.0))
        .draggable(true)
        .solid_bar(true);

    let mut image_2 = hello_world();
    Split::set_split_point(&mut image_2, SplitPoint::Fraction(f(0.3)));
    Split::set_min_lengths(&mut image_2, px(40.0), px(10.0));
    Split::set_bar_thickness(&mut image_2, px(12.0));
    Split::set_draggable(&mut image_2, true);
    Split::set_bar_solid(&mut image_2, true);

    assert_eq!(image_1.split_point_chosen, image_2.split_point_chosen);
    assert_eq!(image_1.min_lengths, image_2.min_lengths);
    assert_eq!(image_1.bar_thickness, image_2.bar_thickness);
    assert_eq!(image_1.draggable, image_2.draggable);
    assert_eq!(image_1.solid, image_2.solid);
    assert_eq!(
        image_2.requests,
        vec![Request::Layout, Request::Layout, Request::Layout, Request::PaintOnly, Request::PaintOnly]
    );
}

#[test]
fn fraction_clamps_when_set() {
    let mut s = hello_world();
    Split::set_split_point(&mut s, SplitPoint::Fraction(f(2.0)));
    assert_eq!(s.split_point_chosen, SplitPoint::Fraction(f(1.0)));
    Split::set_split_point(&mut s, SplitPoint::Fraction(f(-1.0)));
    assert_eq!(s.split_point_chosen, SplitPoint::Fraction(f(0.0)));
}

#[test]
fn fraction_clamp_edges() {
    for v in [0.0, 0.25, 1.0, -0.0, 1e-300, 0.9999999] {
        assert_eq!(clamp_fraction(f(v)), f(v.clamp(0.0, 1.0)));
    }
    for v in [f64::INFINITY, f64::NEG_INFINITY, 1.0000001, -1e-300, f64::MAX, f64::MIN] {
        assert_eq!(clamp_fraction(f(v)), f(v.clamp(0.0, 1.0)));
    }
    assert!(f64::from_bits(clamp_fraction(f(f64::NAN)).0).is_nan());
    let s = hello_world().split_point(SplitPoint::FromEnd(px(30.0)));
    assert_eq!(s.split_point_chosen, SplitPoint::FromEnd(px(30.0)));
    let s = s.split_point_from_start(px(10.0));
    assert_eq!(s.split_point_chosen, SplitPoint::FromStart(px(10.0)));
}

fn down(key: KeyInput) -> KeyEvent {
    KeyEvent { key, is_up: false }
}

#[test]
fn keyboard_moves_split_point() {
    let s = hello_world();
    // The default split is horizontal: the right arrow moves the bar towards the end.
    assert_eq!(s.move_for_key_event(&down(KeyInput::ArrowRight), false, true), Some(SplitMove::Step { forward: true }));
}

#[test]
fn split_key_and_access_moves() {
    let s = hello_world();
    assert_eq!(s.move_for_key_event(&down(KeyInput::ArrowLeft), false, true), Some(SplitMove::Step { forward: false }));
    assert_eq!(s.move_for_key_event(&down(KeyInput::ArrowDown), false, true), None);
    assert_eq!(s.move_for_key_event(&down(KeyInput::Home), false, true), Some(SplitMove::ToMin));
    assert_eq!(s.move_for_key_event(&down(KeyInput::End), false, true), Some(SplitMove::ToMax));
    assert_eq!(s.move_for_key_event(&down(KeyInput::End), true, true), None);
    assert_eq!(s.move_for_key_event(&down(KeyInput::End), false, false), None);
    assert_eq!(s.move_for_key_event(&KeyEvent { key: KeyInput::End, is_up: true }, false, true), None);
    let v = hello_world().split_axis(Axis::Vertical);
    assert_eq!(v.move_for_key_event(&down(KeyInput::ArrowDown), false, true), Some(SplitMove::Step { forward: true }));
    assert_eq!(v.move_for_key_event(&down(KeyInput::ArrowRight), false, true), None);
    assert_eq!(s.move_for_access_event(AccessAction::Increment, false), Some(SplitMove::Step { forward: true }));
    assert_eq!(s.move_for_access_event(AccessAction::Decrement, false), Some(SplitMove::Step { forward: false }));
    assert_eq!(s.move_for_access_event(AccessAction::SetValue, false), Some(SplitMove::SetValue));
    assert_eq!(s.move_for_access_event(AccessAction::Click, false), None);
    assert_eq!(s.move_for_access_event(AccessAction::Increment, true), None);
    let fixed = hello_world().draggable(false);
    assert_eq!(fixed.move_for_key_event(&down(KeyInput::Home), false, true), None);
    assert_eq!(fixed.move_for_access_event(AccessAction::Increment, false), None);
}

#[test]
fn split_bar_shade_and_updates() {
    let mut s = hello_world();
    let state = |is_disabled, is_active, is_hovered, is_focus_target| PaintState { is_disabled, is_active, is_hovered, is_focus_target };
    assert_eq!(s.bar_shade(state(false, false, false, false)), BarShade::Normal);
    assert_eq!(s.bar_shade(state(false, false, true, false)), BarShade::Highlighted);
    assert_eq!(s.bar_shade(state(true, true, true, true)), BarShade::Inactive);
    assert!(s.accepts_focus());
    s.update(UpdateEvent::HoveredChanged(true));
    s.update(UpdateEvent::WidgetAdded);
    assert_eq!(s.requests, vec![Request::PaintOnly]);
    let fixed = hello_world().draggable(false);
    assert_eq!(fixed.bar_shade(state(false, true, false, false)), BarShade::Inactive);
}
