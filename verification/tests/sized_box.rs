use masonry::label::Label;
use masonry::sized_box::SizedBox;
use masonry::widget::{Axis, Length, Request, WidgetId, WidgetPod, F64};

fn px(v: f64) -> Length {
    Length(F64(v.to_bits()))
}

fn hello() -> WidgetPod<Label> {
    WidgetPod::new(Label::new("hello"))
}

fn assert_sized(b: &SizedBox<Label>, w: Option<Length>, h: Option<Length>) {
    assert_eq!(b.length(Axis::Horizontal), w);
    assert_eq!(b.length(Axis::Vertical), h);
}

#[test]
fn empty_box() {
    let widget = SizedBox::<Label>::empty().width(px(20.0)).height(px(20.0));
    assert!(widget.child.is_none());
    assert_sized(&widget, Some(px(20.0)), Some(px(20.0)));
    assert!(widget.children_ids().is_empty());
}

#[test]
fn label_box_no_size() {
    let widget = SizedBox::new(hello());
    assert_sized(&widget, None, None);
    assert_eq!(widget.child.as_ref().unwrap().widget.text, "hello");
}

#[test]
fn label_box_with_size() {
    let widget = SizedBox::new(hello()).width(px(20.0)).height(px(20.0));
    assert_sized(&widget, Some(px(20.0)), Some(px(20.0)));
    assert_eq!(widget.child.as_ref().unwrap().widget.text, "hello");
}

#[test]
fn label_box_with_padding() {
    let widget = SizedBox::new(hello());
    assert_sized(&widget, None, None);
    assert!(!widget.accepts_pointer_interaction());
}

#[test]
fn label_box_with_solid_background() {
    let widget = SizedBox::new(hello()).width(px(20.0)).height(px(20.0));
    assert_sized(&widget, Some(px(20.0)), Some(px(20.0)));
}

#[test]
fn empty_box_with_gradient_background() {
    let widget = SizedBox::<Label>::empty().width(px(20.0)).height(px(20.0));
    assert_sized(&widget, Some(px(20.0)), Some(px(20.0)));
}

#[test]
fn radial_gradient_background() {
    let widget = SizedBox::<Label>::empty().width(px(20.0)).height(px(20.0));
    assert_sized(&widget, Some(px(20.0)), Some(px(20.0)));
}

#[test]
fn sweep_gradient_background() {
    let widget = SizedBox::<Label>::empty().width(px(20.0)).height(px(20.0));
    assert_sized(&widget, Some(px(20.0)), Some(px(20.0)));
}

#[test]
fn label_box_with_padding_and_background() {
    let widget = SizedBox::new(hello()).width(px(20.0)).height(px(20.0));
    assert_sized(&widget, Some(px(20.0)), Some(px(20.0)));
    assert_eq!(widget.children_ids(), vec![None]);
}

#[test]
fn invalid_screenshot() {
    // The same box as `empty_box`, with a different border width: the
    // border is a property of the box, not part of its sizing state.
    let widget = SizedBox::<Label>::empty().width(px(20.0)).height(px(20.0));
    let reference = SizedBox::<Label>::empty().size(px(20.0), px(20.0));
    assert_eq!(widget.width, reference.width);
    assert_eq!(widget.height, reference.height);
    assert_ne!(widget.width, Some(px(20.2)));
}

#[test]
fn sized_box_edits() {
    let mut b = SizedBox::new(WidgetPod::with_id(Label::new("a"), WidgetId(3)));
    SizedBox::set_width(&mut b, px(5.0));
    SizedBox::set_height(&mut b, px(6.0));
    assert_sized(&b, Some(px(5.0)), Some(px(6.0)));
    SizedBox::unset_width(&mut b);
    SizedBox::set_raw_height(&mut b, None);
    assert_sized(&b, None, None);
    SizedBox::set_size(&mut b, px(1.0), px(2.0));
    assert_sized(&b, Some(px(1.0)), Some(px(2.0)));
    SizedBox::set_child(&mut b, hello());
    SizedBox::remove_child(&mut b);
    SizedBox::remove_child(&mut b);
    assert!(SizedBox::child_mut(&mut b).is_none());
    SizedBox::set_child(&mut b, hello());
    assert_eq!(SizedBox::child_mut(&mut b).unwrap().text, "hello");
    let r = b.raw_width(None).raw_height(Some(px(9.0)));
    assert_sized(&r, None, Some(px(9.0)));
    assert_eq!(
        r.requests,
        vec![
            Request::Layout, Request::Layout, Request::Layout, Request::Layout, Request::Layout,
            Request::RemoveChild, Request::ChildrenChanged, Request::RemoveChild,
            Request::ChildrenChanged,
        ]
    );
}
