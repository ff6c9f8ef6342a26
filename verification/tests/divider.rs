use masonry::divider::{Cap, DashFit, Divider, Placement};
use masonry::label::Label;
use masonry::widget::{Axis, Length, WidgetPod, F64};

fn px(v: f64) -> Length {
    Length(F64(v.to_bits()))
}

fn pattern(values: &[usize]) -> Vec<Length> {
    values.iter().map(|&v| px(v as f64)).collect()
}

#[test]
fn simple() {
    let d = Divider::<Label>::horizontal();
    assert_eq!(d.axis, Axis::Horizontal);
    assert_eq!(d.thickness, None);
    assert_eq!(d.pad, px(5.0));
    let v = Divider::<Label>::vertical().thickness(px(5.0));
    assert_eq!(v.axis, Axis::Vertical);
    assert_eq!(v.thickness, Some(px(5.0)));
    assert!(v.children_ids().is_empty());
}

#[test]
fn styled() {
    let a = Divider::<Label>::horizontal()
        .thickness(px(5.0))
        .dash_pattern(&pattern(&[1, 10, 5, 20]))
        .cap(Cap::Round);
    assert_eq!(a.dash_pattern, pattern(&[1, 10, 5, 20]));
    assert_eq!((a.start_cap, a.end_cap), (Cap::Round, Cap::Round));

    let b = Divider::<Label>::horizontal()
        .thickness(px(10.0))
        .dash_pattern(&pattern(&[1, 2, 3, 4, 5, 6, 7, 8, 9, 10]));
    assert_eq!(b.dash_pattern.len(), 10);

    let c = Divider::<Label>::horizontal()
        .dash_pattern(&pattern(&[5, 20]))
        .start_cap(Cap::Round)
        .end_cap(Cap::Square);
    assert_eq!((c.start_cap, c.end_cap), (Cap::Round, Cap::Square));

    let d = Divider::<Label>::horizontal().thickness(px(3.0)).hairline().dash_pattern(&pattern(&[5, 1]));
    assert_eq!(d.thickness, None);

    let e = Divider::horizontal()
        .thickness(px(2.0))
        .dash_pattern(&pattern(&[5, 5]))
        .dash_fit(DashFit::Stretch)
        .pad(px(20.0))
        .label("O");
    assert_eq!(e.dash_fit, DashFit::Stretch);
    assert_eq!(e.pad, px(20.0));
    assert_eq!(e.content.as_ref().unwrap().widget.text, "O");
}

#[test]
fn dash_fit() {
    for fit in [DashFit::Clip, DashFit::Stretch, DashFit::Start, DashFit::Center, DashFit::End] {
        let d = Divider::<Label>::horizontal()
            .thickness(px(5.0))
            .dash_pattern(&pattern(&[20, 10, 10, 20]))
            .dash_fit(fit);
        assert_eq!(d.dash_fit, fit);
    }
    assert_eq!(DashFit::default(), DashFit::Clip);
}

#[test]
fn label() {
    for placement in [Placement::Start, Placement::Center, Placement::End] {
        let d = Divider::vertical().label("Start").placement(placement);
        assert_eq!(d.placement, placement);
        assert_eq!(d.children_ids(), vec![None]);
    }
    assert_eq!(Placement::default(), Placement::Center);
}

#[test]
fn content() {
    let d = Divider::horizontal().content(WidgetPod::new(()));
    assert!(d.content.is_some());
}

#[test]
fn dash_pattern_is_made_even() {
    let single = Divider::<Label>::horizontal().dash_pattern(&pattern(&[4]));
    assert_eq!(single.dash_pattern, pattern(&[4, 4]));
    let even = Divider::<Label>::horizontal().dash_pattern(&pattern(&[1, 2, 3, 4]));
    assert_eq!(even.dash_pattern, pattern(&[1, 2, 3, 4]));
    let empty = Divider::<Label>::horizontal().dash_pattern(&[]);
    assert!(empty.dash_pattern.is_empty());
}
