use masonry::spinner::{Spinner, SpinnerMeasure};
use masonry::widget::{LenReq, Request, UpdateEvent, F64};

fn f(v: f64) -> F64 {
    F64(v.to_bits())
}

#[test]
fn simple_spinner() {
    let mut spinner = Spinner::new();
    assert_eq!(spinner.rotation_progress, f(0.0));
    spinner.update(UpdateEvent::WidgetAdded);
    assert_eq!(spinner.requests, vec![Request::AnimFrame]);
    spinner.on_anim_frame(f(0.7));
    assert_eq!(spinner.rotation_progress, f(0.7));
    assert_eq!(spinner.requests, vec![Request::AnimFrame, Request::AnimFrame, Request::PaintOnly]);
    spinner.update(UpdateEvent::FocusChanged(true));
    assert_eq!(spinner.requests.len(), 3);
}

#[test]
fn spinner_measure_keeps_square() {
    let spinner = Spinner::default();
    assert_eq!(spinner.measure(LenReq::MaxContent, Some(f(40.0))), SpinnerMeasure::Length(f(40.0)));
    assert_eq!(spinner.measure(LenReq::MinContent, None), SpinnerMeasure::ThemeHeight);
    assert_eq!(spinner.measure(LenReq::FitContent(f(100.0)), Some(f(40.0))), SpinnerMeasure::Length(f(100.0)));
}
