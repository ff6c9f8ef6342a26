use masonry::progress_bar::{clamp_progress, ProgressBar};
use masonry::widget::{Request, F64};

fn f(v: f64) -> F64 {
    F64(v.to_bits())
}

fn shown(bar: &ProgressBar) -> Option<f64> {
    bar.progress.map(|p| f64::from_bits(p.0))
}

#[test]
fn indeterminate_progressbar() {
    let bar = ProgressBar::new(None);
    assert_eq!(shown(&bar), None);
    assert!(bar.fills_bar());
}

#[test]
fn _5_percent_styled_progressbar() {
    let bar = ProgressBar::new(Some(f(0.05)));
    assert_eq!(shown(&bar), Some(0.05));
    assert!(bar.fills_bar());
}

#[test]
fn _95_percent_styled_progressbar() {
    let bar = ProgressBar::new(Some(f(0.95)));
    assert_eq!(shown(&bar), Some(0.95));
    assert!(bar.fills_bar());
}

#[test]
fn _0_percent_progressbar() {
    let bar = ProgressBar::new(Some(f(0.)));
    assert_eq!(shown(&bar), Some(0.));
    assert!(!bar.fills_bar());
}

#[test]
fn _25_percent_progressbar() {
    let bar = ProgressBar::new(Some(f(0.25)));
    assert_eq!(shown(&bar), Some(0.25));
    assert!(bar.fills_bar());
}

#[test]
fn _50_percent_progressbar() {
    let bar = ProgressBar::new(Some(f(0.5)));
    assert_eq!(shown(&bar), Some(0.5));
}

#[test]
fn _75_percent_progressbar() {
    let bar = ProgressBar::new(Some(f(0.75)));
    assert_eq!(shown(&bar), Some(0.75));
}

#[test]
fn _100_percent_progressbar() {
    let bar = ProgressBar::new(Some(f(1.)));
    assert_eq!(shown(&bar), Some(1.));
    assert!(bar.fills_bar());
}

#[test]
fn edit_progressbar() {
    let bar_1 = ProgressBar::new(Some(f(0.5)));
    let mut bar_2 = ProgressBar::new(None);
    assert!(ProgressBar::set_progress(&mut bar_2, Some(f(0.5))));
    assert_eq!(bar_1.progress, bar_2.progress);
    assert_eq!(bar_2.requests, vec![Request::Layout, Request::Render]);
}

#[test]
fn progress_is_clamped() {
    assert_eq!(clamp_progress(Some(f(1.5))), Some(f(1.0)));
    assert_eq!(clamp_progress(Some(f(-0.5))), Some(f(0.0)));
    assert_eq!(clamp_progress(Some(f(f64::INFINITY))), Some(f(1.0)));
    assert_eq!(clamp_progress(Some(f(f64::NEG_INFINITY))), Some(f(0.0)));
    assert_eq!(clamp_progress(Some(f(f64::NAN))), None);
    assert_eq!(clamp_progress(Some(f(0.3))), Some(f(0.3)));
    assert_eq!(clamp_progress(None), None);
}

#[test]
fn setting_the_same_progress_changes_nothing() {
    let mut bar = ProgressBar::new(Some(f(0.25)));
    assert!(!ProgressBar::set_progress(&mut bar, Some(f(0.25))));
    assert!(!ProgressBar::set_progress(&mut bar, Some(f(0.25))));
    assert!(ProgressBar::set_progress(&mut bar, Some(f(2.0))));
    assert_eq!(shown(&bar), Some(1.0));
    assert!(!ProgressBar::set_progress(&mut bar, Some(f(7.0))));
    assert!(ProgressBar::set_progress(&mut bar, Some(f(f64::NAN))));
    assert_eq!(shown(&bar), None);
    assert!(!ProgressBar::set_progress(&mut bar, None));
    assert_eq!(bar.requests.len(), 12);
}
