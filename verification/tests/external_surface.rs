use masonry::canvas::{Canvas, CanvasSizeChanged};
use masonry::external_surface::ExternalSurface;
use masonry::widget::{EventCtx, LenReq, PaintLayerMode, Request, Size, F64};

fn px(v: f64) -> F64 {
    F64(v.to_bits())
}

#[test]
fn marks_itself_as_external_layer() {
    let surface = ExternalSurface::new();
    assert_eq!(surface.paint_layer_mode(), PaintLayerMode::External);
}

#[test]
fn emits_external_layer_as_base_root() {
    // As the root of an 80×60 window, the surface takes the whole window.
    let surface = ExternalSurface::new().with_alt_text("viewport");
    assert_eq!(surface.paint_layer_mode(), PaintLayerMode::External);
    assert_eq!(surface.measure(LenReq::FitContent(px(80.0))), px(80.0));
    assert_eq!(surface.measure(LenReq::FitContent(px(60.0))), px(60.0));
    assert_eq!(surface.get_debug_text(), Some("viewport".to_string()));
}

#[test]
fn external_surface_preferred_length() {
    let surface = ExternalSurface::new();
    assert_eq!(surface.measure(LenReq::MaxContent), px(100.0));
    assert_eq!(surface.measure(LenReq::MinContent), px(100.0));
    assert_eq!(surface.get_debug_text(), None);
}

#[test]
fn simple_canvas() {
    let canvas: Canvas<&str> = Canvas::default()
        .with_alt_text("A triangle with a bright mint green fill and a gold brown border");
    assert_eq!(
        canvas.get_debug_text(),
        Some("A triangle with a bright mint green fill and a gold brown border".to_string())
    );
    assert_eq!(canvas.measure(LenReq::MaxContent), px(100.0));
}

#[test]
fn canvas_reports_size_changes() {
    let mut canvas: Canvas<&str> = Canvas::default();
    let mut ctx = EventCtx::new(false, false, false, true);
    let size = Size { width: px(200.0), height: px(100.0) };
    canvas.layout(&mut ctx, size);
    canvas.layout(&mut ctx, size);
    assert_eq!(ctx.actions, vec![CanvasSizeChanged { size }]);
    assert_eq!(canvas.size(), size);
    // Negative zero compares equal to zero: no new report.
    let mut canvas: Canvas<&str> = Canvas::default();
    canvas.layout(&mut ctx, Size { width: px(-0.0), height: px(0.0) });
    assert_eq!(ctx.actions.len(), 1);
    // A NaN size never compares equal: it is reported each time.
    let nan = Size { width: px(f64::NAN), height: px(1.0) };
    canvas.layout(&mut ctx, nan);
    canvas.layout(&mut ctx, nan);
    assert_eq!(ctx.actions.len(), 3);
    let mut painted_at = None;
    Canvas::update_scene(&mut canvas, |size| {
        painted_at = Some(size);
        vec!["triangle"]
    });
    assert_eq!(painted_at, Some(nan));
    assert_eq!(canvas.scene, vec!["triangle"]);
    Canvas::set_alt_text(&mut canvas, Some("x"));
    Canvas::set_alt_text(&mut canvas, None);
    assert_eq!(canvas.alt_text, None);
    assert_eq!(canvas.requests, vec![Request::Render, Request::AccessibilityUpdate, Request::AccessibilityUpdate]);
}

#[test]
fn canvas_scene_is_recorded_anew() {
    let mut canvas: Canvas<u32> = Canvas::default();
    Canvas::update_scene(&mut canvas, |_| vec![1, 2, 3]);
    assert_eq!(canvas.scene, vec![1, 2, 3]);
    Canvas::update_scene(&mut canvas, |_| vec![4]);
    assert_eq!(canvas.scene, vec![4]);
    assert_eq!(canvas.requests, vec![Request::Render, Request::Render]);
}
