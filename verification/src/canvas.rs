//! Canvas: a widget whose contents the application draws.

use vstd::prelude::*;
use crate::widget::{AccessRole, f64_eq, EventCtx, LenReq, Request, Size, F64, F64_HUNDRED};

verus! {

/// A widget allowing custom drawing: the application records a scene for
/// it, a sequence of drawing commands `C`, which the canvas replays, clipped
/// to its size.
pub struct Canvas<C> {
    /// The text describing the canvas to screen readers.
    pub alt_text: Option<String>,
    /// The drawable area size, which matches the widget's content box.
    pub size: Size,
    /// The recorded scene, in drawing order.
    pub scene: Vec<C>,
    pub requests: Vec<Request>,
}

/// The size of the canvas has changed.
#[derive(Debug, Clone, Copy, PartialEq, Eq, Structural)]
pub struct CanvasSizeChanged {
    /// The new size of the canvas.
    pub size: Size,
}

/// The length a canvas or external surface asks for: all of the space it
/// is fitted into, and otherwise its preferred length of `100.0`.
pub open spec fn surface_length(len_req: LenReq) -> F64 {
    match len_req {
        LenReq::FitContent(space) => space,
        _ => F64(F64_HUNDRED),
    }
}

impl<C> Default for Canvas<C> {
    /// A canvas without alt text, of zero size, with an empty scene.
    fn default() -> (canvas: Self)
        ensures
            canvas.alt_text.is_none(),
            canvas.size == (Size { width: F64(0), height: F64(0) }),
            canvas.scene@.len() == 0,
            canvas.requests@.len() == 0,
    {
        Canvas {
            alt_text: None,
            size: Size { width: F64(0), height: F64(0) },
            scene: Vec::new(),
            requests: Vec::new(),
        }
    }
}

impl<C> Canvas<C> {
    /// Sets the text that describes the canvas to screen readers.
    pub fn with_alt_text(self, alt_text: &str) -> (canvas: Self)
        ensures
            canvas.alt_text is Some,
            canvas.alt_text->0@ == alt_text@,
            canvas.size == self.size,
            canvas.scene == self.scene,
            canvas.requests == self.requests,
    {
        Canvas { alt_text: Some(String::from_str(alt_text)), ..self }
    }

    /// Returns the current size of the canvas, which matches its content box.
    pub fn size(&self) -> (size: Size)
        ensures
            size == self.size,
    {
        self.size
    }

    /// Records the scene anew: the previous scene is dropped, and `paint` is
    /// called once, with the canvas size, to record the new one from empty;
    /// the scene is then exactly what it recorded. Requests a repaint with
    /// accessibility update.
    pub fn update_scene(this: &mut Self, paint: impl FnOnce(Size) -> Vec<C>)
        requires
            paint.requires((old(this).size,)),
        ensures
            paint.ensures((old(this).size,), final(this).scene),
            final(this).size == old(this).size,
            final(this).alt_text == old(this).alt_text,
            final(this).requests@ == old(this).requests@.push(Request::Render),
    {
        let size = this.size;
        this.scene = paint(size);
        this.requests.push(Request::Render);
    }

    /// Sets or clears the text that describes the canvas to screen readers.
    /// Requests an accessibility update.
    pub fn set_alt_text(this: &mut Self, alt_text: Option<&str>)
        ensures
            match alt_text {
                Some(t) => final(this).alt_text is Some && final(this).alt_text->0@ == t@,
                None => final(this).alt_text is None,
            },
            final(this).size == old(this).size,
            final(this).scene == old(this).scene,
            final(this).requests@ == old(this).requests@.push(Request::AccessibilityUpdate),
    {
        this.alt_text = match alt_text {
            Some(t) => Some(String::from_str(t)),
            None => None,
        };
        this.requests.push(Request::AccessibilityUpdate);
    }

    /// The length the canvas asks for along an axis.
    pub fn measure(&self, len_req: LenReq) -> (length: F64)
        ensures
            length == surface_length(len_req),
    {
        match len_req {
            LenReq::FitContent(space) => space,
            _ => F64(F64_HUNDRED),
        }
    }

    /// Takes the size given at layout: a size that compares unequal (as
    /// `f64`) to the current one replaces it and is reported.
    pub fn layout(&mut self, ctx: &mut EventCtx<CanvasSizeChanged>, size: Size)
        ensures
            final(self).alt_text == old(self).alt_text,
            final(self).scene == old(self).scene,
            final(self).requests == old(self).requests,
            final(ctx).pointer_captured == old(ctx).pointer_captured,
            final(ctx).handled == old(ctx).handled,
            if f64_eq(old(self).size.width, size.width) && f64_eq(old(self).size.height, size.height) {
                &&& final(self).size == old(self).size
                &&& final(ctx).actions == old(ctx).actions
            } else {
                &&& final(self).size == size
                &&& final(ctx).actions@ == old(ctx).actions@.push(CanvasSizeChanged { size })
            },
    {
        if !self.size.float_eq(size) {
            self.size = size;
            ctx.submit_action(CanvasSizeChanged { size });
        }
    }

    /// The text shown in debugging output: the alt text.
    pub fn get_debug_text(&self) -> (text: Option<String>)
        ensures
            text == self.alt_text,
    {
        match &self.alt_text {
            Some(t) => Some(t.clone()),
            None => None,
        }
    }
}

impl<C> Canvas<C> {
    /// The role the widget reports to accessibility.
    pub fn accessibility_role(&self) -> (role: AccessRole)
        ensures
            role == AccessRole::Canvas,
    {
        AccessRole::Canvas
    }
}

} // verus!
