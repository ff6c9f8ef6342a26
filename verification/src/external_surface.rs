//! ExternalSurface: a slot in the tree for content that the host realizes itself.

use vstd::prelude::*;
use crate::canvas::surface_length;
use crate::widget::{AccessRole, LenReq, PaintLayerMode, F64, F64_HUNDRED};

verus! {

/// A widget that reserves an in-tree slot for host-managed external content.
///
/// It takes part in layout like a leaf widget, but paints nothing into the
/// retained scene: it marks its subtree as an external paint layer, which
/// the host realizes as a foreign surface, a 3D viewport or a compositor layer.
pub struct ExternalSurface {
    /// The text describing the surface to screen readers.
    pub alt_text: Option<String>,
}

impl ExternalSurface {
    /// Creates a new external surface slot without alt text.
    pub fn new() -> (surface: Self)
        ensures
            surface.alt_text.is_none(),
    {
        ExternalSurface { alt_text: None }
    }

    /// Sets the text that describes the surface to screen readers.
    pub fn with_alt_text(self, alt_text: &str) -> (surface: Self)
        ensures
            surface.alt_text is Some,
            surface.alt_text->0@ == alt_text@,
    {
        ExternalSurface { alt_text: Some(String::from_str(alt_text)) }
    }

    /// The length the surface asks for along an axis: all of the space it is
    /// fitted into, and otherwise its preferred length of `100.0`.
    pub fn measure(&self, len_req: LenReq) -> (length: F64)
        ensures
            length == surface_length(len_req),
    {
        match len_req {
            LenReq::FitContent(space) => space,
            _ => F64(F64_HUNDRED),
        }
    }

    /// The surface is painted by the host, as an external layer.
    pub fn paint_layer_mode(&self) -> (mode: PaintLayerMode)
        ensures
            mode == PaintLayerMode::External,
    {
        PaintLayerMode::External
    }

    /// The text shown in debugging output: the alt text.
    pub fn get_debug_text(&self) -> (text: Option<String>)
        ensures
            text == self.alt_text,
    {
        match &self.alt_text {
            Some(t) => Some(t.clone()),
            None => None,
        }
    }
}

impl Default for ExternalSurface {
    /// A surface without alt text.
    fn default() -> (surface: Self)
        ensures
            surface.alt_text.is_none(),
    {
        ExternalSurface { alt_text: None }
    }
}

impl ExternalSurface {
    /// The role the widget reports to accessibility.
    pub fn accessibility_role(&self) -> (role: AccessRole)
        ensures
            role == AccessRole::Canvas,
    {
        AccessRole::Canvas
    }
}

} // verus!
