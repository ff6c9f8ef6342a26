//! Divider: a line separating content, solid or dashed, possibly
//! interrupted by some content such as a label.

use vstd::prelude::*;
use crate::label::{Label, TextAlign};
use crate::widget::{AccessRole, Axis, Length, WidgetId, WidgetPod, F64};

verus! {

/// Describes the strategy how to display a dashed divider.
///
/// It has no effect on a solid line divider.
#[derive(Copy, Clone, Debug, PartialEq, Eq, Structural)]
pub enum DashFit {
    /// Clip the end edge: the start edge is flush with a dash, and the end
    /// edge may have a larger gap or a partially drawn dash.
    Clip,
    /// Stretch the inner gap sizes so that only whole dashes are shown; both
    /// edges are flush with dashes.
    Stretch,
    /// Draw only whole dashes aligned to the start; the end edge has a gap.
    Start,
    /// Draw only whole dashes aligned to the center; both edges have equally
    /// sized gaps.
    Center,
    /// Draw only whole dashes aligned to the end; the start edge has a gap.
    End,
}

impl Default for DashFit {
    /// Clipping the end edge.
    fn default() -> (fit: Self)
        ensures
            fit == DashFit::Clip,
    {
        DashFit::Clip
    }
}

/// Describes the strategy where to place the divider's content.
#[derive(Copy, Clone, Debug, PartialEq, Eq, Structural)]
pub enum Placement {
    /// Place the content at the start, with a single line after it until the end edge.
    Start,
    /// Place the content at the center, with a line on each side of it.
    Center,
    /// Place the content at the end, with a single line from the start until it.
    End,
}

impl Default for Placement {
    /// At the center.
    fn default() -> (placement: Self)
        ensures
            placement == Placement::Center,
    {
        Placement::Center
    }
}


/// The shape of the ends of a line.
#[derive(Copy, Clone, Debug, PartialEq, Eq, Structural)]
pub enum Cap {
    /// Flat, flush with the end point.
    Butt,
    /// Flat, extended past the end point by half the line's thickness.
    Square,
    /// Rounded.
    Round,
}

/// `5.0` as `f64` bits.
pub const F64_FIVE: u64 = 0x4014_0000_0000_0000u64;

/// The dash pattern kept for a requested one, which must have an even
/// number of lengths: a single length is doubled (dash and gap alike), and
/// an odd number of lengths loses its last one.
pub open spec fn kept_dash_pattern(pattern: Seq<Length>) -> Seq<Length> {
    if pattern.len() == 1 {
        pattern.push(pattern[0])
    } else {
        pattern
    }
}

/// A dash pattern a divider accepts: no length (a solid line), a single
/// length, or an even number of lengths.
pub open spec fn valid_dash_pattern(pattern: Seq<Length>) -> bool {
    pattern.len() <= 1 || pattern.len() % 2 == 0
}

/// `d` is a new divider along `axis`: a solid hairline with butt caps,
/// clipped dashes, centered and absent content, and a padding of `5.0`.
pub open spec fn is_new_divider<W>(d: Divider<W>, axis: Axis) -> bool {
    &&& d.axis == axis
    &&& d.thickness.is_none()
    &&& d.dash_fit == DashFit::Clip
    &&& d.dash_pattern@.len() == 0
    &&& d.start_cap == Cap::Butt
    &&& d.end_cap == Cap::Butt
    &&& d.placement == Placement::Center
    &&& d.content.is_none()
    &&& d.pad == Length(F64(F64_FIVE))
}

/// The kept dash pattern always has an even number of lengths, and keeping
/// it again changes nothing.
pub proof fn law_dash_pattern_even(pattern: Seq<Length>)
    requires
        valid_dash_pattern(pattern),
    ensures
        kept_dash_pattern(pattern).len() % 2 == 0,
        kept_dash_pattern(kept_dash_pattern(pattern)) == kept_dash_pattern(pattern),
        pattern.len() % 2 == 0 ==> kept_dash_pattern(pattern) == pattern,
{
}

/// A divider, a line separating content.
///
/// Without a set thickness, the line is a hairline (one device pixel).
pub struct Divider<W> {
    pub axis: Axis,
    pub thickness: Option<Length>,
    pub dash_fit: DashFit,
    pub dash_pattern: Vec<Length>,
    pub start_cap: Cap,
    pub end_cap: Cap,
    pub placement: Placement,
    pub content: Option<WidgetPod<W>>,
    /// The space between the line and the content.
    pub pad: Length,
}

impl<W> Divider<W> {
    /// Creates a solid hairline divider along the given axis, with butt caps,
    /// no content, and a padding of `5.0` around content.
    pub fn new(axis: Axis) -> (d: Self)
        ensures
            is_new_divider(d, axis),
    {
        Divider {
            axis,
            thickness: None,
            dash_fit: DashFit::default(),
            dash_pattern: Vec::new(),
            start_cap: Cap::Butt,
            end_cap: Cap::Butt,
            placement: Placement::default(),
            content: None,
            pad: Length(F64(F64_FIVE)),
        }
    }

    /// Creates a horizontal divider.
    pub fn horizontal() -> (d: Self)
        ensures
            is_new_divider(d, Axis::Horizontal),
    {
        Self::new(Axis::Horizontal)
    }

    /// Creates a vertical divider.
    pub fn vertical() -> (d: Self)
        ensures
            is_new_divider(d, Axis::Vertical),
    {
        Self::new(Axis::Vertical)
    }

    /// Sets the thickness of the line.
    pub fn thickness(self, thickness: Length) -> (d: Self)
        ensures
            d == (Divider { thickness: Some(thickness), ..self }),
    {
        Divider { thickness: Some(thickness), ..self }
    }

    /// Makes the line a hairline, one device pixel thick.
    pub fn hairline(self) -> (d: Self)
        ensures
            d == (Divider { thickness: None, ..self }),
    {
        Divider { thickness: None, ..self }
    }

    /// Sets how a dashed line fits its length.
    pub fn dash_fit(self, dash_fit: DashFit) -> (d: Self)
        ensures
            d == (Divider { dash_fit, ..self }),
    {
        Divider { dash_fit, ..self }
    }

    /// Sets the dash pattern, alternating dash and gap lengths: no length
    /// for a solid line, a single length used for both, or an even number
    /// of lengths.
    pub fn dash_pattern(self, dash_pattern: &[Length]) -> (d: Self)
        requires
            valid_dash_pattern(dash_pattern@),
        ensures
            d.dash_pattern@ == kept_dash_pattern(dash_pattern@),
            d.axis == self.axis,
            d.thickness == self.thickness,
            d.dash_fit == self.dash_fit,
            d.start_cap == self.start_cap,
            d.end_cap == self.end_cap,
            d.placement == self.placement,
            d.content == self.content,
            d.pad == self.pad,
    {
        let mut pattern: Vec<Length> = Vec::new();
        let mut i: usize = 0;
        while i < dash_pattern.len()
            invariant
                i <= dash_pattern@.len(),
                pattern@ == dash_pattern@.take(i as int),
            decreases dash_pattern.len() - i,
        {
            pattern.push(dash_pattern[i]);
            i += 1;
            assert(pattern@ == dash_pattern@.take(i as int));
        }
        assert(pattern@ == dash_pattern@);
        let len = pattern.len();
        if len == 1 {
            let first = pattern[0];
            pattern.push(first);
        }
        Divider { dash_pattern: pattern, ..self }
    }

    /// Sets the shape of both ends of the line.
    pub fn cap(self, cap: Cap) -> (d: Self)
        ensures
            d == (Divider { start_cap: cap, end_cap: cap, ..self }),
    {
        Divider { start_cap: cap, end_cap: cap, ..self }
    }

    /// Sets the shape of the start of the line.
    pub fn start_cap(self, cap: Cap) -> (d: Self)
        ensures
            d == (Divider { start_cap: cap, ..self }),
    {
        Divider { start_cap: cap, ..self }
    }

    /// Sets the shape of the end of the line.
    pub fn end_cap(self, cap: Cap) -> (d: Self)
        ensures
            d == (Divider { end_cap: cap, ..self }),
    {
        Divider { end_cap: cap, ..self }
    }

    /// Sets where the content goes along the line.
    pub fn placement(self, placement: Placement) -> (d: Self)
        ensures
            d == (Divider { placement, ..self }),
    {
        Divider { placement, ..self }
    }

    /// Sets the content interrupting the line.
    pub fn content(self, content: WidgetPod<W>) -> (d: Self)
        ensures
            d == (Divider { content: Some(content), ..self }),
    {
        Divider { content: Some(content), ..self }
    }

    /// Sets the space between the line and the content.
    pub fn pad(self, pad: Length) -> (d: Self)
        ensures
            d == (Divider { pad, ..self }),
    {
        Divider { pad, ..self }
    }

    /// The identifier of the content, if any.
    pub fn children_ids(&self) -> (ids: Vec<Option<WidgetId>>)
        ensures
            ids@ == match self.content {
                Some(c) => seq![c.id],
                None => Seq::<Option<WidgetId>>::empty(),
            },
    {
        let mut ids = Vec::new();
        if let Some(c) = &self.content {
            ids.push(c.id);
        }
        ids
    }
}

impl Divider<Label> {
    /// Sets a text label as the content interrupting the line.
    pub fn label(self, text: &str) -> (d: Self)
        ensures
            d.content is Some,
            d.content->0.id.is_none(),
            d.content->0.widget.text@ == text@,
            d.content->0.widget.wf(),
            d.content->0.widget.styles.props@ == Label::new_styles(),
            d.content->0.widget.text_alignment == TextAlign::Start,
            d.content->0.widget.hint,
            d.content->0.widget.requests@.len() == 0,
            d.axis == self.axis,
            d.thickness == self.thickness,
            d.dash_fit == self.dash_fit,
            d.dash_pattern == self.dash_pattern,
            d.start_cap == self.start_cap,
            d.end_cap == self.end_cap,
            d.placement == self.placement,
            d.pad == self.pad,
    {
        self.content(WidgetPod::new(Label::new(text)))
    }
}

impl<W> Divider<W> {
    /// The role the widget reports to accessibility.
    pub fn accessibility_role(&self) -> (role: AccessRole)
        ensures
            role == AccessRole::GenericContainer,
    {
        AccessRole::GenericContainer
    }
}

} // verus!
