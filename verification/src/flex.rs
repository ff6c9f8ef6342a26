//! Flex: a container laying out its children in a row or a column, growing
//! flexible children into the free space. Its children are widgets, each
//! with flex parameters, and spacers.

use vstd::prelude::*;
use crate::widget::{AccessRole, 
    is_finite_bits, is_negative_bits, is_zero_bits, Axis, Length, Request, WidgetId, WidgetPod, F64,
};

verus! {

/// The initial size of a child of a flex container along the main axis,
/// before the remaining space is divided among the children by their flex
/// factors.
#[derive(Copy, Clone, Debug, PartialEq, Eq, Structural)]
pub enum FlexBasis {
    /// Determined by how the child wants to be sized: its defined size, or
    /// else its `MaxContent` length.
    Auto,
    /// Always zero, regardless of the child's sizing wishes.
    Zero,
}

impl Default for FlexBasis {
    /// Determined by the child.
    fn default() -> (basis: Self)
        ensures
            basis == FlexBasis::Auto,
    {
        FlexBasis::Auto
    }
}

/// How children are aligned across the main axis.
#[derive(Copy, Clone, Debug, PartialEq, Eq, Structural)]
pub enum CrossAxisAlignment {
    Start,
    Center,
    End,
    Baseline,
    Stretch,
}

/// How children are arranged along the main axis when there is free space.
#[derive(Copy, Clone, Debug, PartialEq, Eq, Structural)]
pub enum MainAxisAlignment {
    Start,
    Center,
    End,
    SpaceBetween,
    SpaceEvenly,
    SpaceAround,
}

/// Optional parameters of a child of a flex container: its flex factor
/// (finite and non-negative), its basis and its cross-axis alignment.
#[derive(Copy, Clone, Debug, Default, PartialEq, Eq, Structural)]
pub struct FlexParams {
    pub flex: F64,
    pub basis: Option<FlexBasis>,
    pub alignment: Option<CrossAxisAlignment>,
}

/// A flex factor is finite and not below zero.
pub open spec fn valid_flex(flex: F64) -> bool {
    is_finite_bits(flex.0) && !is_negative_bits(flex.0)
}

/// The basis in effect: the given one, or else `Auto` for a zero flex
/// factor and `Zero` for a flexible child.
pub open spec fn basis_in_effect(basis: Option<FlexBasis>, flex: F64) -> FlexBasis {
    match basis {
        Some(b) => b,
        None => if is_zero_bits(flex.0) { FlexBasis::Auto } else { FlexBasis::Zero },
    }
}

/// Returns the basis in effect for the given basis and flex factor.
pub fn effective_basis(basis: Option<FlexBasis>, flex: F64) -> (b: FlexBasis)
    ensures
        b == basis_in_effect(basis, flex),
{
    match basis {
        Some(b) => b,
        None => if (flex.0 & crate::widget::F64_MAGNITUDE_MASK) == 0 { FlexBasis::Auto } else { FlexBasis::Zero },
    }
}

/// Returns whether `flex` is a valid flex factor: finite and not below zero.
pub fn is_valid_flex(flex: F64) -> (valid: bool)
    ensures
        valid == valid_flex(flex),
{
    flex.is_finite() && !flex.is_negative()
}

impl FlexParams {
    /// Creates flex parameters; the flex factor must be finite and non-negative.
    pub fn new(flex: F64, basis: Option<FlexBasis>, alignment: Option<CrossAxisAlignment>) -> (p: Self)
        requires
            valid_flex(flex),
        ensures
            p == (FlexParams { flex, basis, alignment }),
    {
        FlexParams { flex, basis, alignment }
    }
}

impl From<F64> for FlexParams {
    /// The given flex factor, with no basis or alignment of its own. A
    /// conversion cannot refuse its input: a flex factor that is not finite
    /// and non-negative is taken as zero.
    fn from(flex: F64) -> (p: Self) {
        let flex = if is_valid_flex(flex) { flex } else { F64(0) };
        FlexParams { flex, basis: None, alignment: None }
    }
}

impl vstd::std_specs::convert::FromSpecImpl<F64> for FlexParams {
    open spec fn obeys_from_spec() -> bool {
        true
    }

    open spec fn from_spec(flex: F64) -> Self {
        FlexParams { flex: if valid_flex(flex) { flex } else { F64(0) }, basis: None, alignment: None }
    }
}

impl From<CrossAxisAlignment> for FlexParams {
    /// The given alignment, with a zero flex factor and no basis of its own.
    fn from(alignment: CrossAxisAlignment) -> (p: Self) {
        FlexParams { flex: F64(0), basis: None, alignment: Some(alignment) }
    }
}

impl vstd::std_specs::convert::FromSpecImpl<CrossAxisAlignment> for FlexParams {
    open spec fn obeys_from_spec() -> bool {
        true
    }

    open spec fn from_spec(alignment: CrossAxisAlignment) -> Self {
        FlexParams { flex: F64(0), basis: None, alignment: Some(alignment) }
    }
}

/// A child of a flex container: a widget with its parameters, or a spacer.
pub enum FlexChild<W> {
    Widget {
        widget: WidgetPod<W>,
        alignment: Option<CrossAxisAlignment>,
        flex: F64,
        basis: Option<FlexBasis>,
    },
    Spacer {
        flex: F64,
        basis: Length,
    },
}

/// The child holding `widget` with parameters `p`.
pub open spec fn widget_child<W>(p: FlexParams, widget: WidgetPod<W>) -> FlexChild<W> {
    FlexChild::Widget { widget, alignment: p.alignment, flex: p.flex, basis: p.basis }
}

/// A spacer of fixed length `len`.
pub open spec fn fixed_spacer<W>(len: Length) -> FlexChild<W> {
    FlexChild::Spacer { flex: F64(0), basis: len }
}

/// A flexible spacer with flex factor `flex` and a zero basis.
pub open spec fn flex_spacer<W>(flex: F64) -> FlexChild<W> {
    FlexChild::Spacer { flex, basis: Length(F64(0)) }
}

/// The requests of replacing `old` by a new child: an old widget is removed
/// from the tree, then `signal` is requested.
pub open spec fn replace_requests<W>(old: FlexChild<W>, signal: Request) -> Seq<Request> {
    if old is Widget { seq![Request::RemoveChild, signal] } else { seq![signal] }
}

/// The identifiers of the widgets among `children`, in order (spacers have none).
pub open spec fn widget_ids<W>(children: Seq<FlexChild<W>>) -> Seq<Option<WidgetId>>
    decreases children.len(),
{
    if children.len() == 0 {
        Seq::empty()
    } else {
        let rest = widget_ids(children.drop_last());
        match children.last() {
            FlexChild::Widget { widget, .. } => rest.push(widget.id),
            FlexChild::Spacer { .. } => rest,
        }
    }
}

impl<W> FlexChild<W> {
    /// Whether the child is a widget (not a spacer).
    pub fn is_widget(&self) -> (w: bool)
        ensures
            w == (*self is Widget),
    {
        match self {
            FlexChild::Widget { .. } => true,
            FlexChild::Spacer { .. } => false,
        }
    }
}

/// The child holding `widget` with parameters `params`.
fn new_child<W>(params: FlexParams, widget: WidgetPod<W>) -> (child: FlexChild<W>)
    ensures
        child == widget_child(params, widget),
{
    FlexChild::Widget { widget, alignment: params.alignment, flex: params.flex, basis: params.basis }
}

/// A container with either horizontal or vertical layout.
pub struct Flex<W> {
    pub direction: Axis,
    pub cross_alignment: CrossAxisAlignment,
    pub main_alignment: MainAxisAlignment,
    pub children: Vec<FlexChild<W>>,
    pub requests: Vec<Request>,
}

impl<W> Flex<W> {
    /// Creates a new container oriented along the given axis, centering its
    /// children across it and packing them at the start.
    pub fn for_axis(axis: Axis) -> (flex: Self)
        ensures
            flex.direction == axis,
            flex.cross_alignment == CrossAxisAlignment::Center,
            flex.main_alignment == MainAxisAlignment::Start,
            flex.children@.len() == 0,
            flex.requests@.len() == 0,
    {
        Flex {
            direction: axis,
            cross_alignment: CrossAxisAlignment::Center,
            main_alignment: MainAxisAlignment::Start,
            children: Vec::new(),
            requests: Vec::new(),
        }
    }

    /// Creates a new horizontal container.
    pub fn row() -> (flex: Self)
        ensures
            flex.direction == Axis::Horizontal,
            flex.cross_alignment == CrossAxisAlignment::Center,
            flex.main_alignment == MainAxisAlignment::Start,
            flex.children@.len() == 0,
            flex.requests@.len() == 0,
    {
        Self::for_axis(Axis::Horizontal)
    }

    /// Creates a new vertical container.
    pub fn column() -> (flex: Self)
        ensures
            flex.direction == Axis::Vertical,
            flex.cross_alignment == CrossAxisAlignment::Center,
            flex.main_alignment == MainAxisAlignment::Start,
            flex.children@.len() == 0,
            flex.requests@.len() == 0,
    {
        Self::for_axis(Axis::Vertical)
    }

    /// Sets the children's cross-axis alignment.
    pub fn cross_axis_alignment(self, alignment: CrossAxisAlignment) -> (flex: Self)
        ensures
            flex == (Flex { cross_alignment: alignment, ..self }),
    {
        Flex { cross_alignment: alignment, ..self }
    }

    /// Sets the children's main-axis alignment.
    pub fn main_axis_alignment(self, alignment: MainAxisAlignment) -> (flex: Self)
        ensures
            flex == (Flex { main_alignment: alignment, ..self }),
    {
        Flex { main_alignment: alignment, ..self }
    }

    /// Adds a non-flexible child.
    pub fn with_fixed(self, child: WidgetPod<W>) -> (flex: Self)
        ensures
            flex.children@ == self.children@.push(widget_child(FlexParams { flex: F64(0), basis: None, alignment: None }, child)),
            flex.direction == self.direction,
            flex.cross_alignment == self.cross_alignment,
            flex.main_alignment == self.main_alignment,
            flex.requests == self.requests,
    {
        let mut flex = self;
        flex.children.push(new_child(FlexParams { flex: F64(0), basis: None, alignment: None }, child));
        flex
    }

    /// Adds a child with the given parameters.
    pub fn with(self, child: WidgetPod<W>, params: FlexParams) -> (flex: Self)
        ensures
            flex.children@ == self.children@.push(widget_child(params, child)),
            flex.direction == self.direction,
            flex.cross_alignment == self.cross_alignment,
            flex.main_alignment == self.main_alignment,
            flex.requests == self.requests,
    {
        let mut flex = self;
        flex.children.push(new_child(params, child));
        flex
    }

    /// Adds a spacer of fixed length.
    pub fn with_fixed_spacer(self, len: Length) -> (flex: Self)
        ensures
            flex.children@ == self.children@.push(fixed_spacer(len)),
            flex.direction == self.direction,
            flex.cross_alignment == self.cross_alignment,
            flex.main_alignment == self.main_alignment,
            flex.requests == self.requests,
    {
        let mut flex = self;
        flex.children.push(FlexChild::Spacer { flex: F64(0), basis: len });
        flex
    }

    /// Adds a flexible spacer; its flex factor must be finite and non-negative.
    pub fn with_spacer(self, flex_factor: F64) -> (flex: Self)
        requires
            valid_flex(flex_factor),
        ensures
            flex.children@ == self.children@.push(flex_spacer(flex_factor)),
            flex.direction == self.direction,
            flex.cross_alignment == self.cross_alignment,
            flex.main_alignment == self.main_alignment,
            flex.requests == self.requests,
    {
        let mut flex = self;
        flex.children.push(FlexChild::Spacer { flex: flex_factor, basis: Length(F64(0)) });
        flex
    }

    /// Sets the direction. Requests a new layout.
    pub fn set_direction(this: &mut Self, direction: Axis)
        ensures
            *final(this) == (Flex { direction, requests: final(this).requests, ..*old(this) }),
            final(this).requests@ == old(this).requests@.push(Request::Layout),
    {
        this.direction = direction;
        this.requests.push(Request::Layout);
    }

    /// Sets the children's cross-axis alignment. Requests a new layout.
    pub fn set_cross_axis_alignment(this: &mut Self, alignment: CrossAxisAlignment)
        ensures
            *final(this) == (Flex { cross_alignment: alignment, requests: final(this).requests, ..*old(this) }),
            final(this).requests@ == old(this).requests@.push(Request::Layout),
    {
        this.cross_alignment = alignment;
        this.requests.push(Request::Layout);
    }

    /// Sets the children's main-axis alignment. Requests a new layout.
    pub fn set_main_axis_alignment(this: &mut Self, alignment: MainAxisAlignment)
        ensures
            *final(this) == (Flex { main_alignment: alignment, requests: final(this).requests, ..*old(this) }),
            final(this).requests@ == old(this).requests@.push(Request::Layout),
    {
        this.main_alignment = alignment;
        this.requests.push(Request::Layout);
    }

    /// Appends `child`, then requests `signal`.
    fn push_child(this: &mut Self, child: FlexChild<W>, signal: Request)
        ensures
            final(this).children@ == old(this).children@.push(child),
            final(this).direction == old(this).direction,
            final(this).cross_alignment == old(this).cross_alignment,
            final(this).main_alignment == old(this).main_alignment,
            final(this).requests@ == old(this).requests@.push(signal),
    {
        this.children.push(child);
        this.requests.push(signal);
    }

    /// Inserts `child` at `idx`, then requests `signal`.
    fn insert_child(this: &mut Self, idx: usize, child: FlexChild<W>, signal: Request)
        requires
            idx <= old(this).children@.len(),
        ensures
            final(this).children@ == old(this).children@.insert(idx as int, child),
            final(this).direction == old(this).direction,
            final(this).cross_alignment == old(this).cross_alignment,
            final(this).main_alignment == old(this).main_alignment,
            final(this).requests@ == old(this).requests@.push(signal),
    {
        this.children.insert(idx, child);
        this.requests.push(signal);
    }

    /// Replaces the child at `idx` by `child`: an old widget is removed from
    /// the tree, then `signal` is requested.
    fn replace_child(this: &mut Self, idx: usize, child: FlexChild<W>, signal: Request)
        requires
            idx < old(this).children@.len(),
        ensures
            final(this).children@ == old(this).children@.update(idx as int, child),
            final(this).direction == old(this).direction,
            final(this).cross_alignment == old(this).cross_alignment,
            final(this).main_alignment == old(this).main_alignment,
            final(this).requests@ == old(this).requests@ + replace_requests(old(this).children@[idx as int], signal),
    {
        let old_child = this.children.remove(idx);
        this.children.insert(idx, child);
        if old_child.is_widget() {
            this.requests.push(Request::RemoveChild);
        }
        this.requests.push(signal);
        assert(this.requests@ =~= old(this).requests@ + replace_requests(old(this).children@[idx as int], signal));
    }

    /// Adds a non-flexible child. Signals a change of children.
    pub fn add_fixed(this: &mut Self, child: WidgetPod<W>)
        ensures
            final(this).children@ == old(this).children@.push(widget_child(FlexParams { flex: F64(0), basis: None, alignment: None }, child)),
            final(this).direction == old(this).direction,
            final(this).cross_alignment == old(this).cross_alignment,
            final(this).main_alignment == old(this).main_alignment,
            final(this).requests@ == old(this).requests@.push(Request::ChildrenChanged),
    {
        Self::push_child(this, new_child(FlexParams { flex: F64(0), basis: None, alignment: None }, child), Request::ChildrenChanged);
    }

    /// Adds a spacer of fixed length. Requests a new layout.
    pub fn add_fixed_spacer(this: &mut Self, len: Length)
        ensures
            final(this).children@ == old(this).children@.push(fixed_spacer(len)),
            final(this).direction == old(this).direction,
            final(this).cross_alignment == old(this).cross_alignment,
            final(this).main_alignment == old(this).main_alignment,
            final(this).requests@ == old(this).requests@.push(Request::Layout),
    {
        Self::push_child(this, FlexChild::Spacer { flex: F64(0), basis: len }, Request::Layout);
    }

    /// Adds a flexible spacer; its flex factor must be finite and
    /// non-negative. Requests a new layout.
    pub fn add_spacer(this: &mut Self, flex: F64)
        requires
            valid_flex(flex),
        ensures
            final(this).children@ == old(this).children@.push(flex_spacer(flex)),
            final(this).direction == old(this).direction,
            final(this).cross_alignment == old(this).cross_alignment,
            final(this).main_alignment == old(this).main_alignment,
            final(this).requests@ == old(this).requests@.push(Request::Layout),
    {
        Self::push_child(this, FlexChild::Spacer { flex, basis: Length(F64(0)) }, Request::Layout);
    }

    /// Inserts a non-flexible child at `idx`. Signals a change of children.
    pub fn insert_fixed(this: &mut Self, idx: usize, child: WidgetPod<W>)
        requires
            idx <= old(this).children@.len(),
        ensures
            final(this).children@ == old(this).children@.insert(idx as int, widget_child(FlexParams { flex: F64(0), basis: None, alignment: None }, child)),
            final(this).direction == old(this).direction,
            final(this).cross_alignment == old(this).cross_alignment,
            final(this).main_alignment == old(this).main_alignment,
            final(this).requests@ == old(this).requests@.push(Request::ChildrenChanged),
    {
        Self::insert_child(this, idx, new_child(FlexParams { flex: F64(0), basis: None, alignment: None }, child), Request::ChildrenChanged);
    }

    /// Inserts a spacer of fixed length at `idx`. Requests a new layout.
    pub fn insert_fixed_spacer(this: &mut Self, idx: usize, len: Length)
        requires
            idx <= old(this).children@.len(),
        ensures
            final(this).children@ == old(this).children@.insert(idx as int, fixed_spacer(len)),
            final(this).direction == old(this).direction,
            final(this).cross_alignment == old(this).cross_alignment,
            final(this).main_alignment == old(this).main_alignment,
            final(this).requests@ == old(this).requests@.push(Request::Layout),
    {
        Self::insert_child(this, idx, FlexChild::Spacer { flex: F64(0), basis: len }, Request::Layout);
    }

    /// Inserts a flexible spacer at `idx`; its flex factor must be finite and
    /// non-negative. Requests a new layout.
    pub fn insert_spacer(this: &mut Self, idx: usize, flex: F64)
        requires
            idx <= old(this).children@.len(),
            valid_flex(flex),
        ensures
            final(this).children@ == old(this).children@.insert(idx as int, flex_spacer(flex)),
            final(this).direction == old(this).direction,
            final(this).cross_alignment == old(this).cross_alignment,
            final(this).main_alignment == old(this).main_alignment,
            final(this).requests@ == old(this).requests@.push(Request::Layout),
    {
        Self::insert_child(this, idx, FlexChild::Spacer { flex, basis: Length(F64(0)) }, Request::Layout);
    }

    /// Replaces the child at `idx` by a non-flexible child; an old widget is
    /// removed from the tree. Signals a change of children.
    pub fn set_fixed(this: &mut Self, idx: usize, child: WidgetPod<W>)
        requires
            idx < old(this).children@.len(),
        ensures
            final(this).children@ == old(this).children@.update(idx as int, widget_child(FlexParams { flex: F64(0), basis: None, alignment: None }, child)),
            final(this).direction == old(this).direction,
            final(this).cross_alignment == old(this).cross_alignment,
            final(this).main_alignment == old(this).main_alignment,
            final(this).requests@ == old(this).requests@ + replace_requests(old(this).children@[idx as int], Request::ChildrenChanged),
    {
        Self::replace_child(this, idx, new_child(FlexParams { flex: F64(0), basis: None, alignment: None }, child), Request::ChildrenChanged);
    }

    /// Replaces the child at `idx` by a spacer of fixed length; an old widget
    /// is removed from the tree. Requests a new layout.
    pub fn set_fixed_spacer(this: &mut Self, idx: usize, len: Length)
        requires
            idx < old(this).children@.len(),
        ensures
            final(this).children@ == old(this).children@.update(idx as int, fixed_spacer(len)),
            final(this).direction == old(this).direction,
            final(this).cross_alignment == old(this).cross_alignment,
            final(this).main_alignment == old(this).main_alignment,
            final(this).requests@ == old(this).requests@ + replace_requests(old(this).children@[idx as int], Request::Layout),
    {
        Self::replace_child(this, idx, FlexChild::Spacer { flex: F64(0), basis: len }, Request::Layout);
    }

    /// Replaces the child at `idx` by a flexible spacer, whose flex factor must
    /// be finite and non-negative; an old widget is removed from the tree.
    /// Requests a new layout.
    pub fn set_spacer(this: &mut Self, idx: usize, flex: F64)
        requires
            idx < old(this).children@.len(),
            valid_flex(flex),
        ensures
            final(this).children@ == old(this).children@.update(idx as int, flex_spacer(flex)),
            final(this).direction == old(this).direction,
            final(this).cross_alignment == old(this).cross_alignment,
            final(this).main_alignment == old(this).main_alignment,
            final(this).requests@ == old(this).requests@ + replace_requests(old(this).children@[idx as int], Request::Layout),
    {
        Self::replace_child(this, idx, FlexChild::Spacer { flex, basis: Length(F64(0)) }, Request::Layout);
    }

    /// Returns the number of children, widgets and spacers.
    pub fn len(&self) -> (n: usize)
        ensures
            n == self.children@.len(),
    {
        self.children.len()
    }

    /// Returns `true` if there are no children, widgets or spacers.
    pub fn is_empty(&self) -> (empty: bool)
        ensures
            empty == (self.children@.len() == 0),
    {
        self.children.len() == 0
    }

    /// Returns the widget at `idx`, which must not be a spacer.
    pub fn get_mut(this: &mut Self, idx: usize) -> (child: &mut W)
        requires
            idx < old(this).children@.len(),
            old(this).children@[idx as int] is Widget,
        ensures
            *child == old(this).children@[idx as int]->Widget_widget.widget,
            final(this).children@.len() == old(this).children@.len(),
            forall|j: int| 0 <= j < old(this).children@.len() && j != idx ==>
                #[trigger] final(this).children@[j] == old(this).children@[j],
            match old(this).children@[idx as int] {
                FlexChild::Widget { widget, alignment, flex, basis } =>
                    final(this).children@[idx as int] == (FlexChild::Widget {
                        widget: WidgetPod { id: widget.id, widget: *final(child) },
                        alignment,
                        flex,
                        basis,
                    }),
                FlexChild::Spacer { .. } => false,
            },
            final(this).direction == old(this).direction,
            final(this).cross_alignment == old(this).cross_alignment,
            final(this).main_alignment == old(this).main_alignment,
            final(this).requests == old(this).requests,
    {
        match &mut this.children[idx] {
            FlexChild::Widget { widget, .. } => &mut widget.widget,
            FlexChild::Spacer { .. } => vstd::pervasive::unreached(),
        }
    }

    /// Appends a child with the given parameters. Signals a change of children.
    pub fn add(this: &mut Self, child: WidgetPod<W>, params: FlexParams)
        ensures
            final(this).children@ == old(this).children@.push(widget_child(params, child)),
            final(this).direction == old(this).direction,
            final(this).cross_alignment == old(this).cross_alignment,
            final(this).main_alignment == old(this).main_alignment,
            final(this).requests@ == old(this).requests@.push(Request::ChildrenChanged),
    {
        Self::push_child(this, new_child(params, child), Request::ChildrenChanged);
    }

    /// Inserts a child with the given parameters at `idx`. Signals a change of children.
    pub fn insert(this: &mut Self, idx: usize, child: WidgetPod<W>, params: FlexParams)
        requires
            idx <= old(this).children@.len(),
        ensures
            final(this).children@ == old(this).children@.insert(idx as int, widget_child(params, child)),
            final(this).direction == old(this).direction,
            final(this).cross_alignment == old(this).cross_alignment,
            final(this).main_alignment == old(this).main_alignment,
            final(this).requests@ == old(this).requests@.push(Request::ChildrenChanged),
    {
        Self::insert_child(this, idx, new_child(params, child), Request::ChildrenChanged);
    }

    /// Replaces the child at `idx` by a child with the given parameters; an
    /// old widget is removed from the tree. Signals a change of children.
    pub fn set(this: &mut Self, idx: usize, child: WidgetPod<W>, params: FlexParams)
        requires
            idx < old(this).children@.len(),
        ensures
            final(this).children@ == old(this).children@.update(idx as int, widget_child(params, child)),
            final(this).direction == old(this).direction,
            final(this).cross_alignment == old(this).cross_alignment,
            final(this).main_alignment == old(this).main_alignment,
            final(this).requests@ == old(this).requests@ + replace_requests(old(this).children@[idx as int], Request::ChildrenChanged),
    {
        Self::replace_child(this, idx, new_child(params, child), Request::ChildrenChanged);
    }

    /// Sets the parameters of the widget at `idx`, which must not be a
    /// spacer. Signals a change of children.
    pub fn set_params(this: &mut Self, idx: usize, params: FlexParams)
        requires
            idx < old(this).children@.len(),
            old(this).children@[idx as int] is Widget,
        ensures
            final(this).children@ == old(this).children@.update(
                idx as int,
                widget_child(params, old(this).children@[idx as int]->Widget_widget),
            ),
            final(this).direction == old(this).direction,
            final(this).cross_alignment == old(this).cross_alignment,
            final(this).main_alignment == old(this).main_alignment,
            final(this).requests@ == old(this).requests@.push(Request::ChildrenChanged),
    {
        let old_child = this.children.remove(idx);
        match old_child {
            FlexChild::Widget { widget, .. } => {
                this.children.insert(idx, new_child(params, widget));
            },
            FlexChild::Spacer { .. } => {
                assert(false);
            },
        }
        this.requests.push(Request::ChildrenChanged);
    }

    /// Swaps the children at `a` and `b`. Signals a change of children.
    pub fn swap(this: &mut Self, a: usize, b: usize)
        requires
            a < old(this).children@.len(),
            b < old(this).children@.len(),
        ensures
            final(this).children@ == old(this).children@
                .update(a as int, old(this).children@[b as int])
                .update(b as int, old(this).children@[a as int]),
            final(this).direction == old(this).direction,
            final(this).cross_alignment == old(this).cross_alignment,
            final(this).main_alignment == old(this).main_alignment,
            final(this).requests@ == old(this).requests@.push(Request::ChildrenChanged),
    {
        if a != b {
            let (lo, hi) = if a < b { (a, b) } else { (b, a) };
            let child_hi = this.children.remove(hi);
            let child_lo = this.children.remove(lo);
            this.children.insert(lo, child_hi);
            this.children.insert(hi, child_lo);
        }
        this.requests.push(Request::ChildrenChanged);
    }

    /// Removes the child at `idx`: a widget is removed from the tree; for a
    /// spacer, a new layout is requested.
    pub fn remove(this: &mut Self, idx: usize)
        requires
            idx < old(this).children@.len(),
        ensures
            final(this).children@ == old(this).children@.remove(idx as int),
            final(this).direction == old(this).direction,
            final(this).cross_alignment == old(this).cross_alignment,
            final(this).main_alignment == old(this).main_alignment,
            final(this).requests@ == old(this).requests@.push(
                if old(this).children@[idx as int] is Widget { Request::RemoveChild } else { Request::Layout },
            ),
    {
        let child = this.children.remove(idx);
        if child.is_widget() {
            this.requests.push(Request::RemoveChild);
        } else {
            this.requests.push(Request::Layout);
        }
    }

    /// Removes all children: the widgets are removed from the tree, then a new
    /// layout is requested. An empty container is left as it is.
    pub fn clear(this: &mut Self)
        ensures
            final(this).children@.len() == 0,
            final(this).direction == old(this).direction,
            final(this).cross_alignment == old(this).cross_alignment,
            final(this).main_alignment == old(this).main_alignment,
            final(this).requests@ == if old(this).children@.len() == 0 {
                old(this).requests@
            } else {
                old(this).requests@
                    + Seq::new(widget_ids(old(this).children@).len(), |i: int| Request::RemoveChild)
                    .push(Request::Layout)
            },
    {
        if this.children.len() == 0 {
            return;
        }
        let ghost r0 = this.requests@;
        let ghost all = this.children@;
        let mut rest: Vec<FlexChild<W>> = Vec::new();
        std::mem::swap(&mut rest, &mut this.children);
        let n = rest.len();
        let mut k: usize = 0;
        while rest.len() > 0
            invariant
                all.len() == n,
                this.children@.len() == 0,
                this.direction == old(this).direction,
                this.cross_alignment == old(this).cross_alignment,
                this.main_alignment == old(this).main_alignment,
                k + rest@.len() == all.len(),
                rest@ == all.skip(k as int),
                this.requests@ == r0 + Seq::new(widget_ids(all.take(k as int)).len(), |i: int| Request::RemoveChild),
            decreases rest.len(),
        {
            let child = rest.remove(0);
            proof {
                assert(all.take(k + 1).drop_last() == all.take(k as int));
                assert(all.take(k + 1).last() == all[k as int]);
                assert(child == all[k as int]);
            }
            if child.is_widget() {
                this.requests.push(Request::RemoveChild);
            }
            k += 1;
            proof {
                assert(rest@ == all.skip(k as int));
                assert(this.requests@ =~= r0 + Seq::new(widget_ids(all.take(k as int)).len(), |i: int| Request::RemoveChild));
            }
        }
        assert(all.take(k as int) == all);
        this.requests.push(Request::Layout);
    }

    /// A flex container takes no part in pointer interaction.
    pub fn accepts_pointer_interaction(&self) -> (accepts: bool)
        ensures
            !accepts,
    {
        false
    }

    /// The identifiers of the widgets among the children, in order.
    pub fn children_ids(&self) -> (ids: Vec<Option<WidgetId>>)
        ensures
            ids@ == widget_ids(self.children@),
    {
        let mut ids = Vec::new();
        let mut i: usize = 0;
        while i < self.children.len()
            invariant
                i <= self.children@.len(),
                ids@ == widget_ids(self.children@.take(i as int)),
            decreases self.children.len() - i,
        {
            proof {
                assert(self.children@.take(i + 1).drop_last() == self.children@.take(i as int));
                assert(self.children@.take(i + 1).last() == self.children@[i as int]);
            }
            match &self.children[i] {
                FlexChild::Widget { widget, .. } => ids.push(widget.id),
                FlexChild::Spacer { .. } => {},
            }
            i += 1;
        }
        assert(self.children@.take(i as int) == self.children@);
        ids
    }
}

impl<W> Flex<W> {
    /// The role the widget reports to accessibility.
    pub fn accessibility_role(&self) -> (role: AccessRole)
        ensures
            role == AccessRole::GenericContainer,
    {
        AccessRole::GenericContainer
    }
}

} // verus!
