//! SizedBox: a container with an explicit width and height, or the size of its child.

use vstd::prelude::*;
use crate::widget::{AccessRole, Axis, Length, Request, WidgetId, WidgetPod};

verus! {

/// A widget with bi-directional size enforcement: it has an explicit width
/// and height where they are set, and adopts the size of its child (or zero,
/// without a child) where they are not. Whatever size it gets, it gives to
/// its child, shrunk by its border and padding.
pub struct SizedBox<W> {
    pub child: Option<WidgetPod<W>>,
    /// The explicit width; `None` adopts the width of the child.
    pub width: Option<Length>,
    /// The explicit height; `None` adopts the height of the child.
    pub height: Option<Length>,
    pub requests: Vec<Request>,
}

impl<W> SizedBox<W> {
    /// Creates a container with a child, with width and height unset.
    pub fn new(child: WidgetPod<W>) -> (b: Self)
        ensures
            b.child == Some(child),
            b.width.is_none(),
            b.height.is_none(),
            b.requests@.len() == 0,
    {
        SizedBox { child: Some(child), width: None, height: None, requests: Vec::new() }
    }

    /// Creates a container without a child, with width and height unset.
    pub fn empty() -> (b: Self)
        ensures
            b.child.is_none(),
            b.width.is_none(),
            b.height.is_none(),
            b.requests@.len() == 0,
    {
        SizedBox { child: None, width: None, height: None, requests: Vec::new() }
    }

    /// Returns the container with `width`.
    pub fn width(self, width: Length) -> (b: Self)
        ensures
            b == (SizedBox { width: Some(width), ..self }),
    {
        SizedBox { width: Some(width), ..self }
    }

    /// Returns the container with `height`.
    pub fn height(self, height: Length) -> (b: Self)
        ensures
            b == (SizedBox { height: Some(height), ..self }),
    {
        SizedBox { height: Some(height), ..self }
    }

    /// Returns the container with `width` and `height`.
    pub fn size(self, width: Length, height: Length) -> (b: Self)
        ensures
            b == (SizedBox { width: Some(width), height: Some(height), ..self }),
    {
        SizedBox { width: Some(width), height: Some(height), ..self }
    }

    /// Returns the container with `width`; `None` adopts the width of the child.
    pub fn raw_width(self, width: Option<Length>) -> (b: Self)
        ensures
            b == (SizedBox { width, ..self }),
    {
        SizedBox { width, ..self }
    }

    /// Returns the container with `height`; `None` adopts the height of the child.
    pub fn raw_height(self, height: Option<Length>) -> (b: Self)
        ensures
            b == (SizedBox { height, ..self }),
    {
        SizedBox { height, ..self }
    }

    /// Returns the explicit length along `axis`.
    pub fn length(&self, axis: Axis) -> (length: Option<Length>)
        ensures
            length == match axis {
                Axis::Horizontal => self.width,
                Axis::Vertical => self.height,
            },
    {
        match axis {
            Axis::Horizontal => self.width,
            Axis::Vertical => self.height,
        }
    }

    /// Replaces the child; an old child is removed from the tree, and the
    /// set of children changes.
    pub fn set_child(this: &mut Self, child: WidgetPod<W>)
        ensures
            final(this).child == Some(child),
            final(this).width == old(this).width,
            final(this).height == old(this).height,
            final(this).requests@ == if old(this).child is Some {
                old(this).requests@.push(Request::RemoveChild).push(Request::ChildrenChanged)
            } else {
                old(this).requests@.push(Request::ChildrenChanged)
            },
    {
        if this.child.is_some() {
            this.requests.push(Request::RemoveChild);
        }
        this.child = Some(child);
        this.requests.push(Request::ChildrenChanged);
    }

    /// Removes the child from the tree, if there is one.
    pub fn remove_child(this: &mut Self)
        ensures
            final(this).child.is_none(),
            final(this).width == old(this).width,
            final(this).height == old(this).height,
            final(this).requests@ == if old(this).child is Some {
                old(this).requests@.push(Request::RemoveChild)
            } else {
                old(this).requests@
            },
    {
        if this.child.is_some() {
            this.child = None;
            this.requests.push(Request::RemoveChild);
        }
    }

    /// Sets the width. Requests a new layout.
    pub fn set_width(this: &mut Self, width: Length)
        ensures
            final(this).width == Some(width),
            final(this).height == old(this).height,
            final(this).child == old(this).child,
            final(this).requests@ == old(this).requests@.push(Request::Layout),
    {
        Self::set_raw_width(this, Some(width));
    }

    /// Sets the height. Requests a new layout.
    pub fn set_height(this: &mut Self, height: Length)
        ensures
            final(this).height == Some(height),
            final(this).width == old(this).width,
            final(this).child == old(this).child,
            final(this).requests@ == old(this).requests@.push(Request::Layout),
    {
        Self::set_raw_height(this, Some(height));
    }

    /// Sets the width and height. Requests a new layout.
    pub fn set_size(this: &mut Self, width: Length, height: Length)
        ensures
            final(this).width == Some(width),
            final(this).height == Some(height),
            final(this).child == old(this).child,
            final(this).requests@ == old(this).requests@.push(Request::Layout),
    {
        this.width = Some(width);
        this.height = Some(height);
        this.requests.push(Request::Layout);
    }

    /// Unsets the width. Requests a new layout.
    pub fn unset_width(this: &mut Self)
        ensures
            final(this).width.is_none(),
            final(this).height == old(this).height,
            final(this).child == old(this).child,
            final(this).requests@ == old(this).requests@.push(Request::Layout),
    {
        Self::set_raw_width(this, None);
    }

    /// Unsets the height. Requests a new layout.
    pub fn unset_height(this: &mut Self)
        ensures
            final(this).height.is_none(),
            final(this).width == old(this).width,
            final(this).child == old(this).child,
            final(this).requests@ == old(this).requests@.push(Request::Layout),
    {
        Self::set_raw_height(this, None);
    }

    /// Sets the width directly; `None` adopts the width of the child.
    /// Requests a new layout.
    pub fn set_raw_width(this: &mut Self, width: Option<Length>)
        ensures
            final(this).width == width,
            final(this).height == old(this).height,
            final(this).child == old(this).child,
            final(this).requests@ == old(this).requests@.push(Request::Layout),
    {
        this.width = width;
        this.requests.push(Request::Layout);
    }

    /// Sets the height directly; `None` adopts the height of the child.
    /// Requests a new layout.
    pub fn set_raw_height(this: &mut Self, height: Option<Length>)
        ensures
            final(this).height == height,
            final(this).width == old(this).width,
            final(this).child == old(this).child,
            final(this).requests@ == old(this).requests@.push(Request::Layout),
    {
        this.height = height;
        this.requests.push(Request::Layout);
    }

    /// Returns the child, if any.
    pub fn child_mut(this: &mut Self) -> (child: Option<&mut W>)
        ensures
            child is Some <==> old(this).child is Some,
            match child {
                Some(c) => {
                    &&& *c == old(this).child->0.widget
                    &&& final(this).child == Some(WidgetPod { id: old(this).child->0.id, widget: *final(c) })
                },
                None => final(this).child == old(this).child,
            },
            final(this).width == old(this).width,
            final(this).height == old(this).height,
            final(this).requests == old(this).requests,
    {
        match &mut this.child {
            Some(pod) => Some(&mut pod.widget),
            None => None,
        }
    }

    /// A sized box takes no part in pointer interaction.
    pub fn accepts_pointer_interaction(&self) -> (accepts: bool)
        ensures
            !accepts,
    {
        false
    }

    /// The identifier of the child, if any.
    pub fn children_ids(&self) -> (ids: Vec<Option<WidgetId>>)
        ensures
            ids@ == match self.child {
                Some(c) => seq![c.id],
                None => Seq::<Option<WidgetId>>::empty(),
            },
    {
        let mut ids = Vec::new();
        if let Some(c) = &self.child {
            ids.push(c.id);
        }
        ids
    }
}

impl<W> SizedBox<W> {
    /// The role the widget reports to accessibility.
    pub fn accessibility_role(&self) -> (role: AccessRole)
        ensures
            role == AccessRole::GenericContainer,
    {
        AccessRole::GenericContainer
    }
}

} // verus!
