//! Badged: overlays a badge widget on a corner of some content.

use vstd::prelude::*;
use crate::widget::{AccessRole, f64_eq, Request, Vec2, WidgetId, WidgetPod, F64};

verus! {

/// Where a badge is placed relative to the content.
#[derive(Clone, Copy, Debug, PartialEq, Eq, Structural)]
pub enum BadgePlacement {
    /// Place the badge at the content's top-left corner.
    TopLeft,
    /// Place the badge at the content's top-right corner.
    TopRight,
    /// Place the badge at the content's bottom-left corner.
    BottomLeft,
    /// Place the badge at the content's bottom-right corner.
    BottomRight,
}

/// The corner of a content box of the given width and height that
/// `placement` names, as a point relative to the content's origin.
pub open spec fn anchor(placement: BadgePlacement, width: F64, height: F64) -> Vec2 {
    match placement {
        BadgePlacement::TopLeft => Vec2 { x: F64(0), y: F64(0) },
        BadgePlacement::TopRight => Vec2 { x: width, y: F64(0) },
        BadgePlacement::BottomLeft => Vec2 { x: F64(0), y: height },
        BadgePlacement::BottomRight => Vec2 { x: width, y: height },
    }
}

impl BadgePlacement {
    /// The corner of a content box of the given size that this placement names.
    pub fn resolve(self, width: F64, height: F64) -> (point: Vec2)
        ensures
            point == anchor(self, width, height),
    {
        match self {
            BadgePlacement::TopLeft => Vec2 { x: F64(0), y: F64(0) },
            BadgePlacement::TopRight => Vec2 { x: width, y: F64(0) },
            BadgePlacement::BottomLeft => Vec2 { x: F64(0), y: height },
            BadgePlacement::BottomRight => Vec2 { x: width, y: height },
        }
    }
}

/// A widget that overlays a badge widget on top of some content.
///
/// The size of the widget is that of its content; the badge does not take
/// part in layout and may overflow the content bounds.
pub struct Badged<C, B> {
    pub content: WidgetPod<C>,
    pub badge: Option<WidgetPod<B>>,
    pub placement: BadgePlacement,
    pub offset: Vec2,
    pub requests: Vec<Request>,
}

impl<C, B> Badged<C, B> {
    /// Creates a new `Badged` widget, with the badge centered on the content's
    /// top-right corner.
    pub fn new(content: WidgetPod<C>, badge: WidgetPod<B>) -> (badged: Self)
        ensures
            badged.content == content,
            badged.badge == Some(badge),
            badged.placement == BadgePlacement::TopRight,
            badged.offset == (Vec2 { x: F64(0), y: F64(0) }),
            badged.requests@.len() == 0,
    {
        Badged {
            content,
            badge: Some(badge),
            placement: BadgePlacement::TopRight,
            offset: Vec2::zero(),
            requests: Vec::new(),
        }
    }

    /// Creates a new `Badged` widget that may omit the badge entirely.
    pub fn new_optional(content: WidgetPod<C>, badge: Option<WidgetPod<B>>) -> (badged: Self)
        ensures
            badged.content == content,
            badged.badge == badge,
            badged.placement == BadgePlacement::TopRight,
            badged.offset == (Vec2 { x: F64(0), y: F64(0) }),
            badged.requests@.len() == 0,
    {
        Badged {
            content,
            badge,
            placement: BadgePlacement::TopRight,
            offset: Vec2::zero(),
            requests: Vec::new(),
        }
    }

    /// Returns whether a badge is currently present.
    pub fn has_badge(&self) -> (present: bool)
        ensures
            present == self.badge.is_some(),
    {
        self.badge.is_some()
    }

    /// Sets where the badge is placed relative to the content.
    pub fn with_badge_placement(self, placement: BadgePlacement) -> (badged: Self)
        ensures
            badged == (Badged { placement, ..self }),
    {
        Badged { placement, ..self }
    }

    /// Sets an additional offset applied after placing the badge.
    pub fn with_badge_offset(self, offset: Vec2) -> (badged: Self)
        ensures
            badged == (Badged { offset, ..self }),
    {
        Badged { offset, ..self }
    }

    /// Replaces the content widget; the old one is removed from the tree.
    pub fn set_content(this: &mut Self, content: WidgetPod<C>)
        ensures
            final(this).content == content,
            final(this).badge == old(this).badge,
            final(this).placement == old(this).placement,
            final(this).offset == old(this).offset,
            final(this).requests@ == old(this).requests@.push(Request::RemoveChild),
    {
        this.content = content;
        this.requests.push(Request::RemoveChild);
    }

    /// Replaces the badge widget. An old badge is removed from the tree;
    /// without one, the set of children changes.
    pub fn set_badge(this: &mut Self, badge: WidgetPod<B>)
        ensures
            final(this).badge == Some(badge),
            final(this).content == old(this).content,
            final(this).placement == old(this).placement,
            final(this).offset == old(this).offset,
            final(this).requests@ == old(this).requests@.push(
                if old(this).badge is Some { Request::RemoveChild } else { Request::ChildrenChanged },
            ),
    {
        let had_badge = this.badge.is_some();
        this.badge = Some(badge);
        if had_badge {
            this.requests.push(Request::RemoveChild);
        } else {
            this.requests.push(Request::ChildrenChanged);
        }
    }

    /// Sets where the badge is placed; a new placement requests a new layout.
    pub fn set_badge_placement(this: &mut Self, placement: BadgePlacement)
        ensures
            final(this).placement == placement,
            final(this).content == old(this).content,
            final(this).badge == old(this).badge,
            final(this).offset == old(this).offset,
            final(this).requests@ == if old(this).placement != placement {
                old(this).requests@.push(Request::Layout)
            } else {
                old(this).requests@
            },
    {
        if this.placement != placement {
            this.placement = placement;
            this.requests.push(Request::Layout);
        }
    }

    /// Sets the additional offset; an offset that compares unequal (as `f64`)
    /// to the current one replaces it and requests a new layout.
    pub fn set_badge_offset(this: &mut Self, offset: Vec2)
        ensures
            final(this).content == old(this).content,
            final(this).badge == old(this).badge,
            final(this).placement == old(this).placement,
            ({
                let same = f64_eq(old(this).offset.x, offset.x) && f64_eq(old(this).offset.y, offset.y);
                if same {
                    &&& final(this).offset == old(this).offset
                    &&& final(this).requests == old(this).requests
                } else {
                    &&& final(this).offset == offset
                    &&& final(this).requests@ == old(this).requests@.push(Request::Layout)
                }
            }),
    {
        if !this.offset.float_eq(offset) {
            this.offset = offset;
            this.requests.push(Request::Layout);
        }
    }

    /// Removes the badge entirely, if there is one.
    pub fn clear_badge(this: &mut Self)
        ensures
            final(this).badge.is_none(),
            final(this).content == old(this).content,
            final(this).placement == old(this).placement,
            final(this).offset == old(this).offset,
            final(this).requests@ == if old(this).badge is Some {
                old(this).requests@.push(Request::RemoveChild)
            } else {
                old(this).requests@
            },
    {
        if this.badge.is_some() {
            this.badge = None;
            this.requests.push(Request::RemoveChild);
        }
    }

    /// Returns the content widget.
    pub fn content_mut(this: &mut Self) -> (content: &mut C)
        ensures
            *content == old(this).content.widget,
            final(this).content.widget == *final(content),
            final(this).content.id == old(this).content.id,
            final(this).badge == old(this).badge,
            final(this).placement == old(this).placement,
            final(this).offset == old(this).offset,
            final(this).requests == old(this).requests,
    {
        &mut this.content.widget
    }

    /// Returns the badge widget, if there is one.
    pub fn badge_mut(this: &mut Self) -> (badge: Option<&mut B>)
        ensures
            badge is Some <==> old(this).badge is Some,
            match badge {
                Some(b) => {
                    &&& *b == old(this).badge->0.widget
                    &&& final(this).badge == Some(WidgetPod { id: old(this).badge->0.id, widget: *final(b) })
                },
                None => final(this).badge == old(this).badge,
            },
            final(this).content == old(this).content,
            final(this).placement == old(this).placement,
            final(this).offset == old(this).offset,
            final(this).requests == old(this).requests,
    {
        match &mut this.badge {
            Some(pod) => Some(&mut pod.widget),
            None => None,
        }
    }

    /// The identifiers of the content and, if present, of the badge.
    pub fn children_ids(&self) -> (ids: Vec<Option<WidgetId>>)
        ensures
            ids@ == match self.badge {
                Some(b) => seq![self.content.id, b.id],
                None => seq![self.content.id],
            },
    {
        let mut ids = Vec::new();
        ids.push(self.content.id);
        if let Some(b) = &self.badge {
            ids.push(b.id);
        }
        ids
    }
}

impl<C, B> Badged<C, B> {
    /// The role the widget reports to accessibility.
    pub fn accessibility_role(&self) -> (role: AccessRole)
        ensures
            role == AccessRole::GenericContainer,
    {
        AccessRole::GenericContainer
    }
}

} // verus!
