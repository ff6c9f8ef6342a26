//! Clip: a container that clips its child to its own layout rectangle.

use vstd::prelude::*;
use vstd::string::StringExecFns;
use crate::widget::{AccessRole, Request, Size, WidgetId, WidgetPod};

verus! {

/// A container widget that clips its child to its own layout rectangle, so
/// that the child neither paints nor receives pointer events outside of it.
pub struct Clip<W> {
    pub enabled: bool,
    pub child: WidgetPod<W>,
    pub requests: Vec<Request>,
}

impl<W> Clip<W> {
    /// Creates a new `Clip`, with clipping enabled.
    pub fn new(child: WidgetPod<W>) -> (clip: Self)
        ensures
            clip.enabled,
            clip.child == child,
            clip.requests@.len() == 0,
    {
        Clip { enabled: true, child, requests: Vec::new() }
    }

    /// Sets whether clipping is enabled.
    pub fn enabled(self, enabled: bool) -> (clip: Self)
        ensures
            clip == (Clip { enabled, ..self }),
    {
        Clip { enabled, ..self }
    }

    /// Sets whether clipping is enabled. Requests a new layout.
    pub fn set_enabled(this: &mut Self, enabled: bool)
        ensures
            final(this).enabled == enabled,
            final(this).child == old(this).child,
            final(this).requests@ == old(this).requests@.push(Request::Layout),
    {
        this.enabled = enabled;
        this.requests.push(Request::Layout);
    }

    /// Returns the child widget.
    pub fn child_mut(this: &mut Self) -> (child: &mut W)
        ensures
            *child == old(this).child.widget,
            final(this).child.widget == *final(child),
            final(this).child.id == old(this).child.id,
            final(this).enabled == old(this).enabled,
            final(this).requests == old(this).requests,
    {
        &mut this.child.widget
    }

    /// Replaces the child; the old one is removed from the tree.
    pub fn set_child(this: &mut Self, child: WidgetPod<W>)
        ensures
            final(this).child == child,
            final(this).enabled == old(this).enabled,
            final(this).requests@ == old(this).requests@.push(Request::RemoveChild),
    {
        this.child = child;
        this.requests.push(Request::RemoveChild);
    }

    /// The clip path set at layout for the given size: the rectangle of that
    /// size at the origin while clipping is enabled, and none otherwise.
    pub fn clip_path(&self, size: Size) -> (path: Option<Size>)
        ensures
            path == if self.enabled { Some(size) } else { None },
    {
        if self.enabled { Some(size) } else { None }
    }

    /// The identifier of the child.
    pub fn children_ids(&self) -> (ids: Vec<Option<WidgetId>>)
        ensures
            ids@ == seq![self.child.id],
    {
        let mut ids = Vec::new();
        ids.push(self.child.id);
        ids
    }

    /// The text shown in debugging output: `enabled` while clipping is enabled.
    pub fn get_debug_text(&self) -> (text: Option<String>)
        ensures
            self.enabled ==> text is Some && text->0@ == seq!['e', 'n', 'a', 'b', 'l', 'e', 'd'],
            !self.enabled ==> text is None,
    {
        proof { reveal_strlit("enabled"); }
        if self.enabled { Some(String::from_str("enabled")) } else { None }
    }
}

impl<W> Clip<W> {
    /// The role the widget reports to accessibility.
    pub fn accessibility_role(&self) -> (role: AccessRole)
        ensures
            role == AccessRole::GenericContainer,
    {
        AccessRole::GenericContainer
    }
}

} // verus!
