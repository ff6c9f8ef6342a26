//! Prose: immutable text that can be selected, wrapping a text area.

use vstd::prelude::*;
use crate::widget::{AccessRole, Request, WidgetId, WidgetPod};

verus! {

/// Displays immutable text which can be selected (but not edited) by the
/// user. Most properties of the text are set on the wrapped text area `T`.
pub struct Prose<T> {
    pub text: WidgetPod<T>,
    /// Whether to clip the contained text to the available space.
    pub clip: bool,
    pub requests: Vec<Request>,
}

impl Prose<String> {
    /// Creates a new prose showing the given text, with default text properties.
    pub fn new(text: &str) -> (prose: Self)
        ensures
            prose.text.id.is_none(),
            prose.text.widget@ == text@,
            !prose.clip,
            prose.requests@.len() == 0,
    {
        Prose::from_text_area(WidgetPod::new(String::from_str(text)))
    }
}

impl<T> Prose<T> {
    /// Creates a new prose from a styled text area, without clipping.
    pub fn from_text_area(text: WidgetPod<T>) -> (prose: Self)
        ensures
            prose.text == text,
            !prose.clip,
            prose.requests@.len() == 0,
    {
        Prose { text, clip: false, requests: Vec::new() }
    }

    /// Sets whether to clip the text to the available space.
    pub fn with_clip(self, clip: bool) -> (prose: Self)
        ensures
            prose == (Prose { clip, ..self }),
    {
        Prose { clip, ..self }
    }

    /// Returns the pod of the text area, for its identifier.
    pub fn text_area_pod(&self) -> (pod: &WidgetPod<T>)
        ensures
            *pod == self.text,
    {
        &self.text
    }

    /// Returns the text area.
    pub fn text_mut(this: &mut Self) -> (text: &mut T)
        ensures
            *text == old(this).text.widget,
            final(this).text.widget == *final(text),
            final(this).text.id == old(this).text.id,
            final(this).clip == old(this).clip,
            final(this).requests == old(this).requests,
    {
        &mut this.text.widget
    }

    /// Sets whether to clip the text to the available space. Requests a new layout.
    pub fn set_clip(this: &mut Self, clip: bool)
        ensures
            final(this).clip == clip,
            final(this).text == old(this).text,
            final(this).requests@ == old(this).requests@.push(Request::Layout),
    {
        this.clip = clip;
        this.requests.push(Request::Layout);
    }

    /// The identifier of the text area.
    pub fn children_ids(&self) -> (ids: Vec<Option<WidgetId>>)
        ensures
            ids@ == seq![self.text.id],
    {
        let mut ids = Vec::new();
        ids.push(self.text.id);
        ids
    }
}

impl<T> Prose<T> {
    /// The role the widget reports to accessibility.
    pub fn accessibility_role(&self) -> (role: AccessRole)
        ensures
            role == AccessRole::GenericContainer,
    {
        AccessRole::GenericContainer
    }
}

} // verus!
