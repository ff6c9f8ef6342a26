//! Image: a widget rendering a bitmap image, described by alt text.

use vstd::prelude::*;
use crate::widget::{AccessRole, Request};

verus! {

/// A widget that renders a bitmap image held as a brush `B`.
pub struct Image<B> {
    pub image_data: B,
    /// The text describing the image to screen readers.
    pub alt_text: Option<String>,
    pub requests: Vec<Request>,
}

impl<B> Image<B> {
    /// Creates an image widget from an image brush, without alt text.
    pub fn new(image_data: B) -> (image: Self)
        ensures
            image.image_data == image_data,
            image.alt_text.is_none(),
            image.requests@.len() == 0,
    {
        Image { image_data, alt_text: None, requests: Vec::new() }
    }

    /// Sets the text that describes the image to screen readers.
    pub fn with_alt_text(self, alt_text: &str) -> (image: Self)
        ensures
            image.image_data == self.image_data,
            image.alt_text is Some,
            image.alt_text->0@ == alt_text@,
            image.requests == self.requests,
    {
        Image { alt_text: Some(String::from_str(alt_text)), ..self }
    }

    /// Replaces the image brush. Requests a new layout.
    pub fn set_image_data(this: &mut Self, image_data: B)
        ensures
            final(this).image_data == image_data,
            final(this).alt_text == old(this).alt_text,
            final(this).requests@ == old(this).requests@.push(Request::Layout),
    {
        this.image_data = image_data;
        this.requests.push(Request::Layout);
    }

    /// Sets or clears the text that describes the image to screen readers.
    /// Requests an accessibility update.
    pub fn set_alt_text(this: &mut Self, alt_text: Option<&str>)
        ensures
            final(this).image_data == old(this).image_data,
            match alt_text {
                Some(t) => final(this).alt_text is Some && final(this).alt_text->0@ == t@,
                None => final(this).alt_text is None,
            },
            final(this).requests@ == old(this).requests@.push(Request::AccessibilityUpdate),
    {
        this.alt_text = match alt_text {
            Some(t) => Some(String::from_str(t)),
            None => None,
        };
        this.requests.push(Request::AccessibilityUpdate);
    }
}

impl<B> Image<B> {
    /// The role the widget reports to accessibility.
    pub fn accessibility_role(&self) -> (role: AccessRole)
        ensures
            role == AccessRole::Image,
    {
        AccessRole::Image
    }
}

} // verus!
