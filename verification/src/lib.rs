//! A library of GUI widgets: their state, what they do when the user acts
//! on them, what they ask of the framework when they change (a new layout,
//! a repaint, an accessibility update, a change of children), and the
//! decisions they take at layout and paint time that do not compute with
//! floating-point values.
//!
//! Each widget is a plain struct whose fields are its state; its children are
//! held in [`widget::WidgetPod`]s. An operation that changes a widget mounted
//! in a tree takes it as `this: &mut Self` and records its requests to the
//! framework in the widget's `requests` list; event handlers take an
//! [`widget::EventCtx`] describing the widget's situation and collecting the
//! actions it submits. Floating-point values (sizes, lengths, factors) are
//! carried by their IEEE-754 bit patterns ([`widget::F64`]).

use vstd::prelude::*;

pub mod widget;
pub mod format;
pub mod pagination;
pub mod grid;
pub mod label;
pub mod button;
pub mod indexed_stack;
pub mod badge;
pub mod badged;
pub mod button9;
pub mod checkbox;
pub mod radio_group;
pub mod radio_button;
pub mod disclosure_button;
pub mod selector;
pub mod selector_item;
pub mod content_host;
pub mod passthrough;
pub mod root_widget;
pub mod canvas;
pub mod external_surface;
pub mod sized_box;
pub mod prose;
pub mod layout_observer;
pub mod resize_observer;
pub mod divider;
pub mod flex;
pub mod clip;
pub mod collapse_panel;
pub mod list;
pub mod align;
pub mod image;
pub mod split;
pub mod stack;
pub mod progress_bar;
pub mod portal;
pub mod scroll_bar;
pub mod spinner;
pub mod slider;

verus! {

} // verus!
