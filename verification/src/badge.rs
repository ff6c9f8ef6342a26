//! Badge: a non-interactive pill hosting a single child, typically a short
//! label or a numeric count.

use vstd::prelude::*;
use vstd::string::StringExecFns;
use crate::format::{decimal, to_decimal};
use crate::label::{kind_index, style_kind, Label, StyleKind, StyleProperty, TextAlign};
use crate::widget::{AccessRole, Request, UpdateEvent, WidgetId, WidgetPod};

verus! {

/// A non-interactive badge (pill) widget that hosts a single child.
pub struct Badge<W> {
    pub child: WidgetPod<W>,
    pub requests: Vec<Request>,
}

/// How a numeric badge count is formatted when it exceeds a maximum.
#[derive(Clone, Copy, Debug, PartialEq, Eq, Structural)]
pub enum BadgeCountOverflow {
    /// Always show the exact count value.
    Exact,
    /// If the count exceeds `max`, show `max` or `max+` depending on `show_plus`.
    Cap {
        /// The maximum value to display.
        max: u32,
        /// Whether to append a `+` when `count > max`.
        show_plus: bool,
    },
}

impl Default for BadgeCountOverflow {
    /// Caps the count at `99`, shown as `99+`.
    fn default() -> (overflow: Self)
        ensures
            overflow == (BadgeCountOverflow::Cap { max: 99, show_plus: true }),
    {
        BadgeCountOverflow::Cap { max: 99, show_plus: true }
    }
}

/// The font size of badge text, `12.0` as `f32` bits.
pub const BADGE_TEXT_SIZE: u32 = 0x4140_0000u32;

/// The bold font weight, `700.0` as `f32` bits.
pub const FONT_WEIGHT_BOLD: u32 = 0x442f_0000u32;

/// The text shown for `count` under the overflow rule `overflow`.
pub open spec fn count_text(count: u32, overflow: BadgeCountOverflow) -> Seq<char> {
    match overflow {
        BadgeCountOverflow::Exact => decimal(count as nat),
        BadgeCountOverflow::Cap { max, show_plus } => {
            if count > max {
                if show_plus {
                    decimal(max as nat).push('+')
                } else {
                    decimal(max as nat)
                }
            } else {
                decimal(count as nat)
            }
        },
    }
}

/// The styles of the label of a text badge: small bold text.
pub open spec fn badge_label_styles() -> Seq<StyleProperty> {
    seq![StyleProperty::FontSize(BADGE_TEXT_SIZE), StyleProperty::FontWeight(FONT_WEIGHT_BOLD)]
}

/// `badge` is a freshly made text badge showing `text`.
pub open spec fn is_text_badge(badge: Badge<Label>, text: Seq<char>) -> bool {
    &&& badge.child.id.is_none()
    &&& badge.child.widget.wf()
    &&& badge.child.widget.text@ == text
    &&& badge.child.widget.styles.props@ == badge_label_styles()
    &&& badge.child.widget.text_alignment == TextAlign::Start
    &&& badge.child.widget.hint
    &&& badge.child.widget.requests@.len() == 0
    &&& badge.requests@.len() == 0
}

impl<W> Badge<W> {
    /// Creates a new badge with the provided child.
    pub fn new(child: WidgetPod<W>) -> (badge: Self)
        ensures
            badge.child == child,
            badge.requests@.len() == 0,
    {
        Badge { child, requests: Vec::new() }
    }

    /// Replaces the child widget with a new one; the old one is removed from the tree.
    pub fn set_child(this: &mut Self, child: WidgetPod<W>)
        ensures
            final(this).child == child,
            final(this).requests@ == old(this).requests@.push(Request::RemoveChild),
    {
        this.child = child;
        this.requests.push(Request::RemoveChild);
    }

    /// Returns the child widget.
    pub fn child_mut(this: &mut Self) -> (child: &mut W)
        ensures
            *child == old(this).child.widget,
            final(this).child.widget == *final(child),
            final(this).child.id == old(this).child.id,
            final(this).requests == old(this).requests,
    {
        &mut this.child.widget
    }

    /// A change of the disabled state repaints the badge.
    pub fn update(&mut self, event: UpdateEvent)
        ensures
            final(self).child == old(self).child,
            final(self).requests@ == if event is DisabledChanged {
                old(self).requests@.push(Request::PaintOnly)
            } else {
                old(self).requests@
            },
    {
        if let UpdateEvent::DisabledChanged(_) = event {
            self.requests.push(Request::PaintOnly);
        }
    }

    /// A badge is not interactive: it cannot be focused, and emits no action.
    pub fn accepts_focus(&self) -> (accepts: bool)
        ensures
            !accepts,
    {
        false
    }

    /// The identifier of the child.
    pub fn children_ids(&self) -> (ids: Vec<Option<WidgetId>>)
        ensures
            ids@ == seq![self.child.id],
    {
        let mut ids = Vec::new();
        ids.push(self.child.id);
        ids
    }
}

impl Badge<Label> {
    /// Creates a new badge containing a small, bold text label.
    pub fn with_text(text: &str) -> (badge: Self)
        ensures
            is_text_badge(badge, text@),
    {
        let label = Label::new(text);
        let label = label.with_style(StyleProperty::FontSize(BADGE_TEXT_SIZE));
        assert(label.styles.props@ == seq![StyleProperty::FontSize(BADGE_TEXT_SIZE)]);
        assert(kind_index(label.styles.props@, StyleKind::FontWeight) == -1) by {
            let s = label.styles.props@;
            assert(s.drop_last() =~= Seq::<StyleProperty>::empty());
            assert(kind_index(s.drop_last(), StyleKind::FontWeight) == -1);
            assert(style_kind(s.last()) == StyleKind::FontSize);
        }
        let label = label.with_style(StyleProperty::FontWeight(FONT_WEIGHT_BOLD));
        assert(label.styles.props@ == badge_label_styles());
        Badge::new(WidgetPod::new(label))
    }

    /// Creates a badge displaying a numeric count, capped at `99+`.
    pub fn count(count: u32) -> (badge: Self)
        ensures
            is_text_badge(badge, count_text(count, BadgeCountOverflow::Cap { max: 99, show_plus: true })),
    {
        Self::count_with_overflow(count, BadgeCountOverflow::default())
    }

    /// Creates a badge displaying a numeric count, with explicit overflow formatting.
    pub fn count_with_overflow(count: u32, overflow: BadgeCountOverflow) -> (badge: Self)
        ensures
            is_text_badge(badge, count_text(count, overflow)),
    {
        let text = match overflow {
            BadgeCountOverflow::Exact => to_decimal(count as u64),
            BadgeCountOverflow::Cap { max, show_plus } => {
                if count > max {
                    if show_plus {
                        let mut s = to_decimal(max as u64);
                        proof { reveal_strlit("+"); }
                        s.append("+");
                        assert(s@ =~= decimal(max as nat).push('+'));
                        s
                    } else {
                        to_decimal(max as u64)
                    }
                } else {
                    to_decimal(count as u64)
                }
            },
        };
        Self::with_text(text.as_str())
    }

    /// Creates a numeric badge only when `count` is non-zero.
    pub fn count_nonzero(count: u32) -> (badge: Option<Self>)
        ensures
            count == 0 ==> badge.is_none(),
            count != 0 ==> badge is Some && is_text_badge(
                badge->0,
                count_text(count, BadgeCountOverflow::Cap { max: 99, show_plus: true }),
            ),
    {
        if count != 0 {
            Some(Self::count(count))
        } else {
            None
        }
    }
}

impl<W> Badge<W> {
    /// The role the widget reports to accessibility.
    pub fn accessibility_role(&self) -> (role: AccessRole)
        ensures
            role == AccessRole::GenericContainer,
    {
        AccessRole::GenericContainer
    }
}

} // verus!
