//! Button9: a button with up to nine text labels, one at each of the nine
//! positions of a three-by-three grid, each with its own padding.

use vstd::prelude::*;
use crate::button::ButtonPress;
use crate::label::{text_set, Label};
use crate::widget::{AccessRole, 
    AccessAction, EventCtx, Insets, MouseButton, PaintState, PointerInput, Request, UpdateEvent, WidgetId, WidgetPod, F64,
};

verus! {

/// The label positions of a `Button9`, from top left to bottom right.
///
/// The letter pairs name the row (`T` top, `H` middle, `L` low) and the
/// column (`L` left, `I` middle, `J` right); the digit numbers the positions
/// row by row from 1 to 9.
#[allow(non_camel_case_types)]
#[derive(Clone, Copy, Debug, PartialEq, Eq, Structural)]
pub enum LPos {
    TL1, TI2, TJ3,
    HL4, HI5, HJ6,
    LL7, LI8, LJ9,
}

impl LPos {
    /// The number of the position, from 1 (top left) to 9 (bottom right).
    pub fn number(self) -> (n: u8)
        ensures
            1 <= n <= 9,
            n == pos_number(self),
    {
        match self {
            LPos::TL1 => 1,
            LPos::TI2 => 2,
            LPos::TJ3 => 3,
            LPos::HL4 => 4,
            LPos::HI5 => 5,
            LPos::HJ6 => 6,
            LPos::LL7 => 7,
            LPos::LI8 => 8,
            LPos::LJ9 => 9,
        }
    }
}

/// The number of position `p`, from 1 (top left) to 9 (bottom right).
pub open spec fn pos_number(p: LPos) -> u8 {
    match p {
        LPos::TL1 => 1,
        LPos::TI2 => 2,
        LPos::TJ3 => 3,
        LPos::HL4 => 4,
        LPos::HI5 => 5,
        LPos::HJ6 => 6,
        LPos::LL7 => 7,
        LPos::LI8 => 8,
        LPos::LJ9 => 9,
    }
}

/// The nine label widgets of a `Button9`.
#[allow(non_snake_case)]
pub struct Label9 {
    pub TL1: WidgetPod<Label>,
    pub TI2: WidgetPod<Label>,
    pub TJ3: WidgetPod<Label>,
    pub HL4: WidgetPod<Label>,
    pub HI5: WidgetPod<Label>,
    pub HJ6: WidgetPod<Label>,
    pub LL7: WidgetPod<Label>,
    pub LI8: WidgetPod<Label>,
    pub LJ9: WidgetPod<Label>,
}

/// Optional padding per label, as insets.
#[allow(non_snake_case)]
#[derive(Clone, Copy, Debug, Default, PartialEq, Eq, Structural)]
pub struct Pad9 {
    pub TL1: Option<Insets>,
    pub TI2: Option<Insets>,
    pub TJ3: Option<Insets>,
    pub HL4: Option<Insets>,
    pub HI5: Option<Insets>,
    pub HJ6: Option<Insets>,
    pub LL7: Option<Insets>,
    pub LI8: Option<Insets>,
    pub LJ9: Option<Insets>,
}

/// Button options: the padding of each label.
#[derive(Clone, Copy, Debug, Default, PartialEq, Eq, Structural)]
pub struct LabelOpt {
    /// Per-label padding.
    pub pad: Pad9,
}

impl Label9 {
    /// The label at position `p`.
    pub open spec fn at(self, p: LPos) -> WidgetPod<Label> {
        match p {
            LPos::TL1 => self.TL1,
            LPos::TI2 => self.TI2,
            LPos::TJ3 => self.TJ3,
            LPos::HL4 => self.HL4,
            LPos::HI5 => self.HI5,
            LPos::HJ6 => self.HJ6,
            LPos::LL7 => self.LL7,
            LPos::LI8 => self.LI8,
            LPos::LJ9 => self.LJ9,
        }
    }

    /// These labels with the one at position `p` replaced by `pod`.
    pub open spec fn with_at(self, p: LPos, pod: WidgetPod<Label>) -> Label9 {
        match p {
            LPos::TL1 => Label9 { TL1: pod, ..self },
            LPos::TI2 => Label9 { TI2: pod, ..self },
            LPos::TJ3 => Label9 { TJ3: pod, ..self },
            LPos::HL4 => Label9 { HL4: pod, ..self },
            LPos::HI5 => Label9 { HI5: pod, ..self },
            LPos::HJ6 => Label9 { HJ6: pod, ..self },
            LPos::LL7 => Label9 { LL7: pod, ..self },
            LPos::LI8 => Label9 { LI8: pod, ..self },
            LPos::LJ9 => Label9 { LJ9: pod, ..self },
        }
    }
}

impl Pad9 {
    /// The padding of the label at position `p`.
    pub open spec fn at(self, p: LPos) -> Option<Insets> {
        match p {
            LPos::TL1 => self.TL1,
            LPos::TI2 => self.TI2,
            LPos::TJ3 => self.TJ3,
            LPos::HL4 => self.HL4,
            LPos::HI5 => self.HI5,
            LPos::HJ6 => self.HJ6,
            LPos::LL7 => self.LL7,
            LPos::LI8 => self.LI8,
            LPos::LJ9 => self.LJ9,
        }
    }

    /// This padding with that of position `p` replaced by `pad`.
    pub open spec fn with_at(self, p: LPos, pad: Option<Insets>) -> Pad9 {
        match p {
            LPos::TL1 => Pad9 { TL1: pad, ..self },
            LPos::TI2 => Pad9 { TI2: pad, ..self },
            LPos::TJ3 => Pad9 { TJ3: pad, ..self },
            LPos::HL4 => Pad9 { HL4: pad, ..self },
            LPos::HI5 => Pad9 { HI5: pad, ..self },
            LPos::HJ6 => Pad9 { HJ6: pad, ..self },
            LPos::LL7 => Pad9 { LL7: pad, ..self },
            LPos::LI8 => Pad9 { LI8: pad, ..self },
            LPos::LJ9 => Pad9 { LJ9: pad, ..self },
        }
    }
}

/// The padding added around a label without padding of its own: 8 left and
/// right, 2 top and bottom.
pub open spec fn default_pad() -> Insets {
    Insets { x0: F64(0x4020_0000_0000_0000), y0: F64(0x4000_0000_0000_0000), x1: F64(0x4020_0000_0000_0000), y1: F64(0x4000_0000_0000_0000) }
}

/// A color of the theme that a `Button9` paints with.
#[derive(Clone, Copy, Debug, PartialEq, Eq, Structural)]
pub enum ThemeColor {
    ButtonLight,
    ButtonDark,
    DisabledButtonLight,
    DisabledButtonDark,
    BorderLight,
    BorderDark,
}

/// What a `Button9` paints: a vertical gradient from the top color to the
/// bottom one, and a border.
#[derive(Clone, Copy, Debug, PartialEq, Eq, Structural)]
pub struct Button9Paint {
    pub top: ThemeColor,
    pub bottom: ThemeColor,
    pub border: ThemeColor,
}

/// A button with up to nine text labels, each with its own padding.
pub struct Button9 {
    /// The nine label widgets.
    pub label: Label9,
    /// The options of the labels.
    pub opt: LabelOpt,
    pub requests: Vec<Request>,
}

/// `pod` is a fresh label pod holding `label`.
pub open spec fn fresh(pod: WidgetPod<Label>, label: Label) -> bool {
    pod.id.is_none() && pod.widget == label
}

/// `label` is an empty label, as `Label::new("")` makes it.
pub open spec fn is_blank(label: Label) -> bool {
    &&& label.text@.len() == 0
    &&& label.wf()
    &&& label.styles.props@ == Label::new_styles()
    &&& label.text_alignment == crate::label::TextAlign::Start
    &&& label.hint
    &&& label.requests@.len() == 0
}

/// The padding that holds `pad` at the center and nothing elsewhere.
pub open spec fn center_pad(pad: Option<Insets>) -> Pad9 {
    Pad9 {
        TL1: None,
        TI2: None,
        TJ3: None,
        HL4: None,
        HI5: pad,
        HJ6: None,
        LL7: None,
        LI8: None,
        LJ9: None,
    }
}

impl Button9 {
    /// The default padding of a label that has none of its own.
    pub fn pad_def() -> (pad: Insets)
        ensures
            pad == default_pad(),
    {
        Insets { x0: F64(0x4020_0000_0000_0000), y0: F64(0x4000_0000_0000_0000), x1: F64(0x4020_0000_0000_0000), y1: F64(0x4000_0000_0000_0000) }
    }

    /// Creates a new button with a text label at the center; the other labels are blank.
    pub fn new(text: &str) -> (button: Self)
        ensures
            button.label.HI5.id.is_none(),
            button.label.HI5.widget.text@ == text@,
            button.label.HI5.widget.wf(),
            button.label.HI5.widget.styles.props@ == Label::new_styles(),
            forall|p: LPos| p != LPos::HI5 ==> fresh(#[trigger] button.label.at(p), button.label.at(p).widget)
                && is_blank(button.label.at(p).widget),
            button.opt.pad == center_pad(None),
            button.requests@.len() == 0,
    {
        Self::from_label(Label::new(text))
    }

    /// Creates a new button with the provided label at the center.
    pub fn from_label(label: Label) -> (button: Self)
        ensures
            fresh(button.label.HI5, label),
            forall|p: LPos| p != LPos::HI5 ==> fresh(#[trigger] button.label.at(p), button.label.at(p).widget)
                && is_blank(button.label.at(p).widget),
            button.opt.pad == center_pad(None),
            button.requests@.len() == 0,
    {
        Self::from_label_pad(label, None)
    }

    /// Creates a new button with the provided label and padding at the center.
    pub fn from_label_pad(lbl: Label, pad: Option<Insets>) -> (button: Self)
        ensures
            fresh(button.label.HI5, lbl),
            forall|p: LPos| p != LPos::HI5 ==> fresh(#[trigger] button.label.at(p), button.label.at(p).widget)
                && is_blank(button.label.at(p).widget),
            button.opt.pad == center_pad(pad),
            button.requests@.len() == 0,
    {
        let label = Label9 {
            TL1: WidgetPod::new(Label::new("")),
            TI2: WidgetPod::new(Label::new("")),
            TJ3: WidgetPod::new(Label::new("")),
            HL4: WidgetPod::new(Label::new("")),
            HI5: WidgetPod::new(lbl),
            HJ6: WidgetPod::new(Label::new("")),
            LL7: WidgetPod::new(Label::new("")),
            LI8: WidgetPod::new(Label::new("")),
            LJ9: WidgetPod::new(Label::new("")),
        };
        proof { reveal_strlit(""); }
        let pad = Pad9 {
            TL1: None,
            TI2: None,
            TJ3: None,
            HL4: None,
            HI5: pad,
            HJ6: None,
            LL7: None,
            LI8: None,
            LJ9: None,
        };
        Button9 { label, opt: LabelOpt { pad }, requests: Vec::new() }
    }

    /// Puts `label` with padding `pad` at position `idx`.
    pub fn addx(self, idx: LPos, label: Label, pad: Option<Insets>) -> (button: Self)
        ensures
            button.label == self.label.with_at(idx, WidgetPod { id: None, widget: label }),
            button.opt.pad == self.opt.pad.with_at(idx, pad),
            button.requests == self.requests,
    {
        let mut b = self;
        match idx {
            LPos::TL1 => { b.label.TL1 = WidgetPod::new(label); b.opt.pad.TL1 = pad; },
            LPos::TI2 => { b.label.TI2 = WidgetPod::new(label); b.opt.pad.TI2 = pad; },
            LPos::TJ3 => { b.label.TJ3 = WidgetPod::new(label); b.opt.pad.TJ3 = pad; },
            LPos::HL4 => { b.label.HL4 = WidgetPod::new(label); b.opt.pad.HL4 = pad; },
            LPos::HI5 => { b.label.HI5 = WidgetPod::new(label); b.opt.pad.HI5 = pad; },
            LPos::HJ6 => { b.label.HJ6 = WidgetPod::new(label); b.opt.pad.HJ6 = pad; },
            LPos::LL7 => { b.label.LL7 = WidgetPod::new(label); b.opt.pad.LL7 = pad; },
            LPos::LI8 => { b.label.LI8 = WidgetPod::new(label); b.opt.pad.LI8 = pad; },
            LPos::LJ9 => { b.label.LJ9 = WidgetPod::new(label); b.opt.pad.LJ9 = pad; },
        }
        b
    }

    /// Puts `label` with padding `pad` at the center.
    pub fn add(self, label: Label, pad: Option<Insets>) -> (button: Self)
        ensures
            button.label == self.label.with_at(LPos::HI5, WidgetPod { id: None, widget: label }),
            button.opt.pad == self.opt.pad.with_at(LPos::HI5, pad),
            button.requests == self.requests,
    {
        self.addx(LPos::HI5, label, pad)
    }

    /// Puts `label` with padding `pad` at position 1 (TL1).
    pub fn add1(self, label: Label, pad: Option<Insets>) -> (button: Self)
        ensures
            button.label == self.label.with_at(LPos::TL1, WidgetPod { id: None, widget: label }),
            button.opt.pad == self.opt.pad.with_at(LPos::TL1, pad),
            button.requests == self.requests,
    {
        self.addx(LPos::TL1, label, pad)
    }

    /// Puts `label` with padding `pad` at position 2 (TI2).
    pub fn add2(self, label: Label, pad: Option<Insets>) -> (button: Self)
        ensures
            button.label == self.label.with_at(LPos::TI2, WidgetPod { id: None, widget: label }),
            button.opt.pad == self.opt.pad.with_at(LPos::TI2, pad),
            button.requests == self.requests,
    {
        self.addx(LPos::TI2, label, pad)
    }

    /// Puts `label` with padding `pad` at position 3 (TJ3).
    pub fn add3(self, label: Label, pad: Option<Insets>) -> (button: Self)
        ensures
            button.label == self.label.with_at(LPos::TJ3, WidgetPod { id: None, widget: label }),
            button.opt.pad == self.opt.pad.with_at(LPos::TJ3, pad),
            button.requests == self.requests,
    {
        self.addx(LPos::TJ3, label, pad)
    }

    /// Puts `label` with padding `pad` at position 4 (HL4).
    pub fn add4(self, label: Label, pad: Option<Insets>) -> (button: Self)
        ensures
            button.label == self.label.with_at(LPos::HL4, WidgetPod { id: None, widget: label }),
            button.opt.pad == self.opt.pad.with_at(LPos::HL4, pad),
            button.requests == self.requests,
    {
        self.addx(LPos::HL4, label, pad)
    }

    /// Puts `label` with padding `pad` at position 5 (HI5).
    pub fn add5(self, label: Label, pad: Option<Insets>) -> (button: Self)
        ensures
            button.label == self.label.with_at(LPos::HI5, WidgetPod { id: None, widget: label }),
            button.opt.pad == self.opt.pad.with_at(LPos::HI5, pad),
            button.requests == self.requests,
    {
        self.addx(LPos::HI5, label, pad)
    }

    /// Puts `label` with padding `pad` at position 6 (HJ6).
    pub fn add6(self, label: Label, pad: Option<Insets>) -> (button: Self)
        ensures
            button.label == self.label.with_at(LPos::HJ6, WidgetPod { id: None, widget: label }),
            button.opt.pad == self.opt.pad.with_at(LPos::HJ6, pad),
            button.requests == self.requests,
    {
        self.addx(LPos::HJ6, label, pad)
    }

    /// Puts `label` with padding `pad` at position 7 (LL7).
    pub fn add7(self, label: Label, pad: Option<Insets>) -> (button: Self)
        ensures
            button.label == self.label.with_at(LPos::LL7, WidgetPod { id: None, widget: label }),
            button.opt.pad == self.opt.pad.with_at(LPos::LL7, pad),
            button.requests == self.requests,
    {
        self.addx(LPos::LL7, label, pad)
    }

    /// Puts `label` with padding `pad` at position 8 (LI8).
    pub fn add8(self, label: Label, pad: Option<Insets>) -> (button: Self)
        ensures
            button.label == self.label.with_at(LPos::LI8, WidgetPod { id: None, widget: label }),
            button.opt.pad == self.opt.pad.with_at(LPos::LI8, pad),
            button.requests == self.requests,
    {
        self.addx(LPos::LI8, label, pad)
    }

    /// Puts `label` with padding `pad` at position 9 (LJ9).
    pub fn add9(self, label: Label, pad: Option<Insets>) -> (button: Self)
        ensures
            button.label == self.label.with_at(LPos::LJ9, WidgetPod { id: None, widget: label }),
            button.opt.pad == self.opt.pad.with_at(LPos::LJ9, pad),
            button.requests == self.requests,
    {
        self.addx(LPos::LJ9, label, pad)
    }

    /// Creates a new button from nine label pods in reading order, with their
    /// padding: the pod of number `k` goes to position `k`.
    pub fn from_label_pod(label_l: Vec<WidgetPod<Label>>, pad: Pad9) -> (button: Self)
        requires
            label_l@.len() == 9,
        ensures
            button.label == (Label9 {
                TL1: label_l@[0], TI2: label_l@[1], TJ3: label_l@[2],
                HL4: label_l@[3], HI5: label_l@[4], HJ6: label_l@[5],
                LL7: label_l@[6], LI8: label_l@[7], LJ9: label_l@[8],
            }),
            button.opt.pad == pad,
            button.requests@.len() == 0,
    {
        let ghost pods = label_l@;
        let mut rest = label_l;
        let l9 = rest.pop().unwrap();
        let l8 = rest.pop().unwrap();
        let l7 = rest.pop().unwrap();
        let l6 = rest.pop().unwrap();
        let l5 = rest.pop().unwrap();
        let l4 = rest.pop().unwrap();
        let l3 = rest.pop().unwrap();
        let l2 = rest.pop().unwrap();
        let l1 = rest.pop().unwrap();
        let label = Label9 {
            TL1: l1, TI2: l2, TJ3: l3,
            HL4: l4, HI5: l5, HJ6: l6,
            LL7: l7, LI8: l8, LJ9: l9,
        };
        Button9 { label, opt: LabelOpt { pad }, requests: Vec::new() }
    }

    /// Returns the label at position `idx`.
    pub fn labelx_mut(this: &mut Self, idx: LPos) -> (label: &mut Label)
        ensures
            *label == old(this).label.at(idx).widget,
            final(this).label == old(this).label.with_at(
                idx,
                WidgetPod { id: old(this).label.at(idx).id, widget: *final(label) },
            ),
            final(this).opt == old(this).opt,
            final(this).requests == old(this).requests,
    {
        match idx {
            LPos::TL1 => &mut this.label.TL1.widget,
            LPos::TI2 => &mut this.label.TI2.widget,
            LPos::TJ3 => &mut this.label.TJ3.widget,
            LPos::HL4 => &mut this.label.HL4.widget,
            LPos::HI5 => &mut this.label.HI5.widget,
            LPos::HJ6 => &mut this.label.HJ6.widget,
            LPos::LL7 => &mut this.label.LL7.widget,
            LPos::LI8 => &mut this.label.LI8.widget,
            LPos::LJ9 => &mut this.label.LJ9.widget,
        }
    }

    /// Returns the label at the center.
    pub fn label_mut(this: &mut Self) -> (label: &mut Label)
        ensures
            *label == old(this).label.HI5.widget,
            final(this).label == old(this).label.with_at(
                LPos::HI5,
                WidgetPod { id: old(this).label.HI5.id, widget: *final(label) },
            ),
            final(this).opt == old(this).opt,
            final(this).requests == old(this).requests,
    {
        &mut this.label.HI5.widget
    }

    /// Returns the label at position 1 (TL1).
    pub fn label1_mut(this: &mut Self) -> (label: &mut Label)
        ensures
            *label == old(this).label.TL1.widget,
            final(this).label == old(this).label.with_at(
                LPos::TL1,
                WidgetPod { id: old(this).label.TL1.id, widget: *final(label) },
            ),
            final(this).opt == old(this).opt,
            final(this).requests == old(this).requests,
    {
        &mut this.label.TL1.widget
    }

    /// Returns the label at position 2 (TI2).
    pub fn label2_mut(this: &mut Self) -> (label: &mut Label)
        ensures
            *label == old(this).label.TI2.widget,
            final(this).label == old(this).label.with_at(
                LPos::TI2,
                WidgetPod { id: old(this).label.TI2.id, widget: *final(label) },
            ),
            final(this).opt == old(this).opt,
            final(this).requests == old(this).requests,
    {
        &mut this.label.TI2.widget
    }

    /// Returns the label at position 3 (TJ3).
    pub fn label3_mut(this: &mut Self) -> (label: &mut Label)
        ensures
            *label == old(this).label.TJ3.widget,
            final(this).label == old(this).label.with_at(
                LPos::TJ3,
                WidgetPod { id: old(this).label.TJ3.id, widget: *final(label) },
            ),
            final(this).opt == old(this).opt,
            final(this).requests == old(this).requests,
    {
        &mut this.label.TJ3.widget
    }

    /// Returns the label at position 4 (HL4).
    pub fn label4_mut(this: &mut Self) -> (label: &mut Label)
        ensures
            *label == old(this).label.HL4.widget,
            final(this).label == old(this).label.with_at(
                LPos::HL4,
                WidgetPod { id: old(this).label.HL4.id, widget: *final(label) },
            ),
            final(this).opt == old(this).opt,
            final(this).requests == old(this).requests,
    {
        &mut this.label.HL4.widget
    }

    /// Returns the label at position 5 (HI5).
    pub fn label5_mut(this: &mut Self) -> (label: &mut Label)
        ensures
            *label == old(this).label.HI5.widget,
            final(this).label == old(this).label.with_at(
                LPos::HI5,
                WidgetPod { id: old(this).label.HI5.id, widget: *final(label) },
            ),
            final(this).opt == old(this).opt,
            final(this).requests == old(this).requests,
    {
        &mut this.label.HI5.widget
    }

    /// Returns the label at position 6 (HJ6).
    pub fn label6_mut(this: &mut Self) -> (label: &mut Label)
        ensures
            *label == old(this).label.HJ6.widget,
            final(this).label == old(this).label.with_at(
                LPos::HJ6,
                WidgetPod { id: old(this).label.HJ6.id, widget: *final(label) },
            ),
            final(this).opt == old(this).opt,
            final(this).requests == old(this).requests,
    {
        &mut this.label.HJ6.widget
    }

    /// Returns the label at position 7 (LL7).
    pub fn label7_mut(this: &mut Self) -> (label: &mut Label)
        ensures
            *label == old(this).label.LL7.widget,
            final(this).label == old(this).label.with_at(
                LPos::LL7,
                WidgetPod { id: old(this).label.LL7.id, widget: *final(label) },
            ),
            final(this).opt == old(this).opt,
            final(this).requests == old(this).requests,
    {
        &mut this.label.LL7.widget
    }

    /// Returns the label at position 8 (LI8).
    pub fn label8_mut(this: &mut Self) -> (label: &mut Label)
        ensures
            *label == old(this).label.LI8.widget,
            final(this).label == old(this).label.with_at(
                LPos::LI8,
                WidgetPod { id: old(this).label.LI8.id, widget: *final(label) },
            ),
            final(this).opt == old(this).opt,
            final(this).requests == old(this).requests,
    {
        &mut this.label.LI8.widget
    }

    /// Returns the label at position 9 (LJ9).
    pub fn label9_mut(this: &mut Self) -> (label: &mut Label)
        ensures
            *label == old(this).label.LJ9.widget,
            final(this).label == old(this).label.with_at(
                LPos::LJ9,
                WidgetPod { id: old(this).label.LJ9.id, widget: *final(label) },
            ),
            final(this).opt == old(this).opt,
            final(this).requests == old(this).requests,
    {
        &mut this.label.LJ9.widget
    }

    /// Sets the text of the label at position `idx`.
    pub fn set_textx(this: &mut Self, idx: LPos, new_text: &str)
        ensures
            forall|q: LPos| q != idx ==> #[trigger] final(this).label.at(q) == old(this).label.at(q),
            final(this).label.at(idx).id == old(this).label.at(idx).id,
            text_set(old(this).label.at(idx).widget, final(this).label.at(idx).widget, new_text@),
            final(this).opt == old(this).opt,
            final(this).requests == old(this).requests,
    {
        Label::set_text(Self::labelx_mut(this, idx), new_text);
    }

    /// Sets the text of the label at the center.
    pub fn set_text(this: &mut Self, new_text: &str)
        ensures
            forall|q: LPos| q != LPos::HI5 ==> #[trigger] final(this).label.at(q) == old(this).label.at(q),
            final(this).label.HI5.id == old(this).label.HI5.id,
            text_set(old(this).label.HI5.widget, final(this).label.HI5.widget, new_text@),
            final(this).opt == old(this).opt,
            final(this).requests == old(this).requests,
    {
        Self::set_textx(this, LPos::HI5, new_text);
    }

    /// Sets the text of the label at position 1 (TL1).
    pub fn set_text1(this: &mut Self, new_text: &str)
        ensures
            forall|q: LPos| q != LPos::TL1 ==> #[trigger] final(this).label.at(q) == old(this).label.at(q),
            final(this).label.TL1.id == old(this).label.TL1.id,
            text_set(old(this).label.TL1.widget, final(this).label.TL1.widget, new_text@),
            final(this).opt == old(this).opt,
            final(this).requests == old(this).requests,
    {
        Self::set_textx(this, LPos::TL1, new_text);
    }

    /// Sets the text of the label at position 2 (TI2).
    pub fn set_text2(this: &mut Self, new_text: &str)
        ensures
            forall|q: LPos| q != LPos::TI2 ==> #[trigger] final(this).label.at(q) == old(this).label.at(q),
            final(this).label.TI2.id == old(this).label.TI2.id,
            text_set(old(this).label.TI2.widget, final(this).label.TI2.widget, new_text@),
            final(this).opt == old(this).opt,
            final(this).requests == old(this).requests,
    {
        Self::set_textx(this, LPos::TI2, new_text);
    }

    /// Sets the text of the label at position 3 (TJ3).
    pub fn set_text3(this: &mut Self, new_text: &str)
        ensures
            forall|q: LPos| q != LPos::TJ3 ==> #[trigger] final(this).label.at(q) == old(this).label.at(q),
            final(this).label.TJ3.id == old(this).label.TJ3.id,
            text_set(old(this).label.TJ3.widget, final(this).label.TJ3.widget, new_text@),
            final(this).opt == old(this).opt,
            final(this).requests == old(this).requests,
    {
        Self::set_textx(this, LPos::TJ3, new_text);
    }

    /// Sets the text of the label at position 4 (HL4).
    pub fn set_text4(this: &mut Self, new_text: &str)
        ensures
            forall|q: LPos| q != LPos::HL4 ==> #[trigger] final(this).label.at(q) == old(this).label.at(q),
            final(this).label.HL4.id == old(this).label.HL4.id,
            text_set(old(this).label.HL4.widget, final(this).label.HL4.widget, new_text@),
            final(this).opt == old(this).opt,
            final(this).requests == old(this).requests,
    {
        Self::set_textx(this, LPos::HL4, new_text);
    }

    /// Sets the text of the label at position 5 (HI5).
    pub fn set_text5(this: &mut Self, new_text: &str)
        ensures
            forall|q: LPos| q != LPos::HI5 ==> #[trigger] final(this).label.at(q) == old(this).label.at(q),
            final(this).label.HI5.id == old(this).label.HI5.id,
            text_set(old(this).label.HI5.widget, final(this).label.HI5.widget, new_text@),
            final(this).opt == old(this).opt,
            final(this).requests == old(this).requests,
    {
        Self::set_textx(this, LPos::HI5, new_text);
    }

    /// Sets the text of the label at position 6 (HJ6).
    pub fn set_text6(this: &mut Self, new_text: &str)
        ensures
            forall|q: LPos| q != LPos::HJ6 ==> #[trigger] final(this).label.at(q) == old(this).label.at(q),
            final(this).label.HJ6.id == old(this).label.HJ6.id,
            text_set(old(this).label.HJ6.widget, final(this).label.HJ6.widget, new_text@),
            final(this).opt == old(this).opt,
            final(this).requests == old(this).requests,
    {
        Self::set_textx(this, LPos::HJ6, new_text);
    }

    /// Sets the text of the label at position 7 (LL7).
    pub fn set_text7(this: &mut Self, new_text: &str)
        ensures
            forall|q: LPos| q != LPos::LL7 ==> #[trigger] final(this).label.at(q) == old(this).label.at(q),
            final(this).label.LL7.id == old(this).label.LL7.id,
            text_set(old(this).label.LL7.widget, final(this).label.LL7.widget, new_text@),
            final(this).opt == old(this).opt,
            final(this).requests == old(this).requests,
    {
        Self::set_textx(this, LPos::LL7, new_text);
    }

    /// Sets the text of the label at position 8 (LI8).
    pub fn set_text8(this: &mut Self, new_text: &str)
        ensures
            forall|q: LPos| q != LPos::LI8 ==> #[trigger] final(this).label.at(q) == old(this).label.at(q),
            final(this).label.LI8.id == old(this).label.LI8.id,
            text_set(old(this).label.LI8.widget, final(this).label.LI8.widget, new_text@),
            final(this).opt == old(this).opt,
            final(this).requests == old(this).requests,
    {
        Self::set_textx(this, LPos::LI8, new_text);
    }

    /// Sets the text of the label at position 9 (LJ9).
    pub fn set_text9(this: &mut Self, new_text: &str)
        ensures
            forall|q: LPos| q != LPos::LJ9 ==> #[trigger] final(this).label.at(q) == old(this).label.at(q),
            final(this).label.LJ9.id == old(this).label.LJ9.id,
            text_set(old(this).label.LJ9.widget, final(this).label.LJ9.widget, new_text@),
            final(this).opt == old(this).opt,
            final(this).requests == old(this).requests,
    {
        Self::set_textx(this, LPos::LJ9, new_text);
    }

    /// Sets the padding of the label at position `idx`. Requests a repaint
    /// with accessibility update.
    pub fn set_padx(this: &mut Self, idx: LPos, new_pad: Option<Insets>)
        ensures
            final(this).label == old(this).label,
            final(this).opt.pad == old(this).opt.pad.with_at(idx, new_pad),
            final(this).requests@ == old(this).requests@.push(Request::Render),
    {
        match idx {
            LPos::TL1 => { this.opt.pad.TL1 = new_pad; },
            LPos::TI2 => { this.opt.pad.TI2 = new_pad; },
            LPos::TJ3 => { this.opt.pad.TJ3 = new_pad; },
            LPos::HL4 => { this.opt.pad.HL4 = new_pad; },
            LPos::HI5 => { this.opt.pad.HI5 = new_pad; },
            LPos::HJ6 => { this.opt.pad.HJ6 = new_pad; },
            LPos::LL7 => { this.opt.pad.LL7 = new_pad; },
            LPos::LI8 => { this.opt.pad.LI8 = new_pad; },
            LPos::LJ9 => { this.opt.pad.LJ9 = new_pad; },
        }
        this.requests.push(Request::Render);
    }

    /// Sets the padding of the label at the center. Requests a repaint with
    /// accessibility update.
    pub fn set_opt(this: &mut Self, new_pad: Option<Insets>)
        ensures
            final(this).label == old(this).label,
            final(this).opt.pad == old(this).opt.pad.with_at(LPos::HI5, new_pad),
            final(this).requests@ == old(this).requests@.push(Request::Render),
    {
        Self::set_padx(this, LPos::HI5, new_pad);
    }

    /// Sets the padding of the label at position 1 (TL1). Requests a repaint
    /// with accessibility update.
    pub fn set_pad1(this: &mut Self, new_pad: Option<Insets>)
        ensures
            final(this).label == old(this).label,
            final(this).opt.pad == old(this).opt.pad.with_at(LPos::TL1, new_pad),
            final(this).requests@ == old(this).requests@.push(Request::Render),
    {
        Self::set_padx(this, LPos::TL1, new_pad);
    }

    /// Sets the padding of the label at position 2 (TI2). Requests a repaint
    /// with accessibility update.
    pub fn set_pad2(this: &mut Self, new_pad: Option<Insets>)
        ensures
            final(this).label == old(this).label,
            final(this).opt.pad == old(this).opt.pad.with_at(LPos::TI2, new_pad),
            final(this).requests@ == old(this).requests@.push(Request::Render),
    {
        Self::set_padx(this, LPos::TI2, new_pad);
    }

    /// Sets the padding of the label at position 3 (TJ3). Requests a repaint
    /// with accessibility update.
    pub fn set_pad3(this: &mut Self, new_pad: Option<Insets>)
        ensures
            final(this).label == old(this).label,
            final(this).opt.pad == old(this).opt.pad.with_at(LPos::TJ3, new_pad),
            final(this).requests@ == old(this).requests@.push(Request::Render),
    {
        Self::set_padx(this, LPos::TJ3, new_pad);
    }

    /// Sets the padding of the label at position 4 (HL4). Requests a repaint
    /// with accessibility update.
    pub fn set_pad4(this: &mut Self, new_pad: Option<Insets>)
        ensures
            final(this).label == old(this).label,
            final(this).opt.pad == old(this).opt.pad.with_at(LPos::HL4, new_pad),
            final(this).requests@ == old(this).requests@.push(Request::Render),
    {
        Self::set_padx(this, LPos::HL4, new_pad);
    }

    /// Sets the padding of the label at position 5 (HI5). Requests a repaint
    /// with accessibility update.
    pub fn set_pad5(this: &mut Self, new_pad: Option<Insets>)
        ensures
            final(this).label == old(this).label,
            final(this).opt.pad == old(this).opt.pad.with_at(LPos::HI5, new_pad),
            final(this).requests@ == old(this).requests@.push(Request::Render),
    {
        Self::set_padx(this, LPos::HI5, new_pad);
    }

    /// Sets the padding of the label at position 6 (HJ6). Requests a repaint
    /// with accessibility update.
    pub fn set_pad6(this: &mut Self, new_pad: Option<Insets>)
        ensures
            final(this).label == old(this).label,
            final(this).opt.pad == old(this).opt.pad.with_at(LPos::HJ6, new_pad),
            final(this).requests@ == old(this).requests@.push(Request::Render),
    {
        Self::set_padx(this, LPos::HJ6, new_pad);
    }

    /// Sets the padding of the label at position 7 (LL7). Requests a repaint
    /// with accessibility update.
    pub fn set_pad7(this: &mut Self, new_pad: Option<Insets>)
        ensures
            final(this).label == old(this).label,
            final(this).opt.pad == old(this).opt.pad.with_at(LPos::LL7, new_pad),
            final(this).requests@ == old(this).requests@.push(Request::Render),
    {
        Self::set_padx(this, LPos::LL7, new_pad);
    }

    /// Sets the padding of the label at position 8 (LI8). Requests a repaint
    /// with accessibility update.
    pub fn set_pad8(this: &mut Self, new_pad: Option<Insets>)
        ensures
            final(this).label == old(this).label,
            final(this).opt.pad == old(this).opt.pad.with_at(LPos::LI8, new_pad),
            final(this).requests@ == old(this).requests@.push(Request::Render),
    {
        Self::set_padx(this, LPos::LI8, new_pad);
    }

    /// Sets the padding of the label at position 9 (LJ9). Requests a repaint
    /// with accessibility update.
    pub fn set_pad9(this: &mut Self, new_pad: Option<Insets>)
        ensures
            final(this).label == old(this).label,
            final(this).opt.pad == old(this).opt.pad.with_at(LPos::LJ9, new_pad),
            final(this).requests@ == old(this).requests@.push(Request::Render),
    {
        Self::set_padx(this, LPos::LJ9, new_pad);
    }

    /// Pointer handling: a press of an enabled button captures the pointer;
    /// a release over the enabled button that holds the capture submits the
    /// press. Both repaint the button.
    pub fn on_pointer_event(&mut self, ctx: &mut EventCtx<ButtonPress>, event: PointerInput)
        ensures
            final(self).label == old(self).label,
            final(self).opt == old(self).opt,
            final(ctx).handled == old(ctx).handled,
            match event {
                PointerInput::Down => {
                    &&& final(ctx).pointer_captured == (old(ctx).pointer_captured || !old(ctx).is_disabled)
                    &&& final(ctx).actions == old(ctx).actions
                    &&& final(self).requests@ == if old(ctx).is_disabled {
                        old(self).requests@
                    } else {
                        old(self).requests@.push(Request::PaintOnly)
                    }
                },
                PointerInput::Up(button) => {
                    &&& final(ctx).pointer_captured == old(ctx).pointer_captured
                    &&& final(ctx).actions@ == if old(ctx).is_active && old(ctx).is_hovered && !old(ctx).is_disabled {
                        old(ctx).actions@.push(ButtonPress { button })
                    } else {
                        old(ctx).actions@
                    }
                    &&& final(self).requests@ == old(self).requests@.push(Request::PaintOnly)
                },
                PointerInput::Other => {
                    &&& final(ctx).pointer_captured == old(ctx).pointer_captured
                    &&& final(ctx).actions == old(ctx).actions
                    &&& final(self).requests == old(self).requests
                },
            },
    {
        match event {
            PointerInput::Down => {
                if !ctx.is_disabled {
                    ctx.capture_pointer();
                    self.requests.push(Request::PaintOnly);
                }
            },
            PointerInput::Up(button) => {
                if ctx.is_active && ctx.is_hovered && !ctx.is_disabled {
                    ctx.submit_action(ButtonPress { button });
                }
                self.requests.push(Request::PaintOnly);
            },
            PointerInput::Other => {},
        }
    }

    /// Accessibility handling: a click aimed at the button itself submits a
    /// press of the primary pointer button.
    pub fn on_access_event(&mut self, ctx: &mut EventCtx<ButtonPress>, action: AccessAction)
        ensures
            *final(self) == *old(self),
            final(ctx).pointer_captured == old(ctx).pointer_captured,
            final(ctx).handled == old(ctx).handled,
            old(ctx).is_target && action == AccessAction::Click ==> {
                &&& final(ctx).actions@.len() == old(ctx).actions@.len() + 1
                &&& final(ctx).actions@.drop_last() == old(ctx).actions@
                &&& final(ctx).actions@.last() == (ButtonPress { button: Some(MouseButton::Primary) })
            },
            !(old(ctx).is_target && action == AccessAction::Click) ==> final(ctx).actions == old(ctx).actions,
    {
        if ctx.is_target && action == AccessAction::Click {
            ctx.submit_action(ButtonPress { button: Some(MouseButton::Primary) });
            assert(ctx.actions@.drop_last() =~= old(ctx).actions@);
        }
    }

    /// Hover, focus and disabled changes repaint the button.
    pub fn update(&mut self, event: UpdateEvent)
        ensures
            final(self).label == old(self).label,
            final(self).opt == old(self).opt,
            final(self).requests@ == match event {
                UpdateEvent::HoveredChanged(_) | UpdateEvent::FocusChanged(_)
                | UpdateEvent::DisabledChanged(_) => old(self).requests@.push(Request::PaintOnly),
                _ => old(self).requests@,
            },
    {
        match event {
            UpdateEvent::HoveredChanged(_)
            | UpdateEvent::FocusChanged(_)
            | UpdateEvent::DisabledChanged(_) => self.requests.push(Request::PaintOnly),
            _ => {},
        }
    }

    /// What the button paints in the given situation: a disabled gradient
    /// when disabled, a darker-to-lighter one while pressed, a
    /// lighter-to-darker one otherwise; a light border when hovered and
    /// enabled, a dark one otherwise.
    pub fn paint_plan(&self, state: PaintState) -> (plan: Button9Paint)
        ensures
            (plan.top, plan.bottom) == if state.is_disabled {
                (ThemeColor::DisabledButtonLight, ThemeColor::DisabledButtonDark)
            } else if state.is_active {
                (ThemeColor::ButtonDark, ThemeColor::ButtonLight)
            } else {
                (ThemeColor::ButtonLight, ThemeColor::ButtonDark)
            },
            plan.border == if state.is_hovered && !state.is_disabled {
                ThemeColor::BorderLight
            } else {
                ThemeColor::BorderDark
            },
    {
        let gradient = if state.is_disabled {
            (ThemeColor::DisabledButtonLight, ThemeColor::DisabledButtonDark)
        } else if state.is_active {
            (ThemeColor::ButtonDark, ThemeColor::ButtonLight)
        } else {
            (ThemeColor::ButtonLight, ThemeColor::ButtonDark)
        };
        let border = if state.is_hovered && !state.is_disabled {
            ThemeColor::BorderLight
        } else {
            ThemeColor::BorderDark
        };
        Button9Paint { top: gradient.0, bottom: gradient.1, border }
    }

    /// The identifiers of the nine labels, from top left to bottom right.
    pub fn children_ids(&self) -> (ids: Vec<Option<WidgetId>>)
        ensures
            ids@ == seq![
                self.label.TL1.id, self.label.TI2.id, self.label.TJ3.id,
                self.label.HL4.id, self.label.HI5.id, self.label.HJ6.id,
                self.label.LL7.id, self.label.LI8.id, self.label.LJ9.id,
            ],
    {
        let mut ids = Vec::new();
        ids.push(self.label.TL1.id);
        ids.push(self.label.TI2.id);
        ids.push(self.label.TJ3.id);
        ids.push(self.label.HL4.id);
        ids.push(self.label.HI5.id);
        ids.push(self.label.HJ6.id);
        ids.push(self.label.LL7.id);
        ids.push(self.label.LI8.id);
        ids.push(self.label.LJ9.id);
        ids
    }
}

impl Button9 {
    /// The role the widget reports to accessibility.
    pub fn accessibility_role(&self) -> (role: AccessRole)
        ensures
            role == AccessRole::Button,
    {
        AccessRole::Button
    }
}

} // verus!
