//! Label: a widget displaying non-interactive text, with its text styles.

use vstd::prelude::*;
use crate::widget::{AccessRole, Request, UpdateEvent, WidgetId};

verus! {

// --- MARK: STYLES

/// Horizontal alignment of text within its box.
#[derive(Clone, Copy, Debug, PartialEq, Eq, Structural)]
pub enum TextAlign {
    Start,
    End,
    Left,
    Center,
    Right,
    Justify,
}

/// A font family.
#[derive(Clone, Debug, PartialEq, Eq)]
pub enum FontFamily {
    Serif,
    SansSerif,
    Monospace,
    Cursive,
    Fantasy,
    SystemUi,
    Named(String),
}

/// A text style property. Floating-point values are carried by their
/// IEEE-754 `f32` bit patterns; brushes by their index in the brush palette.
#[derive(Clone, Debug, PartialEq)]
pub enum StyleProperty {
    FontFamily(FontFamily),
    FontSize(u32),
    FontWeight(u32),
    LineHeight(u32),
    LetterSpacing(u32),
    WordSpacing(u32),
    Brush(u32),
    Underline(bool),
    UnderlineOffset(Option<u32>),
    UnderlineSize(Option<u32>),
    UnderlineBrush(Option<u32>),
    Strikethrough(bool),
    StrikethroughOffset(Option<u32>),
    StrikethroughSize(Option<u32>),
    StrikethroughBrush(Option<u32>),
}

/// The kind of a style property: which variant it is, regardless of its value.
#[derive(Clone, Copy, Debug, PartialEq, Eq, Structural)]
pub enum StyleKind {
    FontFamily,
    FontSize,
    FontWeight,
    LineHeight,
    LetterSpacing,
    WordSpacing,
    Brush,
    Underline,
    UnderlineOffset,
    UnderlineSize,
    UnderlineBrush,
    Strikethrough,
    StrikethroughOffset,
    StrikethroughSize,
    StrikethroughBrush,
}

/// The kind of `p`.
pub open spec fn style_kind(p: StyleProperty) -> StyleKind {
    match p {
        StyleProperty::FontFamily(_) => StyleKind::FontFamily,
        StyleProperty::FontSize(_) => StyleKind::FontSize,
        StyleProperty::FontWeight(_) => StyleKind::FontWeight,
        StyleProperty::LineHeight(_) => StyleKind::LineHeight,
        StyleProperty::LetterSpacing(_) => StyleKind::LetterSpacing,
        StyleProperty::WordSpacing(_) => StyleKind::WordSpacing,
        StyleProperty::Brush(_) => StyleKind::Brush,
        StyleProperty::Underline(_) => StyleKind::Underline,
        StyleProperty::UnderlineOffset(_) => StyleKind::UnderlineOffset,
        StyleProperty::UnderlineSize(_) => StyleKind::UnderlineSize,
        StyleProperty::UnderlineBrush(_) => StyleKind::UnderlineBrush,
        StyleProperty::Strikethrough(_) => StyleKind::Strikethrough,
        StyleProperty::StrikethroughOffset(_) => StyleKind::StrikethroughOffset,
        StyleProperty::StrikethroughSize(_) => StyleKind::StrikethroughSize,
        StyleProperty::StrikethroughBrush(_) => StyleKind::StrikethroughBrush,
    }
}

impl StyleProperty {
    /// Returns the kind of this property.
    pub fn kind(&self) -> (k: StyleKind)
        ensures
            k == style_kind(*self),
    {
        match self {
            StyleProperty::FontFamily(_) => StyleKind::FontFamily,
            StyleProperty::FontSize(_) => StyleKind::FontSize,
            StyleProperty::FontWeight(_) => StyleKind::FontWeight,
            StyleProperty::LineHeight(_) => StyleKind::LineHeight,
            StyleProperty::LetterSpacing(_) => StyleKind::LetterSpacing,
            StyleProperty::WordSpacing(_) => StyleKind::WordSpacing,
            StyleProperty::Brush(_) => StyleKind::Brush,
            StyleProperty::Underline(_) => StyleKind::Underline,
            StyleProperty::UnderlineOffset(_) => StyleKind::UnderlineOffset,
            StyleProperty::UnderlineSize(_) => StyleKind::UnderlineSize,
            StyleProperty::UnderlineBrush(_) => StyleKind::UnderlineBrush,
            StyleProperty::Strikethrough(_) => StyleKind::Strikethrough,
            StyleProperty::StrikethroughOffset(_) => StyleKind::StrikethroughOffset,
            StyleProperty::StrikethroughSize(_) => StyleKind::StrikethroughSize,
            StyleProperty::StrikethroughBrush(_) => StyleKind::StrikethroughBrush,
        }
    }
}

/// The position of the property of kind `k` in `s`, or `-1`.
pub open spec fn kind_index(s: Seq<StyleProperty>, k: StyleKind) -> int
    decreases s.len(),
{
    if s.len() == 0 {
        -1
    } else if style_kind(s.last()) == k {
        s.len() - 1
    } else {
        kind_index(s.drop_last(), k)
    }
}

/// No two properties of `s` have the same kind.
pub open spec fn kinds_unique(s: Seq<StyleProperty>) -> bool {
    forall|i: int, j: int| 0 <= i < j < s.len() ==> style_kind(#[trigger] s[i]) != style_kind(#[trigger] s[j])
}

/// `s` with the elements whose `keep` flag is false left out, in order.
pub open spec fn kept(s: Seq<StyleProperty>, keep: Seq<bool>) -> Seq<StyleProperty>
    decreases s.len(),
{
    if s.len() == 0 || keep.len() == 0 {
        Seq::empty()
    } else {
        let rest = kept(s.drop_last(), keep.drop_last());
        if keep.last() { rest.push(s.last()) } else { rest }
    }
}

proof fn lemma_kind_index(s: Seq<StyleProperty>, k: StyleKind)
    ensures
        -1 <= kind_index(s, k) < s.len(),
        kind_index(s, k) >= 0 ==> style_kind(s[kind_index(s, k)]) == k,
        kind_index(s, k) == -1 ==> forall|i: int| 0 <= i < s.len() ==> style_kind(#[trigger] s[i]) != k,
    decreases s.len(),
{
    if s.len() > 0 {
        lemma_kind_index(s.drop_last(), k);
        if kind_index(s, k) == -1 {
            assert forall|i: int| 0 <= i < s.len() implies style_kind(#[trigger] s[i]) != k by {
                if i < s.len() - 1 {
                    assert(s[i] == s.drop_last()[i]);
                }
            }
        }
    }
}

proof fn lemma_kind_index_unique(s: Seq<StyleProperty>, k: StyleKind, i: int)
    requires
        kinds_unique(s),
        0 <= i < s.len(),
        style_kind(s[i]) == k,
    ensures
        kind_index(s, k) == i,
{
    lemma_kind_index(s, k);
    let j = kind_index(s, k);
    if j != i {
        if j < i {
            assert(style_kind(s[j]) != style_kind(s[i]));
        } else {
            assert(style_kind(s[i]) != style_kind(s[j]));
        }
    }
}

proof fn lemma_kept_facts(s: Seq<StyleProperty>, keep: Seq<bool>)
    requires
        keep.len() == s.len(),
    ensures
        forall|x: StyleProperty| kept(s, keep).contains(x) ==> s.contains(x),
        kinds_unique(s) ==> kinds_unique(kept(s, keep)),
    decreases s.len(),
{
    if s.len() > 0 {
        lemma_kept_facts(s.drop_last(), keep.drop_last());
        let rest = kept(s.drop_last(), keep.drop_last());
        assert forall|x: StyleProperty| kept(s, keep).contains(x) implies s.contains(x) by {
            if rest.contains(x) {
                assert(s.drop_last().contains(x));
                let i = choose|i: int| 0 <= i < s.drop_last().len() && s.drop_last()[i] == x;
                assert(s[i] == x);
            } else {
                assert(x == s.last());
            }
        }
        if kinds_unique(s) && keep.last() {
            assert(kinds_unique(s.drop_last())) by {
                assert forall|i: int, j: int| 0 <= i < j < s.drop_last().len() implies
                    style_kind(#[trigger] s.drop_last()[i]) != style_kind(#[trigger] s.drop_last()[j]) by {
                    assert(s.drop_last()[i] == s[i] && s.drop_last()[j] == s[j]);
                }
            }
            let r = kept(s, keep);
            assert forall|i: int, j: int| 0 <= i < j < r.len() implies
                style_kind(#[trigger] r[i]) != style_kind(#[trigger] r[j]) by {
                if j == r.len() - 1 {
                    assert(r[i] == rest[i]);
                    assert(rest.contains(r[i]));
                    assert(s.drop_last().contains(r[i]));
                    let a = choose|a: int| 0 <= a < s.drop_last().len() && s.drop_last()[a] == r[i];
                    assert(s[a] == r[i]);
                    assert(style_kind(s[a]) != style_kind(s[s.len() - 1]));
                } else {
                    assert(r[i] == rest[i] && r[j] == rest[j]);
                }
            }
        } else if kinds_unique(s) {
            assert(kinds_unique(s.drop_last())) by {
                assert forall|i: int, j: int| 0 <= i < j < s.drop_last().len() implies
                    style_kind(#[trigger] s.drop_last()[i]) != style_kind(#[trigger] s.drop_last()[j]) by {
                    assert(s.drop_last()[i] == s[i] && s.drop_last()[j] == s[j]);
                }
            }
        }
    }
}

/// `s` with `p` set: replacing the property of the same kind, or appended
/// when there is none.
pub open spec fn style_inserted(s: Seq<StyleProperty>, p: StyleProperty) -> Seq<StyleProperty> {
    let i = kind_index(s, style_kind(p));
    if i >= 0 { s.update(i, p) } else { s.push(p) }
}

/// After a style is set, the set still holds at most one property of each
/// kind, and the property of that kind is the one set.
pub proof fn law_inserted_style_is_found(s: Seq<StyleProperty>, p: StyleProperty)
    requires
        kinds_unique(s),
    ensures
        kinds_unique(style_inserted(s, p)),
        kind_index(style_inserted(s, p), style_kind(p)) >= 0,
        style_inserted(s, p)[kind_index(style_inserted(s, p), style_kind(p))] == p,
{
    let k = style_kind(p);
    let t = style_inserted(s, p);
    lemma_kind_index(s, k);
    let i = kind_index(s, k);
    if i >= 0 {
        assert forall|a: int, b: int| 0 <= a < b < t.len() implies style_kind(#[trigger] t[a]) != style_kind(#[trigger] t[b]) by {
            assert(style_kind(s[a]) != style_kind(s[b]));
        }
        lemma_kind_index_unique(t, k, i);
    } else {
        assert forall|a: int, b: int| 0 <= a < b < t.len() implies style_kind(#[trigger] t[a]) != style_kind(#[trigger] t[b]) by {
            if b < s.len() {
                assert(style_kind(s[a]) != style_kind(s[b]));
            } else {
                assert(t[a] == s[a]);
            }
        }
        lemma_kind_index_unique(t, k, s.len() as int);
    }
}

/// Removing the style of a kind that was just set gives back the property
/// that was set, and leaves no property of that kind.
pub proof fn law_remove_after_insert(s: Seq<StyleProperty>, p: StyleProperty)
    requires
        kinds_unique(s),
    ensures
        ({
            let t = style_inserted(s, p);
            let i = kind_index(t, style_kind(p));
            &&& i >= 0
            &&& t[i] == p
            &&& kind_index(t.remove(i), style_kind(p)) == -1
        }),
{
    law_inserted_style_is_found(s, p);
    let t = style_inserted(s, p);
    let k = style_kind(p);
    let i = kind_index(t, k);
    lemma_kind_index(t, k);
    let u = t.remove(i);
    lemma_kind_index(u, k);
    if kind_index(u, k) >= 0 {
        let j = kind_index(u, k);
        let j0 = if j < i { j } else { j + 1 };
        assert(u[j] == t[j0]);
        if j0 < i {
            assert(style_kind(t[j0]) != style_kind(t[i]));
        } else {
            assert(style_kind(t[i]) != style_kind(t[j0]));
        }
    }
}

/// A set of text style properties holding at most one property of each kind.
pub struct StyleSet {
    pub props: Vec<StyleProperty>,
}

impl StyleSet {
    /// The set holds at most one property of each kind.
    pub open spec fn wf(&self) -> bool {
        kinds_unique(self.props@)
    }

    /// Creates a style set holding only the given font size (as `f32` bits).
    pub fn new(font_size: u32) -> (set: StyleSet)
        ensures
            set.wf(),
            set.props@ == seq![StyleProperty::FontSize(font_size)],
    {
        let mut props = Vec::new();
        props.push(StyleProperty::FontSize(font_size));
        StyleSet { props }
    }

    /// Returns the position of the property of kind `kind`, if any.
    pub fn position(&self, kind: StyleKind) -> (pos: Option<usize>)
        ensures
            match pos {
                Some(i) => i as int == kind_index(self.props@, kind),
                None => kind_index(self.props@, kind) == -1,
            },
    {
        let mut i: usize = self.props.len();
        proof { lemma_kind_index(self.props@, kind); }
        assert(self.props@.take(i as int) == self.props@);
        while i > 0
            invariant
                i <= self.props.len(),
                kind_index(self.props@, kind) == kind_index(self.props@.take(i as int), kind),
            decreases i,
        {
            let k = self.props[i - 1].kind();
            assert(self.props@.take(i as int).drop_last() == self.props@.take(i - 1));
            if k == kind {
                return Some(i - 1);
            }
            i -= 1;
        }
        None
    }

    /// Inserts `property`, replacing the property of the same kind; returns the replaced one.
    pub fn insert(&mut self, property: StyleProperty) -> (old_prop: Option<StyleProperty>)
        requires
            old(self).wf(),
        ensures
            final(self).wf(),
            final(self).props@ == style_inserted(old(self).props@, property),
            ({
                let i = kind_index(old(self).props@, style_kind(property));
                if i >= 0 {
                    &&& old_prop == Some(old(self).props@[i])
                    &&& final(self).props@ == old(self).props@.update(i, property)
                } else {
                    &&& old_prop.is_none()
                    &&& final(self).props@ == old(self).props@.push(property)
                }
            }),
    {
        proof { lemma_kind_index(self.props@, style_kind(property)); }
        let k = property.kind();
        match self.position(k) {
            Some(i) => {
                let ghost before = self.props@;
                let old_prop = self.props.remove(i);
                self.props.insert(i, property);
                assert(self.props@ == before.update(i as int, property));
                assert forall|a: int, b: int| 0 <= a < b < self.props@.len() implies
                    style_kind(#[trigger] self.props@[a]) != style_kind(#[trigger] self.props@[b]) by {
                    if a != i && b != i {
                        assert(style_kind(before[a]) != style_kind(before[b]));
                    } else if a == i {
                        assert(style_kind(before[a]) != style_kind(before[b]));
                    } else {
                        assert(style_kind(before[a]) != style_kind(before[b]));
                    }
                }
                Some(old_prop)
            },
            None => {
                self.props.push(property);
                None
            },
        }
    }
}


impl StyleSet {
    /// Removes the property of kind `kind`; returns it.
    pub fn remove(&mut self, kind: StyleKind) -> (removed: Option<StyleProperty>)
        requires
            old(self).wf(),
        ensures
            final(self).wf(),
            ({
                let i = kind_index(old(self).props@, kind);
                if i >= 0 {
                    &&& removed == Some(old(self).props@[i])
                    &&& final(self).props@ == old(self).props@.remove(i)
                } else {
                    &&& removed.is_none()
                    &&& final(self).props@ == old(self).props@
                }
            }),
    {
        proof { lemma_kind_index(self.props@, kind); }
        match self.position(kind) {
            Some(i) => {
                let ghost before = self.props@;
                let p = self.props.remove(i);
                assert forall|a: int, b: int| 0 <= a < b < self.props@.len() implies
                    style_kind(#[trigger] self.props@[a]) != style_kind(#[trigger] self.props@[b]) by {
                    let a0 = if a < i { a } else { a + 1 };
                    let b0 = if b < i { b } else { b + 1 };
                    assert(self.props@[a] == before[a0] && self.props@[b] == before[b0]);
                    assert(style_kind(before[a0]) != style_kind(before[b0]));
                }
                Some(p)
            },
            None => None,
        }
    }

    /// Keeps only the properties for which `f` returns true, in their order.
    pub fn retain(&mut self, f: impl Fn(&StyleProperty) -> bool)
        requires
            old(self).wf(),
            forall|p: StyleProperty| #[trigger] f.requires((&p,)),
        ensures
            final(self).wf(),
            exists|keep: Seq<bool>| {
                &&& keep.len() == old(self).props@.len()
                &&& forall|i: int| 0 <= i < keep.len() ==> f.ensures((&old(self).props@[i],), #[trigger] keep[i])
                &&& final(self).props@ == kept(old(self).props@, keep)
            },
    {
        let ghost before = self.props@;
        let mut rest: Vec<StyleProperty> = Vec::new();
        std::mem::swap(&mut rest, &mut self.props);
        let mut out: Vec<StyleProperty> = Vec::new();
        let ghost mut keep: Seq<bool> = Seq::empty();
        while rest.len() > 0
            invariant
                forall|q: StyleProperty| #[trigger] f.requires((&q,)),
                kinds_unique(before),
                keep.len() + rest@.len() == before.len(),
                rest@ == before.skip(keep.len() as int),
                forall|i: int| 0 <= i < keep.len() ==> f.ensures((&before[i],), #[trigger] keep[i]),
                out@ == kept(before.take(keep.len() as int), keep),
            decreases rest.len(),
        {
            let ghost k = keep.len() as int;
            let p = rest.remove(0);
            assert(p == before[k]);
            let b = f(&p);
            proof {
                assert(before.take(k + 1).drop_last() == before.take(k));
                assert(keep.push(b).drop_last() == keep);
                assert(before.take(k + 1).last() == p);
            }
            if b {
                out.push(p);
            }
            proof {
                keep = keep.push(b);
                assert(rest@ == before.skip(k + 1));
            }
        }
        proof {
            assert(before.take(before.len() as int) == before);
            lemma_kept_facts(before, keep);
        }
        self.props = out;
    }
}

/// A style a label accepts: a label is styled as a whole, so its brushes
/// are the default one, of index 0.
pub open spec fn global_style(property: StyleProperty) -> bool {
    match property {
        StyleProperty::Brush(i) => i == 0,
        StyleProperty::UnderlineBrush(Some(i)) => i == 0,
        StyleProperty::StrikethroughBrush(Some(i)) => i == 0,
        _ => true,
    }
}

/// Label: a widget displaying non-interactive text.
pub struct Label {
    pub text: String,
    pub styles: StyleSet,
    pub text_alignment: TextAlign,
    /// Whether to hint whilst drawing the text.
    pub hint: bool,
    pub requests: Vec<Request>,
}

/// The default font size of text, `15.0` as `f32` bits.
pub const TEXT_SIZE_NORMAL: u32 = 0x4170_0000u32;

/// `after` is `before` with its text replaced by `text`, and a new layout requested.
pub open spec fn text_set(before: Label, after: Label, text: Seq<char>) -> bool {
    &&& after.text@ == text
    &&& after.styles == before.styles
    &&& after.text_alignment == before.text_alignment
    &&& after.hint == before.hint
    &&& after.requests@ == before.requests@.push(Request::Layout)
}

impl Label {
    /// The label's styles hold at most one property of each kind.
    pub open spec fn wf(&self) -> bool {
        self.styles.wf()
    }

    /// The styles of a new label: the default font size only.
    pub open spec fn new_styles() -> Seq<StyleProperty> {
        seq![StyleProperty::FontSize(TEXT_SIZE_NORMAL)]
    }

    /// Creates a new label with the given text, the default font size,
    /// start alignment and hinting enabled.
    pub fn new(text: &str) -> (label: Label)
        ensures
            label.wf(),
            label.text@ == text@,
            label.styles.props@ == Label::new_styles(),
            label.text_alignment == TextAlign::Start,
            label.hint,
            label.requests@.len() == 0,
    {
        Label {
            text: String::from_str(text),
            styles: StyleSet::new(TEXT_SIZE_NORMAL),
            text_alignment: TextAlign::Start,
            hint: true,
            requests: Vec::new(),
        }
    }

    /// Shared logic between `with_style` and `insert_style`.
    fn insert_style_inner(&mut self, property: StyleProperty) -> (old_prop: Option<StyleProperty>)
        requires
            old(self).wf(),
            global_style(property),
        ensures
            final(self).wf(),
            final(self).text == old(self).text,
            final(self).text_alignment == old(self).text_alignment,
            final(self).hint == old(self).hint,
            final(self).requests == old(self).requests,
            ({
                let i = kind_index(old(self).styles.props@, style_kind(property));
                if i >= 0 {
                    &&& old_prop == Some(old(self).styles.props@[i])
                    &&& final(self).styles.props@ == old(self).styles.props@.update(i, property)
                } else {
                    &&& old_prop.is_none()
                    &&& final(self).styles.props@ == old(self).styles.props@.push(property)
                }
            }),
    {
        self.styles.insert(property)
    }

    /// Sets a style property for the new label, replacing the one of the same kind.
    pub fn with_style(self, property: StyleProperty) -> (label: Label)
        requires
            self.wf(),
            global_style(property),
        ensures
            label.wf(),
            label.styles.props@ == style_inserted(self.styles.props@, property),
            label.text == self.text,
            label.text_alignment == self.text_alignment,
            label.hint == self.hint,
            label.requests == self.requests,
            ({
                let i = kind_index(self.styles.props@, style_kind(property));
                if i >= 0 {
                    label.styles.props@ == self.styles.props@.update(i, property)
                } else {
                    label.styles.props@ == self.styles.props@.push(property)
                }
            }),
    {
        let mut label = self;
        let _ = label.insert_style_inner(property);
        label
    }

    /// Sets a style property for the new label, returning the replaced one.
    pub fn try_with_style(self, property: StyleProperty) -> (res: (Label, Option<StyleProperty>))
        requires
            self.wf(),
            global_style(property),
        ensures
            res.0.wf(),
            res.0.styles.props@ == style_inserted(self.styles.props@, property),
            res.0.text == self.text,
            res.0.text_alignment == self.text_alignment,
            res.0.hint == self.hint,
            res.0.requests == self.requests,
            ({
                let i = kind_index(self.styles.props@, style_kind(property));
                if i >= 0 {
                    &&& res.1 == Some(self.styles.props@[i])
                    &&& res.0.styles.props@ == self.styles.props@.update(i, property)
                } else {
                    &&& res.1.is_none()
                    &&& res.0.styles.props@ == self.styles.props@.push(property)
                }
            }),
    {
        let mut label = self;
        let old_prop = label.insert_style_inner(property);
        (label, old_prop)
    }

    /// Sets the alignment of the text.
    pub fn with_text_alignment(self, text_alignment: TextAlign) -> (label: Label)
        ensures
            label == (Label { text_alignment, ..self }),
    {
        Label { text_alignment, ..self }
    }

    /// Sets whether hinting is used for this label.
    pub fn with_hint(self, hint: bool) -> (label: Label)
        ensures
            label == (Label { hint, ..self }),
    {
        Label { hint, ..self }
    }

    /// Returns the current text of this label.
    pub fn text(&self) -> (text: &String)
        ensures
            *text == self.text,
    {
        &self.text
    }

    /// Inserts a style property, replacing the one of the same kind; returns the replaced one.
    /// Requests a new layout.
    pub fn insert_style(this: &mut Label, property: StyleProperty) -> (old_prop: Option<StyleProperty>)
        requires
            old(this).wf(),
            global_style(property),
        ensures
            final(this).wf(),
            final(this).styles.props@ == style_inserted(old(this).styles.props@, property),
            final(this).text == old(this).text,
            final(this).text_alignment == old(this).text_alignment,
            final(this).hint == old(this).hint,
            final(this).requests@ == old(this).requests@.push(Request::Layout),
            ({
                let i = kind_index(old(this).styles.props@, style_kind(property));
                if i >= 0 {
                    &&& old_prop == Some(old(this).styles.props@[i])
                    &&& final(this).styles.props@ == old(this).styles.props@.update(i, property)
                } else {
                    &&& old_prop.is_none()
                    &&& final(this).styles.props@ == old(this).styles.props@.push(property)
                }
            }),
    {
        let old_prop = this.insert_style_inner(property);
        this.requests.push(Request::Layout);
        old_prop
    }

    /// Keeps only the styles for which `f` returns true. Requests a new layout.
    pub fn retain_styles(this: &mut Label, f: impl Fn(&StyleProperty) -> bool)
        requires
            old(this).wf(),
            forall|p: StyleProperty| #[trigger] f.requires((&p,)),
        ensures
            final(this).wf(),
            final(this).text == old(this).text,
            final(this).text_alignment == old(this).text_alignment,
            final(this).hint == old(this).hint,
            final(this).requests@ == old(this).requests@.push(Request::Layout),
            exists|keep: Seq<bool>| {
                &&& keep.len() == old(this).styles.props@.len()
                &&& forall|i: int| 0 <= i < keep.len() ==> f.ensures((&old(this).styles.props@[i],), #[trigger] keep[i])
                &&& final(this).styles.props@ == kept(old(this).styles.props@, keep)
            },
    {
        this.styles.retain(f);
        this.requests.push(Request::Layout);
    }

    /// Removes the style of kind `kind`; returns it. Requests a new layout.
    pub fn remove_style(this: &mut Label, kind: StyleKind) -> (removed: Option<StyleProperty>)
        requires
            old(this).wf(),
        ensures
            final(this).wf(),
            final(this).text == old(this).text,
            final(this).text_alignment == old(this).text_alignment,
            final(this).hint == old(this).hint,
            final(this).requests@ == old(this).requests@.push(Request::Layout),
            ({
                let i = kind_index(old(this).styles.props@, kind);
                if i >= 0 {
                    &&& removed == Some(old(this).styles.props@[i])
                    &&& final(this).styles.props@ == old(this).styles.props@.remove(i)
                } else {
                    &&& removed.is_none()
                    &&& final(this).styles.props@ == old(this).styles.props@
                }
            }),
    {
        let removed = this.styles.remove(kind);
        this.requests.push(Request::Layout);
        removed
    }

    /// Replaces the text of this label. Requests a new layout.
    pub fn set_text(this: &mut Label, new_text: &str)
        ensures
            text_set(*old(this), *final(this), new_text@),
    {
        this.text = String::from_str(new_text);
        this.requests.push(Request::Layout);
    }

    /// Sets the text alignment. Requests a new layout.
    pub fn set_text_alignment(this: &mut Label, text_alignment: TextAlign)
        ensures
            final(this).text_alignment == text_alignment,
            final(this).text == old(this).text,
            final(this).styles == old(this).styles,
            final(this).hint == old(this).hint,
            final(this).requests@ == old(this).requests@.push(Request::Layout),
    {
        this.text_alignment = text_alignment;
        this.requests.push(Request::Layout);
    }

    /// Sets whether hinting is used. Requests a repaint only.
    pub fn set_hint(this: &mut Label, hint: bool)
        ensures
            final(this).hint == hint,
            final(this).text == old(this).text,
            final(this).styles == old(this).styles,
            final(this).text_alignment == old(this).text_alignment,
            final(this).requests@ == old(this).requests@.push(Request::PaintOnly),
    {
        this.hint = hint;
        this.requests.push(Request::PaintOnly);
    }

    /// A label does not take part in pointer interaction.
    pub fn accepts_pointer_interaction(&self) -> (accepts: bool)
        ensures
            !accepts,
    {
        false
    }

    /// Reacts to a change of situation: a font change requires a new layout,
    /// a change of the disabled state a repaint with accessibility update.
    pub fn update(&mut self, event: UpdateEvent)
        ensures
            final(self).text == old(self).text,
            final(self).styles == old(self).styles,
            final(self).text_alignment == old(self).text_alignment,
            final(self).hint == old(self).hint,
            final(self).requests@ == match event {
                UpdateEvent::FontsChanged => old(self).requests@.push(Request::Layout),
                UpdateEvent::DisabledChanged(_) => old(self).requests@.push(Request::Render),
                _ => old(self).requests@,
            },
    {
        match event {
            UpdateEvent::FontsChanged => self.requests.push(Request::Layout),
            UpdateEvent::DisabledChanged(_) => self.requests.push(Request::Render),
            _ => {},
        }
    }

    /// A label has no children.
    pub fn children_ids(&self) -> (ids: Vec<WidgetId>)
        ensures
            ids@.len() == 0,
    {
        Vec::new()
    }

    /// The text shown in debugging output: the label's text.
    pub fn get_debug_text(&self) -> (text: Option<String>)
        ensures
            text == Some(self.text),
    {
        Some(self.text.clone())
    }
}

impl Label {
    /// The role the widget reports to accessibility.
    pub fn accessibility_role(&self) -> (role: AccessRole)
        ensures
            role == AccessRole::Label,
    {
        AccessRole::Label
    }
}

} // verus!
