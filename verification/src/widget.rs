//! Shared vocabulary of the widget models: identifiers, child pods, the
//! requests a widget addresses to the framework when its state changes,
//! the input events the widgets react to, and floating-point values carried
//! by their IEEE-754 bit patterns.

use vstd::prelude::*;

verus! {

/// A button of a pointer input device, such as a mouse or a stylus pen.
#[derive(Clone, Copy, Debug, PartialEq, Eq, Structural)]
pub enum MouseButton {
    /// Primary button, commonly the left mouse button, touch contact, pen contact.
    Primary,
    /// Secondary button, commonly the right mouse button, pen barrel button.
    Secondary,
    /// Auxiliary button, commonly the middle mouse button.
    Auxiliary,
    /// X1 (back) mouse button.
    X1,
    /// X2 (forward) mouse button.
    X2,
    /// Pen eraser button.
    PenEraser,
    /// Button 7.
    B7,
    /// Button 8.
    B8,
    /// Button 9.
    B9,
    /// Button 10.
    B10,
    /// Button 11.
    B11,
    /// Button 12.
    B12,
    /// Button 13.
    B13,
    /// Button 14.
    B14,
    /// Button 15.
    B15,
    /// Button 16.
    B16,
    /// Button 17.
    B17,
    /// Button 18.
    B18,
    /// Button 19.
    B19,
    /// Button 20.
    B20,
    /// Button 21.
    B21,
    /// Button 22.
    B22,
    /// Button 23.
    B23,
    /// Button 24.
    B24,
    /// Button 25.
    B25,
    /// Button 26.
    B26,
    /// Button 27.
    B27,
    /// Button 28.
    B28,
    /// Button 29.
    B29,
    /// Button 30.
    B30,
    /// Button 31.
    B31,
    /// Button 32.
    B32,
}

/// The role a widget reports to accessibility.
#[derive(Clone, Copy, Debug, PartialEq, Eq, Structural)]
pub enum AccessRole {
    GenericContainer,
    Button,
    Canvas,
    CheckBox,
    ComboBox,
    DisclosureTriangle,
    Image,
    Label,
    MenuItem,
    Navigation,
    ProgressIndicator,
    RadioButton,
    RadioGroup,
    ScrollBar,
    ScrollView,
    Slider,
    Splitter,
    Window,
}

/// Identifier of a widget in the tree.
#[derive(Clone, Copy, Debug, PartialEq, Eq, Structural)]
pub struct WidgetId(pub u64);

/// A child widget together with its identifier.
///
/// `id` is `None` while the framework has not assigned an identifier yet
/// (a child the parent created itself), and `Some` when the caller provided one.
pub struct WidgetPod<W> {
    pub id: Option<WidgetId>,
    pub widget: W,
}

impl<W> WidgetPod<W> {
    /// Wraps a widget whose identifier the framework assigns later.
    pub fn new(widget: W) -> (pod: Self)
        ensures
            pod.id.is_none(),
            pod.widget == widget,
    {
        WidgetPod { id: None, widget }
    }

    /// Wraps a widget with the given identifier.
    pub fn with_id(widget: W, id: WidgetId) -> (pod: Self)
        ensures
            pod.id == Some(id),
            pod.widget == widget,
    {
        WidgetPod { id: Some(id), widget }
    }

    /// Returns the identifier of the child, if one is assigned.
    pub fn id(&self) -> (id: Option<WidgetId>)
        ensures
            id == self.id,
    {
        self.id
    }
}

/// A request a widget addresses to the framework when its state changes.
#[derive(Clone, Copy, Debug, PartialEq, Eq, Structural)]
pub enum Request {
    /// Measure and lay out the widget again.
    Layout,
    /// Repaint the widget without touching its accessibility node.
    PaintOnly,
    /// Repaint the widget and rebuild its accessibility node.
    Render,
    /// Rebuild the accessibility node only.
    AccessibilityUpdate,
    /// The set of children changed.
    ChildrenChanged,
    /// A child was removed from the tree.
    RemoveChild,
    /// Call the widget again at the next animation frame.
    AnimFrame,
}

/// A floating-point value (`f64`) carried by its IEEE-754 bit pattern.
#[derive(Clone, Copy, Debug, Default, PartialEq, Eq, Structural)]
pub struct F64(pub u64);

/// The bits of `f64` infinity with the sign bit clear.
pub const F64_EXP_MASK: u64 = 0x7ff0_0000_0000_0000u64;

/// The bits of the `f64` mantissa.
pub const F64_MANTISSA_MASK: u64 = 0x000f_ffff_ffff_ffffu64;

/// The bits of `f64` without the sign bit.
pub const F64_MAGNITUDE_MASK: u64 = 0x7fff_ffff_ffff_ffffu64;

/// `bits` encodes a NaN: all exponent bits set and a non-zero mantissa.
pub open spec fn is_nan_bits(bits: u64) -> bool {
    (bits & F64_EXP_MASK) == F64_EXP_MASK && (bits & F64_MANTISSA_MASK) != 0
}

/// The sign bit of `f64`.
pub const F64_SIGN_MASK: u64 = 0x8000_0000_0000_0000u64;

/// `bits` encodes a finite value: not an infinity, not a NaN.
pub open spec fn is_finite_bits(bits: u64) -> bool {
    (bits & F64_EXP_MASK) != F64_EXP_MASK
}

/// `bits` encodes a value below zero (`-0.0` is not below zero, NaN is not
/// below anything).
pub open spec fn is_negative_bits(bits: u64) -> bool {
    (bits & F64_SIGN_MASK) != 0 && (bits & F64_MAGNITUDE_MASK) != 0 && !is_nan_bits(bits)
}

/// `bits` encodes positive or negative zero.
pub open spec fn is_zero_bits(bits: u64) -> bool {
    (bits & F64_MAGNITUDE_MASK) == 0
}

/// The `==` of `f64` on bit patterns: NaN equals nothing, the two zeros are
/// equal, and otherwise equal values have equal bits.
pub open spec fn f64_eq(a: F64, b: F64) -> bool {
    !is_nan_bits(a.0) && !is_nan_bits(b.0)
        && (a.0 == b.0 || (is_zero_bits(a.0) && is_zero_bits(b.0)))
}

impl F64 {
    /// Whether the value is finite (`f64::is_finite`).
    pub fn is_finite(self) -> (finite: bool)
        ensures
            finite == is_finite_bits(self.0),
    {
        (self.0 & F64_EXP_MASK) != F64_EXP_MASK
    }

    /// Whether the value is below zero (`self < 0.0`).
    pub fn is_negative(self) -> (negative: bool)
        ensures
            negative == is_negative_bits(self.0),
    {
        let nan = (self.0 & F64_EXP_MASK) == F64_EXP_MASK && (self.0 & F64_MANTISSA_MASK) != 0;
        (self.0 & F64_SIGN_MASK) != 0 && (self.0 & F64_MAGNITUDE_MASK) != 0 && !nan
    }

    /// The `==` of the two `f64` values.
    pub fn float_eq(self, other: F64) -> (eq: bool)
        ensures
            eq == f64_eq(self, other),
    {
        let a_nan = (self.0 & F64_EXP_MASK) == F64_EXP_MASK && (self.0 & F64_MANTISSA_MASK) != 0;
        let b_nan = (other.0 & F64_EXP_MASK) == F64_EXP_MASK && (other.0 & F64_MANTISSA_MASK) != 0;
        let both_zero = (self.0 & F64_MAGNITUDE_MASK) == 0 && (other.0 & F64_MAGNITUDE_MASK) == 0;
        !a_nan && !b_nan && (self.0 == other.0 || both_zero)
    }
}

/// A two-dimensional vector of `f64` coordinates.
#[derive(Clone, Copy, Debug, PartialEq, Eq, Structural)]
pub struct Vec2 {
    pub x: F64,
    pub y: F64,
}

impl Vec2 {
    /// The zero vector.
    pub fn zero() -> (v: Vec2)
        ensures
            v.x.0 == 0,
            v.y.0 == 0,
    {
        Vec2 { x: F64(0), y: F64(0) }
    }

    /// The `==` of two vectors: both coordinates compare equal as `f64`.
    pub fn float_eq(self, other: Vec2) -> (eq: bool)
        ensures
            eq == (f64_eq(self.x, other.x) && f64_eq(self.y, other.y)),
    {
        self.x.float_eq(other.x) && self.y.float_eq(other.y)
    }
}

/// A two-dimensional size of `f64` width and height.
#[derive(Clone, Copy, Debug, Default, PartialEq, Eq, Structural)]
pub struct Size {
    pub width: F64,
    pub height: F64,
}

impl Size {
    /// The `==` of two sizes: both dimensions compare equal as `f64`.
    pub fn float_eq(self, other: Size) -> (eq: bool)
        ensures
            eq == (f64_eq(self.width, other.width) && f64_eq(self.height, other.height)),
    {
        self.width.float_eq(other.width) && self.height.float_eq(other.height)
    }
}

/// What a length is asked for when a widget is measured along an axis.
#[derive(Clone, Copy, Debug, PartialEq, Eq, Structural)]
pub enum LenReq {
    /// The smallest length the content can take.
    MinContent,
    /// The length the content takes when given all the space it wants.
    MaxContent,
    /// The length the content takes when fitted into the given space.
    FitContent(F64),
}

/// A length in logical pixels, as an `f64`.
#[derive(Clone, Copy, Debug, Default, PartialEq, Eq, Structural)]
pub struct Length(pub F64);

/// How a widget's subtree is painted.
#[derive(Clone, Copy, Debug, PartialEq, Eq, Structural)]
pub enum PaintLayerMode {
    /// Painted into the framework's retained scene, with its parent.
    Inline,
    /// Realized by the host as an external layer (a foreign surface or viewport).
    External,
}

/// `100.0` as `f64` bits.
pub const F64_HUNDRED: u64 = 0x4059_0000_0000_0000u64;

/// Insets on the four sides of a rectangle, in `f64`.
#[derive(Clone, Copy, Debug, Default, PartialEq, Eq, Structural)]
pub struct Insets {
    pub x0: F64,
    pub y0: F64,
    pub x1: F64,
    pub y1: F64,
}

/// A two-dimensional axis.
#[derive(Clone, Copy, Debug, PartialEq, Eq, Structural)]
pub enum Axis {
    Horizontal,
    Vertical,
}

/// The axis other than `axis`.
pub open spec fn axis_cross(axis: Axis) -> Axis {
    match axis {
        Axis::Horizontal => Axis::Vertical,
        Axis::Vertical => Axis::Horizontal,
    }
}

impl Axis {
    /// The other axis.
    pub fn cross(self) -> (c: Axis)
        ensures
            c == axis_cross(self),
    {
        match self {
            Axis::Horizontal => Axis::Vertical,
            Axis::Vertical => Axis::Horizontal,
        }
    }
}

/// The kind of a pointer event, as the widgets distinguish it.
pub enum PointerInput {
    /// A button was pressed.
    Down,
    /// A button was released.
    Up(Option<MouseButton>),
    /// Any other pointer event (motion, scroll, enter, leave, ...).
    Other,
}

/// A key, as the widgets distinguish it.
pub enum KeyInput {
    /// A key producing the given characters.
    Character(String),
    /// The Enter key.
    Enter,
    /// The Page Up key.
    PageUp,
    /// The Page Down key.
    PageDown,
    /// The Up arrow key.
    ArrowUp,
    /// The Down arrow key.
    ArrowDown,
    /// The Left arrow key.
    ArrowLeft,
    /// The Right arrow key.
    ArrowRight,
    /// The Home key.
    Home,
    /// The End key.
    End,
    /// Any other named key.
    OtherNamed,
}

/// A keyboard event.
pub struct KeyEvent {
    pub key: KeyInput,
    /// The key was released (rather than pressed).
    pub is_up: bool,
}

/// The action requested by an accessibility event.
#[derive(Clone, Copy, Debug, PartialEq, Eq, Structural)]
pub enum AccessAction {
    Click,
    ScrollUp,
    ScrollDown,
    ScrollLeft,
    ScrollRight,
    Increment,
    Decrement,
    SetValue,
    Other,
}

/// A change of the widget's situation in the tree that the widget is told about.
#[derive(Clone, Copy, Debug, PartialEq, Eq, Structural)]
pub enum UpdateEvent {
    WidgetAdded,
    DisabledChanged(bool),
    HoveredChanged(bool),
    ActiveChanged(bool),
    FocusChanged(bool),
    FontsChanged,
    Other,
}

/// The situation changes on which interactive widgets repaint:
/// hover, active, focus and disabled changes.
pub open spec fn repaints_on(event: UpdateEvent) -> bool {
    match event {
        UpdateEvent::HoveredChanged(_) | UpdateEvent::ActiveChanged(_)
        | UpdateEvent::FocusChanged(_) | UpdateEvent::DisabledChanged(_) => true,
        _ => false,
    }
}

/// What an event handler can ask of the framework about the widget's
/// situation, and what it hands back: a captured pointer, submitted actions,
/// and whether the event was handled.
pub struct EventCtx<A> {
    /// The widget holds the pointer capture (it was pressed and not released).
    pub is_active: bool,
    /// The pointer is over the widget.
    pub is_hovered: bool,
    /// The widget is disabled.
    pub is_disabled: bool,
    /// The widget is the target of the current event (not an ancestor of it).
    pub is_target: bool,
    /// The handler asked to capture the pointer.
    pub pointer_captured: bool,
    /// The actions submitted by the handler, in order.
    pub actions: Vec<A>,
    /// The handler marked the event as handled.
    pub handled: bool,
}

impl<A> EventCtx<A> {
    /// A context for an event with the given situation and no effects yet.
    pub fn new(is_active: bool, is_hovered: bool, is_disabled: bool, is_target: bool) -> (ctx: Self)
        ensures
            ctx.is_active == is_active,
            ctx.is_hovered == is_hovered,
            ctx.is_disabled == is_disabled,
            ctx.is_target == is_target,
            !ctx.pointer_captured,
            ctx.actions@.len() == 0,
            !ctx.handled,
    {
        EventCtx {
            is_active,
            is_hovered,
            is_disabled,
            is_target,
            pointer_captured: false,
            actions: Vec::new(),
            handled: false,
        }
    }

    /// Captures the pointer.
    pub fn capture_pointer(&mut self)
        ensures
            final(self).pointer_captured,
            final(self).actions == old(self).actions,
            final(self).handled == old(self).handled,
            final(self).is_active == old(self).is_active,
            final(self).is_hovered == old(self).is_hovered,
            final(self).is_disabled == old(self).is_disabled,
            final(self).is_target == old(self).is_target,
    {
        self.pointer_captured = true;
    }

    /// Submits an action to the parent.
    pub fn submit_action(&mut self, action: A)
        ensures
            final(self).actions@ == old(self).actions@.push(action),
            final(self).pointer_captured == old(self).pointer_captured,
            final(self).handled == old(self).handled,
            final(self).is_active == old(self).is_active,
            final(self).is_hovered == old(self).is_hovered,
            final(self).is_disabled == old(self).is_disabled,
            final(self).is_target == old(self).is_target,
    {
        self.actions.push(action);
    }

    /// Marks the event as handled.
    pub fn set_handled(&mut self)
        ensures
            final(self).handled,
            final(self).actions == old(self).actions,
            final(self).pointer_captured == old(self).pointer_captured,
            final(self).is_active == old(self).is_active,
            final(self).is_hovered == old(self).is_hovered,
            final(self).is_disabled == old(self).is_disabled,
            final(self).is_target == old(self).is_target,
    {
        self.handled = true;
    }
}

/// The situation of a widget when it is painted.
#[derive(Clone, Copy, Debug, PartialEq, Eq, Structural)]
pub struct PaintState {
    pub is_disabled: bool,
    /// The widget holds the pointer capture (it is pressed).
    pub is_active: bool,
    pub is_hovered: bool,
    /// The widget has the keyboard focus itself.
    pub is_focus_target: bool,
}

/// Which background property a widget paints.
#[derive(Clone, Copy, Debug, PartialEq, Eq, Structural)]
pub enum BackgroundChoice {
    /// The background for a disabled widget.
    Disabled,
    /// The background for a pressed widget.
    Active,
    /// The ordinary background.
    Normal,
}

/// The background of an interactive widget: the disabled one when
/// disabled, else the active one when pressed, else the ordinary one.
pub open spec fn background_for(state: PaintState) -> BackgroundChoice {
    if state.is_disabled {
        BackgroundChoice::Disabled
    } else if state.is_active {
        BackgroundChoice::Active
    } else {
        BackgroundChoice::Normal
    }
}

/// Returns the background of an interactive widget in the given situation.
pub fn background_choice(state: PaintState) -> (choice: BackgroundChoice)
    ensures
        choice == background_for(state),
{
    if state.is_disabled {
        BackgroundChoice::Disabled
    } else if state.is_active {
        BackgroundChoice::Active
    } else {
        BackgroundChoice::Normal
    }
}

/// `key` is the space bar.
pub open spec fn is_space(key: KeyInput) -> bool {
    match key {
        KeyInput::Character(c) => c@ == seq![' '],
        _ => false,
    }
}

/// `key` is the space bar or the Enter key.
pub open spec fn is_space_or_enter(key: KeyInput) -> bool {
    is_space(key) || key is Enter
}

/// Returns whether `key` is the space bar.
pub fn key_is_space(key: &KeyInput) -> (space: bool)
    ensures
        space == is_space(*key),
{
    match key {
        KeyInput::Character(c) => {
            let s = c.as_str();
            if s.unicode_len() != 1 {
                false
            } else {
                let first = s.get_char(0);
                assert(first == ' ' ==> s@ =~= seq![' ']);
                first == ' '
            }
        },
        _ => false,
    }
}

/// Returns whether `key` is the space bar or the Enter key.
pub fn key_is_space_or_enter(key: &KeyInput) -> (pressed: bool)
    ensures
        pressed == is_space_or_enter(*key),
{
    match key {
        KeyInput::Enter => true,
        _ => key_is_space(key),
    }
}

} // verus!
