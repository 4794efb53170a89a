//! The controls of a gamepad and the raw joystick state that they read.
//!
//! A control ties a semantic name to one raw input: a button to a raw button
//! index, an axis to a raw axis (possibly inverted), a d-pad direction to one
//! sign of a hat axis. Raw state is handed in as a [`JoystickState`], a
//! snapshot taken by the caller; axis positions are whole numbers of
//! thousandths of the raw unit, so the full deflection of 100 units is
//! `MAX_AXIS_VAL`.

use vstd::prelude::*;

verus! {

/// Largest magnitude of an axis position, in thousandths of a raw unit.
pub const MAX_AXIS_VAL: i32 = 100_000;

/// Magnitude that a hat axis must exceed for a d-pad direction to count as
/// pressed: three quarters of the full deflection.
pub const DPAD_TRIGGER: i32 = 75_000;

/// Number of raw axes of a joystick.
pub const AXIS_COUNT: usize = 8;

/// A raw joystick axis.
#[derive(Debug, Clone, Copy, PartialEq, Eq, Structural)]
pub enum AxisId {
    X,
    Y,
    Z,
    R,
    U,
    V,
    PovX,
    PovY,
}

impl AxisId {
    /// Position of the axis in a joystick's list of axes.
    pub open spec fn spec_index(self) -> int {
        match self {
            AxisId::X => 0,
            AxisId::Y => 1,
            AxisId::Z => 2,
            AxisId::R => 3,
            AxisId::U => 4,
            AxisId::V => 5,
            AxisId::PovX => 6,
            AxisId::PovY => 7,
        }
    }

    /// Position of the axis in a joystick's list of axes.
    pub fn index(self) -> (out: usize)
        ensures
            out == self.spec_index(),
            out < AXIS_COUNT,
    {
        match self {
            AxisId::X => 0,
            AxisId::Y => 1,
            AxisId::Z => 2,
            AxisId::R => 3,
            AxisId::U => 4,
            AxisId::V => 5,
            AxisId::PovX => 6,
            AxisId::PovY => 7,
        }
    }
}

/// A snapshot of one raw joystick.
#[derive(Debug, Clone, PartialEq, Eq)]
pub struct JoystickState {
    /// Whether a device is connected in this slot.
    pub connected: bool,
    /// Vendor id that the device reports.
    pub vendor_id: u32,
    /// Product id that the device reports.
    pub product_id: u32,
    /// Axis positions by [`AxisId::index`]; a missing entry reads as 0.
    pub axes: Vec<i32>,
    /// Button levels by raw index; a missing entry reads as not pressed.
    pub buttons: Vec<bool>,
}

/// `v` limited to the range of axis positions.
pub open spec fn clamp_axis(v: int) -> int {
    if v < -(MAX_AXIS_VAL as int) {
        -(MAX_AXIS_VAL as int)
    } else if v > MAX_AXIS_VAL as int {
        MAX_AXIS_VAL as int
    } else {
        v
    }
}

impl JoystickState {
    /// Position of a raw axis, limited to `[-MAX_AXIS_VAL, MAX_AXIS_VAL]`.
    pub open spec fn axis_value(&self, axis: AxisId) -> int {
        if axis.spec_index() < self.axes@.len() {
            clamp_axis(self.axes@[axis.spec_index()] as int)
        } else {
            0
        }
    }

    /// Level of a raw button.
    pub open spec fn button_level(&self, button: u32) -> bool {
        button < self.buttons@.len() && self.buttons@[button as int]
    }

    /// Position of a raw axis, limited to `[-MAX_AXIS_VAL, MAX_AXIS_VAL]`.
    pub fn axis_position(&self, axis: AxisId) -> (out: i32)
        ensures
            out == self.axis_value(axis),
            -MAX_AXIS_VAL <= out <= MAX_AXIS_VAL,
    {
        let i = axis.index();
        if i < self.axes.len() {
            let v = self.axes[i];
            if v < -MAX_AXIS_VAL {
                -MAX_AXIS_VAL
            } else if v > MAX_AXIS_VAL {
                MAX_AXIS_VAL
            } else {
                v
            }
        } else {
            0
        }
    }

    /// Level of a raw button.
    pub fn is_button_pressed(&self, button: u32) -> (out: bool)
        ensures
            out == self.button_level(button),
    {
        let i = button as usize;
        i < self.buttons.len() && self.buttons[i]
    }
}

/// What a button-like control offers: a name and a pressed state.
pub trait Buttonish {
    /// The control's semantic name.
    spec fn spec_name(&self) -> Seq<char>;

    /// Whether the control counts as pressed in a joystick state.
    spec fn pressed_in(&self, pad: &JoystickState) -> bool;

    /// Whether the control counts as pressed in a joystick state.
    fn is_pressed(&self, pad: &JoystickState) -> (out: bool)
        ensures
            out == self.pressed_in(pad),
    ;

    /// The control's semantic name.
    fn name(&self) -> (out: &str)
        ensures
            out@ == self.spec_name(),
    ;
}

/// What an axis-like control offers: a name, a raw axis and a position.
pub trait Axisish {
    /// The control's semantic name.
    spec fn spec_name(&self) -> Seq<char>;

    /// The raw axis that the control reads.
    spec fn spec_axis_id(&self) -> AxisId;

    /// The control's position in a joystick state.
    spec fn position_in(&self, pad: &JoystickState) -> int;

    /// The control's position in a joystick state.
    fn position(&self, pad: &JoystickState) -> (out: i32)
        ensures
            out == self.position_in(pad),
            -MAX_AXIS_VAL <= out <= MAX_AXIS_VAL,
    ;

    /// The control's semantic name.
    fn name(&self) -> (out: &str)
        ensures
            out@ == self.spec_name(),
    ;

    /// The opposite position.
    fn invert(&self, pos: i32) -> (out: i32)
        requires
            pos > i32::MIN,
        ensures
            out == -pos,
    ;

    /// The raw axis that the control reads.
    fn axis_id(&self) -> (out: AxisId)
        ensures
            out == self.spec_axis_id(),
    ;
}

/// A button: a name for one raw button.
#[derive(Debug, Clone, PartialEq)]
pub struct Button {
    id: u32,
    button_name: String,
}

/// What a [`Button`] stands for.
pub struct ButtonView {
    pub id: u32,
    pub name: Seq<char>,
}

impl View for Button {
    type V = ButtonView;

    closed spec fn view(&self) -> ButtonView {
        ButtonView { id: self.id, name: self.button_name@ }
    }
}

impl Button {
    /// A button called `button_name` that reads raw button `id`.
    pub fn new(id: u32, button_name: String) -> (out: Self)
        ensures
            out@ == (ButtonView { id, name: button_name@ }),
    {
        Self { id, button_name }
    }

    /// The raw button index.
    pub fn id(&self) -> (out: u32)
        ensures
            out == self@.id,
    {
        self.id
    }
}

impl Buttonish for Button {
    open spec fn spec_name(&self) -> Seq<char> {
        self@.name
    }

    open spec fn pressed_in(&self, pad: &JoystickState) -> bool {
        pad.button_level(self@.id)
    }

    fn is_pressed(&self, pad: &JoystickState) -> (out: bool) {
        pad.is_button_pressed(self.id)
    }

    fn name(&self) -> (out: &str) {
        self.button_name.as_str()
    }
}

/// An axis: a name for one raw axis, read as it is or inverted.
#[derive(Debug, Clone, PartialEq)]
pub struct Axis {
    id: AxisId,
    inverted: bool,
    axis_name: String,
}

/// What an [`Axis`] stands for.
pub struct AxisView {
    pub id: AxisId,
    pub inverted: bool,
    pub name: Seq<char>,
}

impl View for Axis {
    type V = AxisView;

    closed spec fn view(&self) -> AxisView {
        AxisView { id: self.id, inverted: self.inverted, name: self.axis_name@ }
    }
}

impl AxisView {
    /// The position of such an axis in a joystick state.
    pub open spec fn position_in(self, pad: &JoystickState) -> int {
        if self.inverted {
            -pad.axis_value(self.id)
        } else {
            pad.axis_value(self.id)
        }
    }
}

impl Axis {
    /// An axis called `axis_name` that reads raw axis `id`.
    pub fn new(id: AxisId, inverted: bool, axis_name: String) -> (out: Self)
        ensures
            out@ == (AxisView { id, inverted, name: axis_name@ }),
    {
        Self { id, inverted, axis_name }
    }

    /// The axis's semantic name.
    pub fn axis_name(&self) -> (out: &str)
        ensures
            out@ == self@.name,
    {
        self.axis_name.as_str()
    }

    /// The raw axis.
    pub fn id(&self) -> (out: AxisId)
        ensures
            out == self@.id,
    {
        self.id
    }

    /// Whether positions are sign-flipped.
    pub fn inverted(&self) -> (out: bool)
        ensures
            out == self@.inverted,
    {
        self.inverted
    }
}

impl Axisish for Axis {
    open spec fn spec_name(&self) -> Seq<char> {
        self@.name
    }

    open spec fn spec_axis_id(&self) -> AxisId {
        self@.id
    }

    open spec fn position_in(&self, pad: &JoystickState) -> int {
        self@.position_in(pad)
    }

    fn position(&self, pad: &JoystickState) -> (out: i32) {
        let pos = pad.axis_position(self.id());
        if self.inverted {
            self.invert(pos)
        } else {
            pos
        }
    }

    fn name(&self) -> (out: &str) {
        self.axis_name()
    }

    fn invert(&self, pos: i32) -> (out: i32) {
        0 - pos
    }

    fn axis_id(&self) -> (out: AxisId) {
        self.id()
    }
}

/// A d-pad direction: a name for one sign of a hat axis, read as a button.
#[derive(Debug, Clone, PartialEq)]
pub struct DPad {
    axis_id: AxisId,
    is_negative: bool,
    direction_name: String,
}

/// What a [`DPad`] stands for.
pub struct DPadView {
    pub axis_id: AxisId,
    pub is_negative: bool,
    pub name: Seq<char>,
}

impl View for DPad {
    type V = DPadView;

    closed spec fn view(&self) -> DPadView {
        DPadView {
            axis_id: self.axis_id,
            is_negative: self.is_negative,
            name: self.direction_name@,
        }
    }
}

impl DPadView {
    /// Whether such a direction counts as pressed: the hat axis lies beyond
    /// the trigger magnitude on the direction's side.
    pub open spec fn pressed_in(self, pad: &JoystickState) -> bool {
        if self.is_negative {
            pad.axis_value(self.axis_id) < -(DPAD_TRIGGER as int)
        } else {
            pad.axis_value(self.axis_id) > DPAD_TRIGGER as int
        }
    }
}

impl DPad {
    /// A direction called `direction_name` on hat axis `axis_id`.
    pub fn new(axis_id: AxisId, is_negative: bool, direction_name: String) -> (out: Self)
        ensures
            out@ == (DPadView { axis_id, is_negative, name: direction_name@ }),
    {
        Self { axis_id, is_negative, direction_name }
    }

    /// The hat axis.
    pub fn axis_id(&self) -> (out: AxisId)
        ensures
            out == self@.axis_id,
    {
        self.axis_id
    }

    /// Whether the direction is the negative side of its axis.
    pub fn is_negative(&self) -> (out: bool)
        ensures
            out == self@.is_negative,
    {
        self.is_negative
    }
}

impl Buttonish for DPad {
    open spec fn spec_name(&self) -> Seq<char> {
        self@.name
    }

    open spec fn pressed_in(&self, pad: &JoystickState) -> bool {
        self@.pressed_in(pad)
    }

    fn is_pressed(&self, pad: &JoystickState) -> (out: bool) {
        let pos = pad.axis_position(self.axis_id);
        let is_neg = pos < 0;
        if !self.is_negative {
            if !is_neg {
                pos > DPAD_TRIGGER
            } else {
                false
            }
        } else {
            if is_neg {
                0 - pos > DPAD_TRIGGER
            } else {
                false
            }
        }
    }

    fn name(&self) -> (out: &str) {
        self.direction_name.as_str()
    }
}

/// A control that is read as a button.
#[derive(Debug, Clone, PartialEq)]
pub enum ButtonControl {
    Button(Button),
    DPad(DPad),
}

/// What a [`ButtonControl`] stands for.
pub enum ButtonControlView {
    Button(ButtonView),
    DPad(DPadView),
}

impl View for ButtonControl {
    type V = ButtonControlView;

    open spec fn view(&self) -> ButtonControlView {
        match self {
            ButtonControl::Button(b) => ButtonControlView::Button(b@),
            ButtonControl::DPad(d) => ButtonControlView::DPad(d@),
        }
    }
}

impl ButtonControlView {
    /// The control's semantic name.
    pub open spec fn name(self) -> Seq<char> {
        match self {
            ButtonControlView::Button(b) => b.name,
            ButtonControlView::DPad(d) => d.name,
        }
    }

    /// Whether the control counts as pressed in a joystick state.
    pub open spec fn pressed_in(self, pad: &JoystickState) -> bool {
        match self {
            ButtonControlView::Button(b) => pad.button_level(b.id),
            ButtonControlView::DPad(d) => d.pressed_in(pad),
        }
    }
}

impl Buttonish for ButtonControl {
    open spec fn spec_name(&self) -> Seq<char> {
        self@.name()
    }

    open spec fn pressed_in(&self, pad: &JoystickState) -> bool {
        self@.pressed_in(pad)
    }

    fn is_pressed(&self, pad: &JoystickState) -> (out: bool) {
        match self {
            ButtonControl::Button(b) => b.is_pressed(pad),
            ButtonControl::DPad(d) => d.is_pressed(pad),
        }
    }

    fn name(&self) -> (out: &str) {
        match self {
            ButtonControl::Button(b) => b.name(),
            ButtonControl::DPad(d) => d.name(),
        }
    }
}

} // verus!
