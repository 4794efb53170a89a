//! The plain values that input events speak of: devices, mouse buttons,
//! keys and positions.

use vstd::prelude::*;
use crate::kinds::ButtonType;
use crate::kinds::ButtonTypeView;
use crate::pressed::Key;

verus! {

/// The platform that raw input comes from. It decides which section of the
/// controller database is read and how raw mouse buttons are numbered.
#[derive(Debug, Clone, Copy, PartialEq, Eq, Structural)]
pub enum Platform {
    Linux,
    Windows,
}

impl Platform {
    /// The line that opens the platform's section of the database.
    pub open spec fn spec_db_header(self) -> Seq<char> {
        match self {
            Platform::Linux => "# Linux"@,
            Platform::Windows => "# Windows"@,
        }
    }

    /// The line that opens the platform's section of the database.
    pub fn db_header(self) -> (out: &'static str)
        ensures
            out@ == self.spec_db_header(),
    {
        match self {
            Platform::Linux => "# Linux",
            Platform::Windows => "# Windows",
        }
    }
}

/// The class of device that input last came from.
#[derive(Debug, Clone, Copy, PartialEq, Eq, Structural)]
pub enum DeviceType {
    Mouse,
    GamePad,
}

impl Default for DeviceType {
    fn default() -> (out: Self)
        ensures
            out == DeviceType::Mouse,
    {
        Self::Mouse
    }
}

/// The stick of a gamepad that moves the pointer.
#[derive(Debug, Clone, Copy, PartialEq, Eq, Structural)]
pub enum GamepadMouseStick {
    Left,
    Right,
}

/// A button of a pointing device.
#[derive(Eq, Hash, PartialEq, Debug, Clone, Copy, Structural)]
pub enum DeviceButton {
    Left,
    Right,
    Middle,
    Forward,
    Back,
    Unknown(usize),
}

impl Default for DeviceButton {
    fn default() -> (out: Self)
        ensures
            out == DeviceButton::Unknown(0),
    {
        Self::Unknown(0)
    }
}

impl View for DeviceButton {
    type V = DeviceButton;

    open spec fn view(&self) -> DeviceButton {
        *self
    }
}

impl Key for DeviceButton {
    fn same_key(&self, other: &Self) -> (same: bool) {
        *self == *other
    }

    fn clone_key(&self) -> (out: Self) {
        *self
    }
}

/// The button that a raw button index stands for. The index 1 is the left
/// button and 4 and 5 the side buttons everywhere; the middle and right
/// buttons are 2 and 3 on Linux, 3 and 2 on Windows.
pub open spec fn device_button_of(value: usize, platform: Platform) -> DeviceButton {
    if value == 1 {
        DeviceButton::Left
    } else if value == 2 {
        match platform {
            Platform::Linux => DeviceButton::Middle,
            Platform::Windows => DeviceButton::Right,
        }
    } else if value == 3 {
        match platform {
            Platform::Linux => DeviceButton::Right,
            Platform::Windows => DeviceButton::Middle,
        }
    } else if value == 4 {
        DeviceButton::Forward
    } else if value == 5 {
        DeviceButton::Back
    } else {
        DeviceButton::Unknown(value)
    }
}

impl DeviceButton {
    /// The button that a raw button index stands for on `platform`.
    pub fn from_index(value: usize, platform: Platform) -> (out: Self)
        ensures
            out == device_button_of(value, platform),
    {
        match value {
            1 => DeviceButton::Left,
            2 => match platform {
                Platform::Linux => DeviceButton::Middle,
                Platform::Windows => DeviceButton::Right,
            },
            3 => match platform {
                Platform::Linux => DeviceButton::Right,
                Platform::Windows => DeviceButton::Middle,
            },
            4 => DeviceButton::Forward,
            5 => DeviceButton::Back,
            v => DeviceButton::Unknown(v),
        }
    }
}

/// A key of the keyboard, by the code that the caller gives it.
#[derive(Eq, Hash, PartialEq, Debug, Clone, Copy, Structural)]
pub struct KeyCode(pub u32);

impl View for KeyCode {
    type V = KeyCode;

    open spec fn view(&self) -> KeyCode {
        *self
    }
}

impl Key for KeyCode {
    fn same_key(&self, other: &Self) -> (same: bool) {
        self.0 == other.0
    }

    fn clone_key(&self) -> (out: Self) {
        *self
    }
}

/// A key of the keyboard or a button of a gamepad that counts as a key.
#[derive(Debug, Clone, Hash, PartialEq, Eq)]
pub enum ButtonOrKey {
    Key(KeyCode),
    Button(ButtonType),
}

/// What a [`ButtonOrKey`] stands for.
pub enum ButtonOrKeyView {
    Key(KeyCode),
    Button(ButtonTypeView),
}

impl View for ButtonOrKey {
    type V = ButtonOrKeyView;

    open spec fn view(&self) -> ButtonOrKeyView {
        match self {
            ButtonOrKey::Key(k) => ButtonOrKeyView::Key(*k),
            ButtonOrKey::Button(b) => ButtonOrKeyView::Button(b@),
        }
    }
}

impl Key for ButtonOrKey {
    fn same_key(&self, other: &Self) -> (same: bool) {
        match (self, other) {
            (ButtonOrKey::Key(a), ButtonOrKey::Key(b)) => a.same_key(b),
            (ButtonOrKey::Button(a), ButtonOrKey::Button(b)) => a.same_key(b),
            _ => false,
        }
    }

    fn clone_key(&self) -> (out: Self) {
        match self {
            ButtonOrKey::Key(k) => ButtonOrKey::Key(*k),
            ButtonOrKey::Button(b) => ButtonOrKey::Button(b.clone_key()),
        }
    }
}

/// Number of position units in the full width or height of the display.
pub const POSITION_SCALE: i32 = 1_000_000;

/// A position on the display, in millionths of its width and height.
#[derive(Debug, Clone, Copy, PartialEq, Eq, Structural)]
pub struct Position {
    pub x: i32,
    pub y: i32,
}

impl Default for Position {
    fn default() -> (out: Self)
        ensures
            out == (Position { x: 0, y: 0 }),
    {
        Position { x: 0, y: 0 }
    }
}

} // verus!
