//! The events that sampling produces.

use vstd::prelude::*;
use crate::kinds::ButtonType;
use crate::kinds::ButtonTypeView;
use crate::models::DeviceButton;
use crate::models::DeviceType;
use crate::models::KeyCode;
use crate::models::Position;
use crate::pressed::Key;

verus! {

/// An event of a pointing device: the mouse, or the gamepad stick that
/// stands in for it. Axis events carry a position along one direction of
/// the display, in the units of [`Position`].
#[derive(Debug, Clone, Copy, PartialEq, Eq, Structural)]
pub enum DeviceEvent {
    ButtonPressed(DeviceButton),
    ButtonReleased(DeviceButton),
    MouseMoved(Position),
    AxisXMoved(i32),
    AxisYMoved(i32),
    DeviceChanged(DeviceType),
}

/// An event of a key: a key of the keyboard, or a button of the gamepad
/// that counts as a key.
#[derive(Debug, Clone, PartialEq, Eq)]
pub enum KeyboardEvent {
    KeyPressed(KeyCode),
    KeyReleased(KeyCode),
    ButtonPressed(ButtonType),
    ButtonReleased(ButtonType),
}

/// What a [`KeyboardEvent`] stands for.
pub enum KeyboardEventView {
    KeyPressed(KeyCode),
    KeyReleased(KeyCode),
    ButtonPressed(ButtonTypeView),
    ButtonReleased(ButtonTypeView),
}

impl View for KeyboardEvent {
    type V = KeyboardEventView;

    open spec fn view(&self) -> KeyboardEventView {
        match self {
            KeyboardEvent::KeyPressed(k) => KeyboardEventView::KeyPressed(*k),
            KeyboardEvent::KeyReleased(k) => KeyboardEventView::KeyReleased(*k),
            KeyboardEvent::ButtonPressed(b) => KeyboardEventView::ButtonPressed(b@),
            KeyboardEvent::ButtonReleased(b) => KeyboardEventView::ButtonReleased(b@),
        }
    }
}

impl KeyboardEvent {
    /// A copy of the event.
    pub fn copy(&self) -> (out: Self)
        ensures
            out@ == self@,
    {
        match self {
            KeyboardEvent::KeyPressed(k) => KeyboardEvent::KeyPressed(*k),
            KeyboardEvent::KeyReleased(k) => KeyboardEvent::KeyReleased(*k),
            KeyboardEvent::ButtonPressed(b) => KeyboardEvent::ButtonPressed(b.clone_key()),
            KeyboardEvent::ButtonReleased(b) => KeyboardEvent::ButtonReleased(b.clone_key()),
        }
    }
}

/// An event of a mouse button, for listeners that tell only the left and
/// right buttons apart and know the others by number.
#[derive(Debug, Clone, Copy, PartialEq, Eq, Structural)]
pub enum MouseEvent {
    LeftPressed,
    RightPressed,
    LeftReleased,
    RightReleased,
    UnknownPressed(usize),
    UnknownReleased(usize),
}

/// The number by which a button other than left and right is known.
pub open spec fn unknown_number(button: DeviceButton) -> usize {
    match button {
        DeviceButton::Middle => 2,
        DeviceButton::Forward => 4,
        DeviceButton::Back => 5,
        DeviceButton::Unknown(v) => v,
        _ => 0,
    }
}

/// The mouse event for a press or a release of `button`.
pub open spec fn mouse_event_of(button: DeviceButton, pressed: bool) -> MouseEvent {
    match button {
        DeviceButton::Left => if pressed {
            MouseEvent::LeftPressed
        } else {
            MouseEvent::LeftReleased
        },
        DeviceButton::Right => if pressed {
            MouseEvent::RightPressed
        } else {
            MouseEvent::RightReleased
        },
        _ => if pressed {
            MouseEvent::UnknownPressed(unknown_number(button))
        } else {
            MouseEvent::UnknownReleased(unknown_number(button))
        },
    }
}

impl MouseEvent {
    /// The mouse event for a press or a release of `button`.
    pub fn from_button(button: DeviceButton, pressed: bool) -> (out: Self)
        ensures
            out == mouse_event_of(button, pressed),
    {
        let number: usize = match button {
            DeviceButton::Left => {
                return if pressed {
                    MouseEvent::LeftPressed
                } else {
                    MouseEvent::LeftReleased
                };
            },
            DeviceButton::Right => {
                return if pressed {
                    MouseEvent::RightPressed
                } else {
                    MouseEvent::RightReleased
                };
            },
            DeviceButton::Middle => 2,
            DeviceButton::Forward => 4,
            DeviceButton::Back => 5,
            DeviceButton::Unknown(v) => v,
        };
        if pressed {
            MouseEvent::UnknownPressed(number)
        } else {
            MouseEvent::UnknownReleased(number)
        }
    }

    /// The mouse event that a device event is, if it is one of a button.
    pub fn from_device_event(event: &DeviceEvent) -> (out: Option<Self>)
        ensures
            out == match *event {
                DeviceEvent::ButtonPressed(b) => Some(mouse_event_of(b, true)),
                DeviceEvent::ButtonReleased(b) => Some(mouse_event_of(b, false)),
                _ => None,
            },
    {
        match event {
            DeviceEvent::ButtonPressed(b) => Some(Self::from_button(*b, true)),
            DeviceEvent::ButtonReleased(b) => Some(Self::from_button(*b, false)),
            _ => None,
        }
    }
}

/// Whether a sampling loop goes on or stops.
#[derive(Debug, PartialEq, Copy, Clone, Eq, Structural)]
pub enum InputGrabRunFlag {
    Run,
    Halt,
}

/// Why a callback could not be registered.
#[derive(Debug, Clone, Copy, PartialEq, Eq, Structural)]
pub enum UtilError {
    MouseCallbackRegister,
    KeyboardCallbackRegister,
}

impl UtilError {
    /// The error in words.
    pub fn message(&self) -> (out: &'static str)
        ensures
            out@ == match *self {
                UtilError::MouseCallbackRegister => "registering mouse event callback"@,
                UtilError::KeyboardCallbackRegister => "registering mouse event callback"@,
            },
    {
        match self {
            UtilError::MouseCallbackRegister => "registering mouse event callback",
            UtilError::KeyboardCallbackRegister => "registering mouse event callback",
        }
    }
}

} // verus!
