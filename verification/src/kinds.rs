//! The semantic names of gamepad controls.
//!
//! The controller database names each control; the known names become
//! variants of [`ButtonType`] and [`AxisType`], compared without regard to
//! the case of ASCII letters, and any other name is kept in the unknown
//! variant. Turning a name into a type never fails.

use vstd::prelude::*;
use crate::pressed::Key;
use crate::text::chars_of;
use crate::text::eq_ignore_case;
use crate::text::equals_ignore_case;
use crate::text::string_from_chars;

verus! {

/// Whether `name` is `known`, whatever the case of its ASCII letters.
fn name_is(name: &[char], known: &str) -> (same: bool)
    ensures
        same == eq_ignore_case(name@, known@),
{
    let known_chars = chars_of(known);
    equals_ignore_case(name, known_chars.as_slice())
}

/// The semantic name of an axis.
#[derive(Debug, Clone, Hash, Eq, PartialEq)]
pub enum AxisType {
    LeftX,
    LeftY,
    LeftTrigger,
    RightX,
    RightY,
    RightTrigger,
    /// A name that is none of the known ones, kept as written.
    UnknownAxis(String),
}

/// What an [`AxisType`] stands for.
pub enum AxisTypeView {
    LeftX,
    LeftY,
    LeftTrigger,
    RightX,
    RightY,
    RightTrigger,
    UnknownAxis(Seq<char>),
}

impl View for AxisType {
    type V = AxisTypeView;

    open spec fn view(&self) -> AxisTypeView {
        match self {
            AxisType::LeftX => AxisTypeView::LeftX,
            AxisType::LeftY => AxisTypeView::LeftY,
            AxisType::LeftTrigger => AxisTypeView::LeftTrigger,
            AxisType::RightX => AxisTypeView::RightX,
            AxisType::RightY => AxisTypeView::RightY,
            AxisType::RightTrigger => AxisTypeView::RightTrigger,
            AxisType::UnknownAxis(name) => AxisTypeView::UnknownAxis(name@),
        }
    }
}

/// The axis type that a control's name stands for: the known type whose
/// name it is, whatever the case of its ASCII letters, else the unknown type
/// that keeps the name.
pub open spec fn axis_type_of(name: Seq<char>) -> AxisTypeView {
    if eq_ignore_case(name, "LeftX"@) {
        AxisTypeView::LeftX
    } else if eq_ignore_case(name, "LeftY"@) {
        AxisTypeView::LeftY
    } else if eq_ignore_case(name, "LeftTrigger"@) {
        AxisTypeView::LeftTrigger
    } else if eq_ignore_case(name, "RightX"@) {
        AxisTypeView::RightX
    } else if eq_ignore_case(name, "RightY"@) {
        AxisTypeView::RightY
    } else if eq_ignore_case(name, "RightTrigger"@) {
        AxisTypeView::RightTrigger
    } else {
        AxisTypeView::UnknownAxis(name)
    }
}

impl AxisTypeView {
    /// A number that tells the known types apart; the unknown ones share one.
    pub open spec fn ordinal(self) -> int {
        match self {
            AxisTypeView::LeftX => 0,
            AxisTypeView::LeftY => 1,
            AxisTypeView::LeftTrigger => 2,
            AxisTypeView::RightX => 3,
            AxisTypeView::RightY => 4,
            AxisTypeView::RightTrigger => 5,
            AxisTypeView::UnknownAxis(_) => 6,
        }
    }
}

impl AxisType {
    /// The type that a control's name stands for.
    pub fn from_chars(name: &[char]) -> (out: Self)
        ensures
            out@ == axis_type_of(name@),
    {
        if name_is(name, "LeftX") {
            AxisType::LeftX
        } else if name_is(name, "LeftY") {
            AxisType::LeftY
        } else if name_is(name, "LeftTrigger") {
            AxisType::LeftTrigger
        } else if name_is(name, "RightX") {
            AxisType::RightX
        } else if name_is(name, "RightY") {
            AxisType::RightY
        } else if name_is(name, "RightTrigger") {
            AxisType::RightTrigger
        } else {
            AxisType::UnknownAxis(string_from_chars(name))
        }
    }

    /// The type that a control's name stands for.
    pub fn from_name(name: &str) -> (out: Self)
        ensures
            out@ == axis_type_of(name@),
    {
        let chars = chars_of(name);
        Self::from_chars(chars.as_slice())
    }

    fn ordinal(&self) -> (out: u8)
        ensures
            out == self@.ordinal(),
    {
        match self {
            AxisType::LeftX => 0,
            AxisType::LeftY => 1,
            AxisType::LeftTrigger => 2,
            AxisType::RightX => 3,
            AxisType::RightY => 4,
            AxisType::RightTrigger => 5,
            AxisType::UnknownAxis(_) => 6,
        }
    }
}

impl Key for AxisType {
    fn same_key(&self, other: &Self) -> (same: bool) {
        match (self, other) {
            (AxisType::UnknownAxis(a), AxisType::UnknownAxis(b)) => {
                let same = *a == *b;
                proof {
                    assert(same == (self@ == other@));
                }
                same
            },
            _ => self.ordinal() == other.ordinal(),
        }
    }

    fn clone_key(&self) -> (out: Self) {
        match self {
            AxisType::LeftX => AxisType::LeftX,
            AxisType::LeftY => AxisType::LeftY,
            AxisType::LeftTrigger => AxisType::LeftTrigger,
            AxisType::RightX => AxisType::RightX,
            AxisType::RightY => AxisType::RightY,
            AxisType::RightTrigger => AxisType::RightTrigger,
            AxisType::UnknownAxis(name) => AxisType::UnknownAxis(name.clone()),
        }
    }
}

/// The semantic name of a button.
#[derive(Debug, Clone, Hash, Eq, PartialEq)]
pub enum ButtonType {
    A,
    B,
    X,
    Y,
    Back,
    Start,
    DPDown,
    DPLeft,
    DPRight,
    DPUp,
    LeftShoulder,
    LeftStick,
    RightShoulder,
    RightStick,
    /// A name that is none of the known ones, kept as written.
    UnknownButton(String),
}

/// What a [`ButtonType`] stands for.
pub enum ButtonTypeView {
    A,
    B,
    X,
    Y,
    Back,
    Start,
    DPDown,
    DPLeft,
    DPRight,
    DPUp,
    LeftShoulder,
    LeftStick,
    RightShoulder,
    RightStick,
    UnknownButton(Seq<char>),
}

impl View for ButtonType {
    type V = ButtonTypeView;

    open spec fn view(&self) -> ButtonTypeView {
        match self {
            ButtonType::A => ButtonTypeView::A,
            ButtonType::B => ButtonTypeView::B,
            ButtonType::X => ButtonTypeView::X,
            ButtonType::Y => ButtonTypeView::Y,
            ButtonType::Back => ButtonTypeView::Back,
            ButtonType::Start => ButtonTypeView::Start,
            ButtonType::DPDown => ButtonTypeView::DPDown,
            ButtonType::DPLeft => ButtonTypeView::DPLeft,
            ButtonType::DPRight => ButtonTypeView::DPRight,
            ButtonType::DPUp => ButtonTypeView::DPUp,
            ButtonType::LeftShoulder => ButtonTypeView::LeftShoulder,
            ButtonType::LeftStick => ButtonTypeView::LeftStick,
            ButtonType::RightShoulder => ButtonTypeView::RightShoulder,
            ButtonType::RightStick => ButtonTypeView::RightStick,
            ButtonType::UnknownButton(name) => ButtonTypeView::UnknownButton(name@),
        }
    }
}

/// The button type that a control's name stands for: the known type whose
/// name it is, whatever the case of its ASCII letters, else the unknown type
/// that keeps the name.
pub open spec fn button_type_of(name: Seq<char>) -> ButtonTypeView {
    if eq_ignore_case(name, "A"@) {
        ButtonTypeView::A
    } else if eq_ignore_case(name, "B"@) {
        ButtonTypeView::B
    } else if eq_ignore_case(name, "X"@) {
        ButtonTypeView::X
    } else if eq_ignore_case(name, "Y"@) {
        ButtonTypeView::Y
    } else if eq_ignore_case(name, "Back"@) {
        ButtonTypeView::Back
    } else if eq_ignore_case(name, "Start"@) {
        ButtonTypeView::Start
    } else if eq_ignore_case(name, "DPDown"@) {
        ButtonTypeView::DPDown
    } else if eq_ignore_case(name, "DPLeft"@) {
        ButtonTypeView::DPLeft
    } else if eq_ignore_case(name, "DPRight"@) {
        ButtonTypeView::DPRight
    } else if eq_ignore_case(name, "DPUp"@) {
        ButtonTypeView::DPUp
    } else if eq_ignore_case(name, "LeftShoulder"@) {
        ButtonTypeView::LeftShoulder
    } else if eq_ignore_case(name, "LeftStick"@) {
        ButtonTypeView::LeftStick
    } else if eq_ignore_case(name, "RightShoulder"@) {
        ButtonTypeView::RightShoulder
    } else if eq_ignore_case(name, "RightStick"@) {
        ButtonTypeView::RightStick
    } else {
        ButtonTypeView::UnknownButton(name)
    }
}

impl ButtonTypeView {
    /// A number that tells the known types apart; the unknown ones share one.
    pub open spec fn ordinal(self) -> int {
        match self {
            ButtonTypeView::A => 0,
            ButtonTypeView::B => 1,
            ButtonTypeView::X => 2,
            ButtonTypeView::Y => 3,
            ButtonTypeView::Back => 4,
            ButtonTypeView::Start => 5,
            ButtonTypeView::DPDown => 6,
            ButtonTypeView::DPLeft => 7,
            ButtonTypeView::DPRight => 8,
            ButtonTypeView::DPUp => 9,
            ButtonTypeView::LeftShoulder => 10,
            ButtonTypeView::LeftStick => 11,
            ButtonTypeView::RightShoulder => 12,
            ButtonTypeView::RightStick => 13,
            ButtonTypeView::UnknownButton(_) => 14,
        }
    }
}

impl ButtonType {
    /// The type that a control's name stands for.
    pub fn from_chars(name: &[char]) -> (out: Self)
        ensures
            out@ == button_type_of(name@),
    {
        if name_is(name, "A") {
            ButtonType::A
        } else if name_is(name, "B") {
            ButtonType::B
        } else if name_is(name, "X") {
            ButtonType::X
        } else if name_is(name, "Y") {
            ButtonType::Y
        } else if name_is(name, "Back") {
            ButtonType::Back
        } else if name_is(name, "Start") {
            ButtonType::Start
        } else if name_is(name, "DPDown") {
            ButtonType::DPDown
        } else if name_is(name, "DPLeft") {
            ButtonType::DPLeft
        } else if name_is(name, "DPRight") {
            ButtonType::DPRight
        } else if name_is(name, "DPUp") {
            ButtonType::DPUp
        } else if name_is(name, "LeftShoulder") {
            ButtonType::LeftShoulder
        } else if name_is(name, "LeftStick") {
            ButtonType::LeftStick
        } else if name_is(name, "RightShoulder") {
            ButtonType::RightShoulder
        } else if name_is(name, "RightStick") {
            ButtonType::RightStick
        } else {
            ButtonType::UnknownButton(string_from_chars(name))
        }
    }

    /// The type that a control's name stands for.
    pub fn from_name(name: &str) -> (out: Self)
        ensures
            out@ == button_type_of(name@),
    {
        let chars = chars_of(name);
        Self::from_chars(chars.as_slice())
    }

    fn ordinal(&self) -> (out: u8)
        ensures
            out == self@.ordinal(),
    {
        match self {
            ButtonType::A => 0,
            ButtonType::B => 1,
            ButtonType::X => 2,
            ButtonType::Y => 3,
            ButtonType::Back => 4,
            ButtonType::Start => 5,
            ButtonType::DPDown => 6,
            ButtonType::DPLeft => 7,
            ButtonType::DPRight => 8,
            ButtonType::DPUp => 9,
            ButtonType::LeftShoulder => 10,
            ButtonType::LeftStick => 11,
            ButtonType::RightShoulder => 12,
            ButtonType::RightStick => 13,
            ButtonType::UnknownButton(_) => 14,
        }
    }
}

impl Key for ButtonType {
    fn same_key(&self, other: &Self) -> (same: bool) {
        match (self, other) {
            (ButtonType::UnknownButton(a), ButtonType::UnknownButton(b)) => {
                let same = *a == *b;
                proof {
                    assert(same == (self@ == other@));
                }
                same
            },
            _ => self.ordinal() == other.ordinal(),
        }
    }

    fn clone_key(&self) -> (out: Self) {
        match self {
            ButtonType::A => ButtonType::A,
            ButtonType::B => ButtonType::B,
            ButtonType::X => ButtonType::X,
            ButtonType::Y => ButtonType::Y,
            ButtonType::Back => ButtonType::Back,
            ButtonType::Start => ButtonType::Start,
            ButtonType::DPDown => ButtonType::DPDown,
            ButtonType::DPLeft => ButtonType::DPLeft,
            ButtonType::DPRight => ButtonType::DPRight,
            ButtonType::DPUp => ButtonType::DPUp,
            ButtonType::LeftShoulder => ButtonType::LeftShoulder,
            ButtonType::LeftStick => ButtonType::LeftStick,
            ButtonType::RightShoulder => ButtonType::RightShoulder,
            ButtonType::RightStick => ButtonType::RightStick,
            ButtonType::UnknownButton(name) => ButtonType::UnknownButton(name.clone()),
        }
    }
}

} // verus!
