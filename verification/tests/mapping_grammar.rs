use ptuber::controls::{
    Axis, AxisId, Axisish, Button, ButtonControl, Buttonish, DPad, JoystickState, DPAD_TRIGGER,
    MAX_AXIS_VAL,
};
use ptuber::guid::{hex_digit, parse_guid, Guid};
use ptuber::kinds::{AxisType, ButtonType};
use ptuber::mapping::{parse_axis, parse_axis_or_button, parse_button, parse_dpad, AxisOrButton};

fn axis(id: AxisId, inverted: bool, name: &str) -> Option<AxisOrButton> {
    Some(AxisOrButton::Axis(Axis::new(id, inverted, String::from(name))))
}

fn button(id: u32, name: &str) -> Option<AxisOrButton> {
    Some(AxisOrButton::Button(ButtonControl::Button(Button::new(id, String::from(name)))))
}

fn dpad(id: AxisId, negative: bool, name: &str) -> Option<AxisOrButton> {
    Some(AxisOrButton::Button(ButtonControl::DPad(DPad::new(id, negative, String::from(name)))))
}

#[test]
fn mapping_entries_parse_by_kind() {
    assert_eq!(parse_axis_or_button("rightx:a2"), axis(AxisId::Z, false, "rightx"));
    assert_eq!(parse_axis_or_button("rightx:-a2"), axis(AxisId::Z, true, "rightx"));
    assert_eq!(parse_axis_or_button("a:b2"), button(2, "a"));
    assert_eq!(parse_axis_or_button("dpdown:h0.4"), dpad(AxisId::PovY, true, "dpdown"));
    assert_eq!(parse_axis_or_button("dpright:h0.2"), dpad(AxisId::PovX, false, "dpright"));
    assert_eq!(parse_axis_or_button("x:a10"), None);
    assert_eq!(parse_axis_or_button("x:b10"), None);
}

#[test]
fn every_axis_digit_selects_its_axis() {
    assert_eq!(parse_axis_or_button("leftx:a0"), axis(AxisId::X, false, "leftx"));
    assert_eq!(parse_axis_or_button("lefty:a1"), axis(AxisId::Y, false, "lefty"));
    assert_eq!(parse_axis_or_button("rightx:a2"), axis(AxisId::Z, false, "rightx"));
    assert_eq!(parse_axis_or_button("righty:a3"), axis(AxisId::U, false, "righty"));
    assert_eq!(parse_axis_or_button("lefttrigger:a4"), axis(AxisId::V, false, "lefttrigger"));
    assert_eq!(parse_axis_or_button("righttrigger:a5"), axis(AxisId::R, false, "righttrigger"));
    assert_eq!(parse_axis_or_button("x:a6"), None);
    assert_eq!(parse_axis_or_button("x:a7"), None);
    assert_eq!(parse_axis_or_button("x:a8"), None);
    assert_eq!(parse_axis_or_button("x:+a2"), axis(AxisId::Z, false, "x"));
}

#[test]
fn every_dpad_bit_selects_its_direction() {
    assert_eq!(parse_axis_or_button("dpup:h0.1"), dpad(AxisId::PovY, false, "dpup"));
    assert_eq!(parse_axis_or_button("dpright:h0.2"), dpad(AxisId::PovX, false, "dpright"));
    assert_eq!(parse_axis_or_button("dpdown:h0.4"), dpad(AxisId::PovY, true, "dpdown"));
    assert_eq!(parse_axis_or_button("dpleft:h0.8"), dpad(AxisId::PovX, true, "dpleft"));
    assert_eq!(parse_axis_or_button("dpleft:h0.3"), None);
    assert_eq!(parse_axis_or_button("dpleft:h0.0"), None);
    assert_eq!(parse_axis_or_button("dpleft:h1.8"), None);
    assert_eq!(parse_axis_or_button("dpleft:h0."), None);
}

#[test]
fn malformed_entries_give_nothing() {
    assert_eq!(parse_axis_or_button(""), None);
    assert_eq!(parse_axis_or_button("a"), None);
    assert_eq!(parse_axis_or_button("a:"), None);
    assert_eq!(parse_axis_or_button("a:x1"), None);
    assert_eq!(parse_axis_or_button("a:b"), None);
    assert_eq!(parse_axis_or_button("a:bx"), None);
    assert_eq!(parse_axis_or_button("a:b-1"), None);
    assert_eq!(parse_axis_or_button("leftx:a"), None);
    assert_eq!(parse_axis_or_button("platform:Linux"), None);
}

#[test]
fn the_first_colon_splits_and_the_first_indicator_decides() {
    assert_eq!(parse_axis_or_button(":b3"), button(3, ""));
    assert_eq!(parse_axis_or_button("a:b2:x"), None);
    assert_eq!(parse_axis_or_button("x::a2"), axis(AxisId::Z, false, "x"));
    // an axis indicator wins over a button indicator
    assert_eq!(parse_axis_or_button("x:ba2"), axis(AxisId::Z, false, "x"));
    // a prefix before a button is passed over
    assert_eq!(parse_axis_or_button("x:+b4"), button(4, "x"));
    assert_eq!(parse_axis_or_button("x:-b4"), button(4, "x"));
    // the payload ends at the next indicator
    assert_eq!(parse_axis_or_button("x:b4b9"), button(4, "x"));
    assert_eq!(parse_axis_or_button("x:a1a"), axis(AxisId::Y, false, "x"));
    // only the prefix `-` inverts
    assert_eq!(parse_axis_or_button("x:--a1"), axis(AxisId::Y, false, "x"));
}

#[test]
fn codes_without_their_indicator_are_all_payload() {
    assert_eq!(parse_axis("x", "2"), Some(Axis::new(AxisId::Z, false, String::from("x"))));
    assert_eq!(parse_button("x", "7"), Some(Button::new(7, String::from("x"))));
    assert_eq!(parse_dpad("x", "4"), Some(DPad::new(AxisId::PovY, true, String::from("x"))));
    assert_eq!(parse_button("x", ""), None);
    assert_eq!(parse_dpad("x", "h0.16"), None);
}

#[test]
fn names_are_kept_as_written() {
    let parsed = parse_button("Ünïcode name", "b1").unwrap();
    assert_eq!(parsed.name(), "Ünïcode name");
    assert_eq!(parsed.id(), 1);
    let parsed = parse_axis("LeftX", "-a0").unwrap();
    assert_eq!(parsed.axis_name(), "LeftX");
    assert_eq!(Axisish::name(&parsed), "LeftX");
    assert_eq!(parsed.axis_id(), AxisId::X);
    assert!(parsed.inverted());
    let parsed = parse_dpad("dpup", "h0.1").unwrap();
    assert_eq!(parsed.name(), "dpup");
    assert_eq!(parsed.axis_id(), AxisId::PovY);
    assert!(!parsed.is_negative());
}

#[test]
fn guid_fields_come_from_the_byte_swapped_words() {
    let guid = parse_guid("0300509d5e040000130b000013057200").unwrap();
    assert_eq!(*guid.vendor(), 0x045e);
    assert_eq!(*guid.product(), 0x0b13);
    assert_eq!(*guid.version(), 0x0513);
    assert_eq!(*guid.crc(), 0x9d50);
    assert_eq!(Guid::from_guid_string("0300509d5e040000130b000013057200"), Some(guid));
    // upper-case digits count as well
    assert_eq!(parse_guid("0300509D5E040000130B000013057200"), Some(guid));
    assert_eq!(
        parse_guid("ffffffffffff0000ffff0000ffffffff"),
        Some(Guid { vendor: 0xffff, product: 0xffff, version: 0xffff, crc: 0xffff })
    );
    assert_eq!(
        parse_guid("00000000000000000000000000000000"),
        Some(Guid { vendor: 0, product: 0, version: 0, crc: 0 })
    );
}

#[test]
fn guid_texts_of_another_length_or_alphabet_give_nothing() {
    assert_eq!(parse_guid(""), None);
    assert_eq!(parse_guid("0300509d5e040000130b00001305720"), None);
    assert_eq!(parse_guid("0300509d5e040000130b0000130572000"), None);
    assert_eq!(parse_guid("0300509d5e040000130b000013057200abcd"), None);
    assert_eq!(parse_guid("+300509d5e040000130b000013057200"), None);
    assert_eq!(parse_guid("0300509d5e040000130b00001305720g"), None);
    assert_eq!(parse_guid("0300509d5e04000é130b00001305720"), None);
    assert_eq!(hex_digit('a'), Some(10));
    assert_eq!(hex_digit('F'), Some(15));
    assert_eq!(hex_digit('7'), Some(7));
    assert_eq!(hex_digit('g'), None);
    assert_eq!(hex_digit('/'), None);
    assert_eq!(hex_digit(':'), None);
}

#[test]
fn control_names_become_types_whatever_their_case() {
    assert_eq!(ButtonType::from_name("a"), ButtonType::A);
    assert_eq!(ButtonType::from_name("A"), ButtonType::A);
    assert_eq!(ButtonType::from_name("b"), ButtonType::B);
    assert_eq!(ButtonType::from_name("x"), ButtonType::X);
    assert_eq!(ButtonType::from_name("y"), ButtonType::Y);
    assert_eq!(ButtonType::from_name("back"), ButtonType::Back);
    assert_eq!(ButtonType::from_name("START"), ButtonType::Start);
    assert_eq!(ButtonType::from_name("dpdown"), ButtonType::DPDown);
    assert_eq!(ButtonType::from_name("dpleft"), ButtonType::DPLeft);
    assert_eq!(ButtonType::from_name("dpright"), ButtonType::DPRight);
    assert_eq!(ButtonType::from_name("DpUp"), ButtonType::DPUp);
    assert_eq!(ButtonType::from_name("leftshoulder"), ButtonType::LeftShoulder);
    assert_eq!(ButtonType::from_name("leftstick"), ButtonType::LeftStick);
    assert_eq!(ButtonType::from_name("rightshoulder"), ButtonType::RightShoulder);
    assert_eq!(ButtonType::from_name("rightstick"), ButtonType::RightStick);
    assert_eq!(ButtonType::from_name("guide"), ButtonType::UnknownButton(String::from("guide")));
    assert_eq!(ButtonType::from_name(""), ButtonType::UnknownButton(String::new()));
    assert_eq!(ButtonType::from_name("Å"), ButtonType::UnknownButton(String::from("Å")));
    assert_eq!(AxisType::from_name("leftx"), AxisType::LeftX);
    assert_eq!(AxisType::from_name("LEFTY"), AxisType::LeftY);
    assert_eq!(AxisType::from_name("lefttrigger"), AxisType::LeftTrigger);
    assert_eq!(AxisType::from_name("rightx"), AxisType::RightX);
    assert_eq!(AxisType::from_name("righty"), AxisType::RightY);
    assert_eq!(AxisType::from_name("RightTrigger"), AxisType::RightTrigger);
    assert_eq!(AxisType::from_name("wheel"), AxisType::UnknownAxis(String::from("wheel")));
}

fn pad_with(axes: Vec<i32>, buttons: Vec<bool>) -> JoystickState {
    JoystickState { connected: true, vendor_id: 1, product_id: 2, axes, buttons }
}

#[test]
fn controls_read_the_joystick_state() {
    let pad = pad_with(vec![10_000, -20_000, 30_000, 0, 0, 0, 80_000, -75_001], vec![false, true]);
    assert!(!Button::new(0, String::from("a")).is_pressed(&pad));
    assert!(Button::new(1, String::from("b")).is_pressed(&pad));
    assert!(!Button::new(2, String::from("x")).is_pressed(&pad));
    assert_eq!(Axis::new(AxisId::X, false, String::from("leftx")).position(&pad), 10_000);
    assert_eq!(Axis::new(AxisId::Y, true, String::from("lefty")).position(&pad), 20_000);
    assert_eq!(Axis::new(AxisId::Z, true, String::from("rightx")).position(&pad), -30_000);
    assert_eq!(Axis::new(AxisId::X, false, String::from("leftx")).invert(5), -5);
    assert!(DPad::new(AxisId::PovX, false, String::from("dpright")).is_pressed(&pad));
    assert!(!DPad::new(AxisId::PovX, true, String::from("dpleft")).is_pressed(&pad));
    assert!(DPad::new(AxisId::PovY, true, String::from("dpdown")).is_pressed(&pad));
    assert!(!DPad::new(AxisId::PovY, false, String::from("dpup")).is_pressed(&pad));
    assert!(pad.is_button_pressed(1));
    assert!(!pad.is_button_pressed(u32::MAX));
    assert_eq!(pad.axis_position(AxisId::PovX), 80_000);
}

#[test]
fn the_dpad_trigger_is_three_quarters_of_the_range() {
    assert_eq!(DPAD_TRIGGER, MAX_AXIS_VAL / 4 * 3);
    let up = DPad::new(AxisId::PovY, false, String::from("dpup"));
    let down = DPad::new(AxisId::PovY, true, String::from("dpdown"));
    let at = |v: i32| pad_with(vec![0, 0, 0, 0, 0, 0, 0, v], vec![]);
    assert!(!up.is_pressed(&at(75_000)));
    assert!(up.is_pressed(&at(75_001)));
    assert!(up.is_pressed(&at(100_000)));
    assert!(!down.is_pressed(&at(-75_000)));
    assert!(down.is_pressed(&at(-75_001)));
    assert!(!down.is_pressed(&at(75_001)));
    assert!(!up.is_pressed(&at(-75_001)));
    assert!(!up.is_pressed(&at(0)));
}

#[test]
fn axis_positions_stay_in_range_and_missing_ones_read_as_rest() {
    let pad = pad_with(vec![i32::MIN, i32::MAX], vec![]);
    assert_eq!(pad.axis_position(AxisId::X), -MAX_AXIS_VAL);
    assert_eq!(pad.axis_position(AxisId::Y), MAX_AXIS_VAL);
    assert_eq!(pad.axis_position(AxisId::Z), 0);
    assert_eq!(Axis::new(AxisId::X, true, String::from("leftx")).position(&pad), MAX_AXIS_VAL);
    assert!(!DPad::new(AxisId::PovY, false, String::from("dpup")).is_pressed(&pad));
    assert_eq!(AxisId::X.index(), 0);
    assert_eq!(AxisId::R.index(), 3);
    assert_eq!(AxisId::U.index(), 4);
    assert_eq!(AxisId::V.index(), 5);
    assert_eq!(AxisId::PovX.index(), 6);
    assert_eq!(AxisId::PovY.index(), 7);
}
