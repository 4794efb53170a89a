use ptuber::controls::{Axis, AxisId, Button, DPad};
use ptuber::guid::{parse_guid, Guid};
use ptuber::mapping::{parse_axis, parse_button, parse_dpad};

#[test]
fn test_parse_guid() {
    let guid_str = "0300509d5e040000130b000013057200";
    let expected_guid = Guid { vendor: 0x045e, product: 0x0b13, version: 0x0513, crc: 0x9d50 };
    let result_guid = parse_guid(guid_str);
    assert!(result_guid.is_some());
    assert_eq!(expected_guid, result_guid.unwrap());
}

#[test]
fn test_parse_guid_zeros_not_zero() {
    let guid_str_1 = "0300509d5e040100130b000013057200";
    let guid_str_2 = "0300509d5e040000130b0a0013057200";

    let result_guid = parse_guid(guid_str_1);
    assert!(result_guid.is_none());

    let result_guid = parse_guid(guid_str_2);
    assert!(result_guid.is_none());
}

#[test]
fn test_parse_guid_radix_fails() {
    let guid_str = "030z509d5e040000130b000013057200";

    let result_guid = parse_guid(guid_str);
    assert!(result_guid.is_none());
}

#[test]
fn test_parse_axis() {
    let axis_str = "a2";
    let expected_axis = Axis::new(AxisId::Z, false, String::from("rightx"));
    let result_axis = parse_axis("rightx", axis_str);

    assert!(result_axis.is_some());
    assert_eq!(expected_axis, result_axis.unwrap());
}

#[test]
fn test_parse_negative_axis() {
    let axis_str = "-a2";
    let expected_axis = Axis::new(AxisId::Z, true, String::from("rightx"));
    let result_axis = parse_axis("rightx", axis_str);

    assert!(result_axis.is_some());
    assert_eq!(expected_axis, result_axis.unwrap());
}

#[test]
fn test_parse_positive_axis() {
    let axis_str = "+a2";
    let expected_axis = Axis::new(AxisId::Z, false, String::from("rightx"));
    let result_axis = parse_axis("rightx", axis_str);

    assert!(result_axis.is_some());
    assert_eq!(expected_axis, result_axis.unwrap());
}

#[test]
fn test_parse_wrong_axis() {
    let axis_str = "a10";
    let result_axis = parse_axis("rightx", axis_str);

    assert!(result_axis.is_none());

    let axis_str = "b10";
    let result_axis = parse_axis("rightx", axis_str);

    assert!(result_axis.is_none());
}

#[test]
fn test_parse_button() {
    let axis_str = "b2";
    let expected_button = Button::new(2, String::from("a"));
    let result_button = parse_button("a", axis_str);

    assert!(result_button.is_some());
    assert_eq!(expected_button, result_button.unwrap());
}

#[test]
fn test_parse_wrong_button() {
    let axis_str = "a2";
    let result_button = parse_button("a", axis_str);

    assert!(result_button.is_none());
}

#[test]
fn test_parse_dpad() {
    let dpad_str = "h0.4";
    let expected = DPad::new(AxisId::PovY, true, String::from("dpdown"));
    let result = parse_dpad("dpdown", dpad_str);

    assert!(result.is_some());
    assert_eq!(expected, result.unwrap());

    let dpad_str = "h0.8";
    let expected = DPad::new(AxisId::PovX, true, String::from("dpleft"));
    let result = parse_dpad("dpleft", dpad_str);

    assert!(result.is_some());
    assert_eq!(expected, result.unwrap());

    let dpad_str = "h0.2";
    let expected = DPad::new(AxisId::PovX, false, String::from("dpright"));
    let result = parse_dpad("dpright", dpad_str);

    assert!(result.is_some());
    assert_eq!(expected, result.unwrap());

    let dpad_str = "h0.1";
    let expected = DPad::new(AxisId::PovY, false, String::from("dpup"));
    let result = parse_dpad("dpup", dpad_str);

    assert!(result.is_some());
    assert_eq!(expected, result.unwrap());
}
