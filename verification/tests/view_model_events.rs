use ptuber::events::{DeviceEvent, InputGrabRunFlag, KeyboardEvent, MouseEvent, UtilError};
use ptuber::kinds::ButtonType;
use ptuber::models::{DeviceButton, DeviceType, KeyCode, Position};
use ptuber::view_models::{
    DeviceViewModel, KeyboardState, KeyboardViewModel, KeysViewModel, MouseButtonState,
    MouseViewModel,
};

#[test]
fn mouse_view_model_takes_in_events() {
    let mut mouse = MouseViewModel::new();
    mouse.handle_event(&DeviceEvent::MouseMoved(Position { x: 250_000, y: 750_000 }));
    assert_eq!(mouse.position(), Position { x: 250_000, y: 750_000 });
    mouse.handle_event(&DeviceEvent::AxisXMoved(500_000));
    assert_eq!(mouse.position(), Position { x: 500_000, y: 750_000 });
    mouse.handle_event(&DeviceEvent::AxisYMoved(0));
    assert_eq!(mouse.position(), Position { x: 500_000, y: 0 });
    mouse.handle_event(&DeviceEvent::DeviceChanged(DeviceType::GamePad));
    assert_eq!(mouse.device_type(), DeviceType::GamePad);
    mouse.handle_event(&DeviceEvent::ButtonPressed(DeviceButton::Right));
    assert_eq!(mouse.button_state(), MouseButtonState::Right);
    mouse.handle_event(&DeviceEvent::ButtonPressed(DeviceButton::Left));
    assert_eq!(mouse.button_state(), MouseButtonState::Both);
    mouse.handle_event(&DeviceEvent::ButtonReleased(DeviceButton::Right));
    assert_eq!(mouse.button_state(), MouseButtonState::Left);
    assert_eq!(mouse.position(), Position { x: 500_000, y: 0 });
}

#[test]
fn keyboard_view_model_takes_in_events() {
    let mut keyboard = KeyboardViewModel::new();
    keyboard.handle_event(&KeyboardEvent::KeyPressed(KeyCode(5)));
    assert_eq!(keyboard.keyboard_state(), KeyboardState::Right);
    keyboard.handle_event(&KeyboardEvent::ButtonPressed(ButtonType::A));
    assert_eq!(keyboard.keyboard_state(), KeyboardState::Left);
    keyboard.handle_event(&KeyboardEvent::ButtonPressed(ButtonType::A));
    assert_eq!(keyboard.keyboard_state(), KeyboardState::Left);
    keyboard.handle_event(&KeyboardEvent::ButtonPressed(ButtonType::UnknownButton(String::from("paddle1"))));
    assert_eq!(keyboard.keyboard_state(), KeyboardState::Right);
    keyboard.handle_event(&KeyboardEvent::ButtonReleased(ButtonType::UnknownButton(String::from("paddle1"))));
    keyboard.handle_event(&KeyboardEvent::ButtonReleased(ButtonType::A));
    keyboard.handle_event(&KeyboardEvent::KeyReleased(KeyCode(5)));
    assert_eq!(keyboard.keyboard_state(), KeyboardState::Up);
}

#[test]
fn mouse_events_name_left_and_right_and_number_the_rest() {
    assert_eq!(MouseEvent::from_button(DeviceButton::Left, true), MouseEvent::LeftPressed);
    assert_eq!(MouseEvent::from_button(DeviceButton::Left, false), MouseEvent::LeftReleased);
    assert_eq!(MouseEvent::from_button(DeviceButton::Right, true), MouseEvent::RightPressed);
    assert_eq!(MouseEvent::from_button(DeviceButton::Right, false), MouseEvent::RightReleased);
    assert_eq!(MouseEvent::from_button(DeviceButton::Middle, true), MouseEvent::UnknownPressed(2));
    assert_eq!(MouseEvent::from_button(DeviceButton::Forward, false), MouseEvent::UnknownReleased(4));
    assert_eq!(MouseEvent::from_button(DeviceButton::Back, true), MouseEvent::UnknownPressed(5));
    assert_eq!(MouseEvent::from_button(DeviceButton::Unknown(9), false), MouseEvent::UnknownReleased(9));
    assert_eq!(
        MouseEvent::from_device_event(&DeviceEvent::ButtonPressed(DeviceButton::Left)),
        Some(MouseEvent::LeftPressed)
    );
    assert_eq!(
        MouseEvent::from_device_event(&DeviceEvent::ButtonReleased(DeviceButton::Middle)),
        Some(MouseEvent::UnknownReleased(2))
    );
    assert_eq!(MouseEvent::from_device_event(&DeviceEvent::AxisXMoved(1)), None);
}

#[test]
fn errors_and_flags_are_told_apart() {
    assert_ne!(UtilError::MouseCallbackRegister, UtilError::KeyboardCallbackRegister);
    assert_eq!(UtilError::MouseCallbackRegister.message(), "registering mouse event callback");
    assert_eq!(UtilError::KeyboardCallbackRegister.message(), "registering mouse event callback");
    assert_ne!(InputGrabRunFlag::Run, InputGrabRunFlag::Halt);
}
