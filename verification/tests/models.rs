use ptuber::models::{ButtonOrKey, DeviceButton, DeviceType, KeyCode, Platform, Position};
use ptuber::pressed::PressedKeyMap;
use ptuber::view_models::{
    DeviceModel, DeviceViewModel, KeyboardState, KeyboardViewModel, KeysViewModel, LeftArmState,
    MouseButtonState, MouseModel, MouseState, MouseViewModel,
};

struct TestPressedKeyMapImpl {
    keys: PressedKeyMap<DeviceButton>,
}

impl TestPressedKeyMapImpl {
    pub fn new() -> Self {
        let keys = PressedKeyMap::new();
        Self { keys }
    }

    pub fn pressed_keys(&self) -> Vec<DeviceButton> {
        self.keys.pressed_keys()
    }

    pub fn key_pressed(&mut self, b: &DeviceButton) {
        self.keys.key_pressed(b);
    }

    pub fn key_released(&mut self, b: &DeviceButton) {
        self.keys.key_released(b);
    }
}

#[test]
fn test_keys_pressed() {
    let key_press_map = TestPressedKeyMapImpl::new();
    let keys_pressed = key_press_map.pressed_keys();
    assert!(keys_pressed.is_empty());
}

#[test]
fn test_key_pressed() {
    let mut key_press_map = TestPressedKeyMapImpl::new();
    let key = DeviceButton::Left;
    key_press_map.key_pressed(&key);
    let keys_pressed = key_press_map.pressed_keys();
    assert!(!keys_pressed.is_empty());
    assert!(keys_pressed.contains(&key));
}

#[test]
fn test_key_pressed_multiple_times() {
    let mut key_press_map = TestPressedKeyMapImpl::new();
    let key = DeviceButton::Left;
    key_press_map.key_pressed(&key);
    key_press_map.key_pressed(&key);
    let keys_pressed = key_press_map.pressed_keys();
    assert_eq!(keys_pressed.len(), 1);
}

#[test]
fn test_key_released() {
    let mut key_press_map = TestPressedKeyMapImpl::new();
    let key = DeviceButton::Left;
    key_press_map.key_pressed(&key);
    let keys_pressed = key_press_map.pressed_keys();
    assert!(!keys_pressed.is_empty());

    key_press_map.key_released(&key);
    let keys_pressed = key_press_map.pressed_keys();
    assert!(keys_pressed.is_empty());
}

#[test]
fn test_key_released_multiple_times() {
    let mut key_press_map = TestPressedKeyMapImpl::new();
    let left_key = DeviceButton::Left;
    let right_key = DeviceButton::Right;
    key_press_map.key_pressed(&left_key);
    key_press_map.key_pressed(&right_key);
    let keys_pressed = key_press_map.pressed_keys();
    assert!(!keys_pressed.is_empty());
    assert_eq!(keys_pressed.len(), 2);

    key_press_map.key_released(&right_key);
    let keys_pressed = key_press_map.pressed_keys();
    assert_eq!(keys_pressed.len(), 1);

    key_press_map.key_released(&right_key);
    let keys_pressed = key_press_map.pressed_keys();
    assert_eq!(keys_pressed.len(), 1);
    assert!(!keys_pressed.is_empty());
}

#[test]
fn pressed_keys_keep_the_order_of_pressing() {
    let mut map: PressedKeyMap<KeyCode> = PressedKeyMap::new();
    map.key_pressed(&KeyCode(30));
    map.key_pressed(&KeyCode(10));
    map.key_pressed(&KeyCode(20));
    map.key_pressed(&KeyCode(10));
    assert_eq!(map.pressed_keys(), vec![KeyCode(30), KeyCode(10), KeyCode(20)]);
    assert_eq!(map.len(), 3);
    assert!(map.contains(&KeyCode(10)));
    map.key_released(&KeyCode(30));
    assert_eq!(map.pressed_keys(), vec![KeyCode(10), KeyCode(20)]);
    assert!(!map.contains(&KeyCode(30)));
}

#[test]
fn retain_in_splits_kept_and_dropped() {
    let mut map: PressedKeyMap<KeyCode> = PressedKeyMap::new();
    for code in [1u32, 2, 3, 4] {
        map.key_pressed(&KeyCode(code));
    }
    let dropped = map.retain_in(&vec![KeyCode(4), KeyCode(2), KeyCode(9)]);
    assert_eq!(dropped, vec![KeyCode(1), KeyCode(3)]);
    assert_eq!(map.pressed_keys(), vec![KeyCode(2), KeyCode(4)]);
}

#[test]
fn test_mouse_position() {
    let mouse = MouseModel::new();
    let default_pos: Position = Default::default();
    let pos = mouse.position();
    assert_eq!(pos, default_pos);
}

#[test]
fn test_set_mouse_position() {
    let mut mouse = MouseModel::new();
    let new_pos = Position { x: 3, y: 3 };
    mouse.set_position(&new_pos);
    let pos = mouse.position();
    assert_eq!(pos, new_pos);
}

#[test]
fn mouse_model_records_buttons_and_device_type() {
    let mut mouse = MouseModel::new();
    assert_eq!(mouse.device_type(), DeviceType::Mouse);
    mouse.set_device_type(&DeviceType::GamePad);
    assert_eq!(mouse.device_type(), DeviceType::GamePad);
    mouse.button_pressed(&DeviceButton::Middle);
    mouse.button_pressed(&DeviceButton::Unknown(7));
    mouse.button_released(&DeviceButton::Middle);
    assert_eq!(mouse.buttons_pressed(), vec![DeviceButton::Unknown(7)]);
}

#[test]
fn test_keyboard_state() {
    let mut keyboard = KeyboardViewModel::new();
    let a_key = ButtonOrKey::Key(KeyCode(1));
    let b_key = ButtonOrKey::Key(KeyCode(2));
    let c_key = ButtonOrKey::Key(KeyCode(3));
    let d_key = ButtonOrKey::Key(KeyCode(4));

    let up = KeyboardState::Up;
    assert_eq!(up, keyboard.keyboard_state());

    keyboard.key_pressed(&a_key);
    let right = KeyboardState::Right;
    assert_eq!(right, keyboard.keyboard_state());

    keyboard.key_pressed(&b_key);
    let left = KeyboardState::Left;
    assert_eq!(left, keyboard.keyboard_state());

    keyboard.key_pressed(&c_key);
    assert_eq!(right, keyboard.keyboard_state());

    keyboard.key_pressed(&d_key);
    assert_eq!(left, keyboard.keyboard_state());
}

#[test]
fn test_button_state() {
    let mut mouse = MouseViewModel::new();
    let left_button = DeviceButton::Left;
    let right_button = DeviceButton::Right;
    let none = MouseButtonState::Neither;
    assert_eq!(none, mouse.button_state());

    mouse.button_pressed(&left_button);
    let left = MouseButtonState::Left;
    assert_eq!(left, mouse.button_state());

    mouse.button_pressed(&right_button);
    let both = MouseButtonState::Both;
    assert_eq!(both, mouse.button_state());

    mouse.button_released(&left_button);
    let right = MouseButtonState::Right;
    assert_eq!(right, mouse.button_state());
}

#[test]
fn arm_and_mouse_pictures_follow_the_states() {
    assert_eq!(LeftArmState::from_keyboard_state(KeyboardState::Up), LeftArmState::Up);
    assert_eq!(LeftArmState::from_keyboard_state(KeyboardState::Left), LeftArmState::Left);
    assert_eq!(LeftArmState::from_keyboard_state(KeyboardState::Right), LeftArmState::Right);
    assert_eq!(MouseState::from_button_state(MouseButtonState::Neither), MouseState::Neither);
    assert_eq!(MouseState::from_button_state(MouseButtonState::Left), MouseState::Left);
    assert_eq!(MouseState::from_button_state(MouseButtonState::Right), MouseState::Right);
    assert_eq!(MouseState::from_button_state(MouseButtonState::Both), MouseState::Both);
    assert_eq!(MouseButtonState::default(), MouseButtonState::Neither);
    assert_eq!(KeyboardState::default(), KeyboardState::Up);
    assert_eq!(DeviceType::default(), DeviceType::Mouse);
    assert_eq!(DeviceButton::default(), DeviceButton::Unknown(0));
}

#[test]
fn raw_mouse_buttons_are_numbered_by_platform() {
    assert_eq!(DeviceButton::from_index(1, Platform::Linux), DeviceButton::Left);
    assert_eq!(DeviceButton::from_index(2, Platform::Linux), DeviceButton::Middle);
    assert_eq!(DeviceButton::from_index(3, Platform::Linux), DeviceButton::Right);
    assert_eq!(DeviceButton::from_index(2, Platform::Windows), DeviceButton::Right);
    assert_eq!(DeviceButton::from_index(3, Platform::Windows), DeviceButton::Middle);
    assert_eq!(DeviceButton::from_index(4, Platform::Linux), DeviceButton::Forward);
    assert_eq!(DeviceButton::from_index(5, Platform::Windows), DeviceButton::Back);
    assert_eq!(DeviceButton::from_index(6, Platform::Linux), DeviceButton::Unknown(6));
    assert_eq!(DeviceButton::from_index(0, Platform::Linux), DeviceButton::Unknown(0));
    assert_eq!(Platform::Linux.db_header(), "# Linux");
    assert_eq!(Platform::Windows.db_header(), "# Windows");
}
