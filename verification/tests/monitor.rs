use ptuber::controls::JoystickState;
use ptuber::events::{DeviceEvent, KeyboardEvent};
use ptuber::gamepad::{AxisEvent, ButtonEvent, JoystickEvent};
use ptuber::kinds::{AxisType, ButtonType};
use ptuber::models::{
    DeviceButton, DeviceType, GamepadMouseStick, KeyCode, Platform, Position,
};
use ptuber::monitor::{SFMLJoystick, TickSample, UserInputMonitor};
use ptuber::pressed::PressedKeyMap;
use ptuber::sampler::{
    assemble_batch, get_gamepad_events, get_keyboard_events, get_mouse_events, normalize_axis,
};

const DB: &str = "# Linux\n0300509d5e040000130b000013057200,Xbox Series Controller,a:b0,leftx:a0,lefty:a1,rightx:a2,platform:Linux,\n";

fn absent() -> JoystickState {
    JoystickState { connected: false, vendor_id: 0, product_id: 0, axes: vec![], buttons: vec![] }
}

fn xbox(axes: Vec<i32>, buttons: Vec<bool>) -> JoystickState {
    JoystickState { connected: true, vendor_id: 0x045e, product_id: 0x0b13, axes, buttons }
}

fn stranger() -> JoystickState {
    JoystickState { connected: true, vendor_id: 0x1234, product_id: 0x5678, axes: vec![], buttons: vec![] }
}

fn tick(now_ms: u64, keys: Vec<u32>, joysticks: Vec<JoystickState>) -> TickSample {
    TickSample {
        now_ms,
        mouse_buttons: vec![],
        cursor: None,
        keys: keys.into_iter().map(KeyCode).collect(),
        joysticks,
    }
}

fn monitor() -> UserInputMonitor {
    UserInputMonitor::new(Some(0), GamepadMouseStick::Left, Platform::Linux)
}

fn count(events: &[KeyboardEvent], wanted: &KeyboardEvent) -> usize {
    events.iter().filter(|e| *e == wanted).count()
}

#[test]
fn a_held_key_gives_one_press_and_then_one_release() {
    let mut m = monitor();
    let mut all = Vec::new();
    for now in 0..5u64 {
        all.extend(m.get_events(&tick(now, vec![42], vec![]), DB).keyboard_events);
    }
    assert_eq!(all, vec![KeyboardEvent::KeyPressed(KeyCode(42))]);
    let after = m.get_events(&tick(5, vec![], vec![]), DB).keyboard_events;
    assert_eq!(after, vec![KeyboardEvent::KeyReleased(KeyCode(42))]);
    let later = m.get_events(&tick(6, vec![], vec![]), DB).keyboard_events;
    assert!(later.is_empty());
    all.extend(after);
    assert_eq!(count(&all, &KeyboardEvent::KeyPressed(KeyCode(42))), 1);
    assert_eq!(count(&all, &KeyboardEvent::KeyReleased(KeyCode(42))), 1);
}

#[test]
fn keyboard_events_are_releases_then_presses() {
    let mut held: PressedKeyMap<KeyCode> = PressedKeyMap::new();
    let events = get_keyboard_events(&vec![KeyCode(3), KeyCode(1), KeyCode(3), KeyCode(2)], &mut held);
    assert_eq!(
        events,
        vec![
            KeyboardEvent::KeyPressed(KeyCode(3)),
            KeyboardEvent::KeyPressed(KeyCode(1)),
            KeyboardEvent::KeyPressed(KeyCode(2)),
        ]
    );
    assert_eq!(held.pressed_keys(), vec![KeyCode(3), KeyCode(1), KeyCode(2)]);
    let events = get_keyboard_events(&vec![KeyCode(4), KeyCode(1)], &mut held);
    assert_eq!(
        events,
        vec![
            KeyboardEvent::KeyReleased(KeyCode(3)),
            KeyboardEvent::KeyReleased(KeyCode(2)),
            KeyboardEvent::KeyPressed(KeyCode(4)),
        ]
    );
    assert_eq!(held.pressed_keys(), vec![KeyCode(1), KeyCode(4)]);
    assert!(get_keyboard_events(&vec![KeyCode(1), KeyCode(4)], &mut held).is_empty());
}

#[test]
fn mouse_buttons_are_edge_triggered_and_the_first_is_passed_over() {
    let mut held: PressedKeyMap<DeviceButton> = PressedKeyMap::new();
    let events = get_mouse_events(&vec![true, true, false, true, false, false, true], &mut held, Platform::Linux);
    assert_eq!(
        events,
        vec![
            DeviceEvent::ButtonPressed(DeviceButton::Left),
            DeviceEvent::ButtonPressed(DeviceButton::Right),
            DeviceEvent::ButtonPressed(DeviceButton::Unknown(6)),
        ]
    );
    assert!(get_mouse_events(&vec![true, true, false, true, false, false, true], &mut held, Platform::Linux)
        .is_empty());
    let events = get_mouse_events(&vec![false, false, true, true], &mut held, Platform::Linux);
    assert_eq!(
        events,
        vec![
            DeviceEvent::ButtonReleased(DeviceButton::Left),
            DeviceEvent::ButtonPressed(DeviceButton::Middle),
        ]
    );
    // a button beyond the sample keeps its state
    assert_eq!(
        held.pressed_keys(),
        vec![DeviceButton::Right, DeviceButton::Unknown(6), DeviceButton::Middle]
    );
    // on Windows the second raw button is the right one, the third the middle one
    assert!(get_mouse_events(&vec![false, false, true, true], &mut held, Platform::Windows).is_empty());
    let events = get_mouse_events(&vec![false, false, false, true], &mut held, Platform::Windows);
    assert_eq!(events, vec![DeviceEvent::ButtonReleased(DeviceButton::Right)]);
}

#[test]
fn axis_positions_become_positions_on_the_display() {
    assert_eq!(normalize_axis(-100_000), 0);
    assert_eq!(normalize_axis(0), 500_000);
    assert_eq!(normalize_axis(100_000), 1_000_000);
    assert_eq!(normalize_axis(50_000), 750_000);
    assert_eq!(normalize_axis(-1), 499_995);
    assert_eq!(normalize_axis(i32::MIN), 0);
    assert_eq!(normalize_axis(i32::MAX), 1_000_000);
}

#[test]
fn gamepad_events_become_key_and_pointer_events() {
    let events = vec![
        JoystickEvent::Axis(AxisEvent::new(AxisType::LeftX, 0)),
        JoystickEvent::Axis(AxisEvent::new(AxisType::RightX, 100_000)),
        JoystickEvent::Axis(AxisEvent::new(AxisType::LeftY, -100_000)),
        JoystickEvent::Axis(AxisEvent::new(AxisType::LeftTrigger, 5)),
        JoystickEvent::Button(ButtonEvent::new(ButtonType::A, true)),
        JoystickEvent::Button(ButtonEvent::new(ButtonType::UnknownButton(String::from("guide")), false)),
    ];
    let (device, keys) = get_gamepad_events(&events, GamepadMouseStick::Left);
    assert_eq!(device, vec![DeviceEvent::AxisXMoved(500_000), DeviceEvent::AxisYMoved(0)]);
    assert_eq!(
        keys,
        vec![
            KeyboardEvent::ButtonPressed(ButtonType::A),
            KeyboardEvent::ButtonReleased(ButtonType::UnknownButton(String::from("guide"))),
        ]
    );
    let (device, _) = get_gamepad_events(&events, GamepadMouseStick::Right);
    assert_eq!(device, vec![DeviceEvent::AxisXMoved(1_000_000)]);
    let events = vec![JoystickEvent::Axis(AxisEvent::new(AxisType::RightY, 20_000))];
    let (device, keys) = get_gamepad_events(&events, GamepadMouseStick::Right);
    assert_eq!(device, vec![DeviceEvent::AxisYMoved(600_000)]);
    assert!(keys.is_empty());
}

#[test]
fn batches_announce_the_active_device_first() {
    let pad_key = KeyboardEvent::ButtonPressed(ButtonType::A);
    let key = KeyboardEvent::KeyPressed(KeyCode(1));
    let moved = DeviceEvent::AxisXMoved(7);
    let click = DeviceEvent::ButtonPressed(DeviceButton::Left);
    let pad = DeviceEvent::DeviceChanged(DeviceType::GamePad);
    let mouse = DeviceEvent::DeviceChanged(DeviceType::Mouse);

    let (d, k) = assemble_batch(vec![], vec![], vec![], vec![]);
    assert!(d.is_empty() && k.is_empty());
    let (d, k) = assemble_batch(vec![moved], vec![], vec![], vec![]);
    assert_eq!(d, vec![pad, moved]);
    assert!(k.is_empty());
    let (d, k) = assemble_batch(vec![], vec![pad_key.clone()], vec![], vec![]);
    assert_eq!(d, vec![pad]);
    assert_eq!(k, vec![pad_key.clone()]);
    let (d, k) = assemble_batch(vec![], vec![], vec![click], vec![]);
    assert_eq!(d, vec![mouse, click]);
    assert!(k.is_empty());
    let (d, k) = assemble_batch(vec![], vec![], vec![], vec![key.clone()]);
    assert_eq!(d, vec![mouse]);
    assert_eq!(k, vec![key.clone()]);
    let (d, k) = assemble_batch(vec![moved], vec![pad_key.clone()], vec![click], vec![key.clone()]);
    assert_eq!(d, vec![pad, mouse, moved, click]);
    assert_eq!(k, vec![pad_key, key]);
}

#[test]
fn the_cursor_gives_an_event_when_it_moves() {
    let mut m = monitor();
    let mut sample = tick(0, vec![], vec![]);
    sample.cursor = Some(Position { x: 0, y: 0 });
    assert!(m.get_events(&sample, DB).device_events.is_empty());
    sample.cursor = Some(Position { x: 10, y: 20 });
    assert_eq!(
        m.get_events(&sample, DB).device_events,
        vec![
            DeviceEvent::DeviceChanged(DeviceType::Mouse),
            DeviceEvent::MouseMoved(Position { x: 10, y: 20 }),
        ]
    );
    assert!(m.get_events(&sample, DB).device_events.is_empty());
    // a tick without a known cursor gives no move and forgets nothing
    sample.cursor = None;
    assert!(m.get_events(&sample, DB).device_events.is_empty());
    sample.cursor = Some(Position { x: 10, y: 20 });
    assert!(m.get_events(&sample, DB).device_events.is_empty());
    sample.mouse_buttons = vec![false, true];
    sample.cursor = Some(Position { x: 11, y: 20 });
    assert_eq!(
        m.get_events(&sample, DB).device_events,
        vec![
            DeviceEvent::DeviceChanged(DeviceType::Mouse),
            DeviceEvent::ButtonPressed(DeviceButton::Left),
            DeviceEvent::MouseMoved(Position { x: 11, y: 20 }),
        ]
    );
}

#[test]
fn a_scan_binds_the_first_joystick_that_the_database_knows() {
    let mut m = monitor();
    assert!(!m.has_gamepad());
    let pads = vec![stranger(), absent(), xbox(vec![100_000], vec![true])];
    let batch = m.get_events(&tick(0, vec![], pads.clone()), DB);
    assert_eq!(m.gamepad_id(), Some(2));
    // binding is silent although a button is down and the stick is moved
    assert!(batch.device_events.is_empty());
    assert!(batch.keyboard_events.is_empty());
    // and so is the next tick, since nothing changed
    let batch = m.get_events(&tick(1, vec![], pads), DB);
    assert!(batch.device_events.is_empty());
    assert!(batch.keyboard_events.is_empty());
    // a change is reported
    let pads = vec![stranger(), absent(), xbox(vec![0], vec![false])];
    let batch = m.get_events(&tick(2, vec![], pads), DB);
    assert_eq!(
        batch.device_events,
        vec![DeviceEvent::DeviceChanged(DeviceType::GamePad), DeviceEvent::AxisXMoved(500_000)]
    );
    assert_eq!(batch.keyboard_events, vec![KeyboardEvent::ButtonReleased(ButtonType::A)]);
}

#[test]
fn the_preferred_slot_is_tried_first() {
    let mut m = UserInputMonitor::new(Some(3), GamepadMouseStick::Left, Platform::Linux);
    let pads = vec![xbox(vec![], vec![]), absent(), absent(), xbox(vec![], vec![])];
    m.get_events(&tick(0, vec![], pads.clone()), DB);
    assert_eq!(m.gamepad_id(), Some(3));
    let mut m = UserInputMonitor::new(Some(1), GamepadMouseStick::Left, Platform::Linux);
    m.get_events(&tick(0, vec![], pads), DB);
    assert_eq!(m.gamepad_id(), Some(0));
}

#[test]
fn scans_keep_their_distance() {
    let mut m = monitor();
    m.get_events(&tick(1_000, vec![], vec![absent()]), DB);
    assert!(!m.has_gamepad());
    let pads = vec![xbox(vec![], vec![])];
    m.get_events(&tick(1_001, vec![], pads.clone()), DB);
    assert!(!m.has_gamepad());
    m.get_events(&tick(1_199, vec![], pads.clone()), DB);
    assert!(!m.has_gamepad());
    m.get_events(&tick(1_200, vec![], pads), DB);
    assert!(m.has_gamepad());
}

#[test]
fn a_lost_joystick_unbinds_and_a_found_one_binds_silently() {
    let mut m = monitor();
    m.get_events(&tick(0, vec![], vec![xbox(vec![0], vec![false])]), DB);
    assert_eq!(m.gamepad_id(), Some(0));
    let batch = m.get_events(&tick(10, vec![], vec![absent()]), DB);
    assert!(!m.has_gamepad());
    assert!(batch.device_events.is_empty());
    assert!(batch.keyboard_events.is_empty());
    // the joystick comes back with a button down and the stick moved
    let back = vec![xbox(vec![50_000], vec![true])];
    let batch = m.get_events(&tick(250, vec![], back.clone()), DB);
    assert_eq!(m.gamepad_id(), Some(0));
    assert!(batch.device_events.is_empty());
    assert!(batch.keyboard_events.is_empty());
    let batch = m.get_events(&tick(260, vec![], back), DB);
    assert!(batch.device_events.is_empty());
    assert!(batch.keyboard_events.is_empty());
    let batch = m.get_events(&tick(270, vec![], vec![xbox(vec![50_000], vec![false])]), DB);
    assert_eq!(batch.keyboard_events, vec![KeyboardEvent::ButtonReleased(ButtonType::A)]);
    assert_eq!(batch.device_events, vec![DeviceEvent::DeviceChanged(DeviceType::GamePad)]);
}

#[test]
fn a_joystick_that_re_enumerates_in_its_slot_is_bound_again() {
    let mut m = monitor();
    m.get_events(&tick(0, vec![], vec![xbox(vec![0], vec![false])]), DB);
    let mut gone = xbox(vec![0], vec![true]);
    gone.connected = false;
    let batch = m.get_events(&tick(10, vec![], vec![gone]), DB);
    assert_eq!(m.gamepad_id(), Some(0));
    assert!(batch.device_events.is_empty());
    assert!(batch.keyboard_events.is_empty());
}

#[test]
fn gamepads_can_be_switched_off() {
    let mut m = UserInputMonitor::new(None, GamepadMouseStick::Left, Platform::Linux);
    m.get_events(&tick(0, vec![], vec![xbox(vec![], vec![])]), DB);
    assert!(!m.has_gamepad());
    m.update_config(true, 0, GamepadMouseStick::Right);
    m.get_events(&tick(1, vec![], vec![xbox(vec![], vec![])]), DB);
    assert!(m.has_gamepad());
    let batch = m.get_events(&tick(2, vec![], vec![xbox(vec![0, 0, 100_000], vec![])]), DB);
    assert_eq!(
        batch.device_events,
        vec![DeviceEvent::DeviceChanged(DeviceType::GamePad), DeviceEvent::AxisXMoved(1_000_000)]
    );
    m.update_config(false, 0, GamepadMouseStick::Right);
    m.get_events(&tick(3, vec![], vec![xbox(vec![], vec![])]), DB);
    assert!(!m.has_gamepad());
}

#[test]
fn gamepad_events_come_before_those_of_mouse_and_keyboard() {
    let mut m = monitor();
    m.get_events(&tick(0, vec![], vec![xbox(vec![0], vec![false])]), DB);
    let mut sample = tick(1, vec![9], vec![xbox(vec![100_000], vec![true])]);
    sample.mouse_buttons = vec![false, true];
    let batch = m.get_events(&sample, DB);
    assert_eq!(
        batch.device_events,
        vec![
            DeviceEvent::DeviceChanged(DeviceType::GamePad),
            DeviceEvent::DeviceChanged(DeviceType::Mouse),
            DeviceEvent::AxisXMoved(1_000_000),
            DeviceEvent::ButtonPressed(DeviceButton::Left),
        ]
    );
    assert_eq!(
        batch.keyboard_events,
        vec![KeyboardEvent::ButtonPressed(ButtonType::A), KeyboardEvent::KeyPressed(KeyCode(9))]
    );
}

#[test]
fn the_asked_for_joystick_is_chosen_when_connected() {
    let pads = vec![absent(), stranger(), xbox(vec![], vec![])];
    assert_eq!(SFMLJoystick::new(2, &pads), Some(SFMLJoystick { id: 2, vendor: 0x045e, product: 0x0b13 }));
    assert_eq!(SFMLJoystick::new(0, &pads), Some(SFMLJoystick { id: 1, vendor: 0x1234, product: 0x5678 }));
    assert_eq!(SFMLJoystick::new(9, &pads), Some(SFMLJoystick { id: 1, vendor: 0x1234, product: 0x5678 }));
    assert_eq!(SFMLJoystick::new(0, &vec![absent(), absent()]), None);
    assert_eq!(SFMLJoystick::new(0, &vec![]), None);
}
