//! What listeners make of the events: the models of the keyboard and of the
//! pointing device, and the states that are drawn from them.

use vstd::prelude::*;
use crate::events::DeviceEvent;
use crate::events::KeyboardEvent;
use crate::events::KeyboardEventView;
use crate::models::ButtonOrKey;
use crate::models::ButtonOrKeyView;
use crate::models::DeviceButton;
use crate::models::DeviceType;
use crate::models::Position;
use crate::pressed::key_views;
use crate::pressed::position_of;
use crate::pressed::with_key;
use crate::pressed::without_key;
use crate::pressed::Key;
use crate::pressed::PressedKeyMap;

verus! {

/// A model of a keyboard: the keys that are held.
pub trait KeyboardModel {
    type Key: Key;

    /// The keys that are held, oldest first.
    spec fn held(&self) -> Seq<<Self::Key as View>::V>;

    /// Well-formedness of the model.
    spec fn valid(&self) -> bool;

    /// Copies of the keys that are held, oldest first.
    fn keys_pressed(&self) -> (out: Vec<Self::Key>)
        ensures
            key_views(out@) == self.held(),
    ;

    /// Records that `key` went down.
    fn key_pressed(&mut self, key: &Self::Key)
        requires
            old(self).valid(),
        ensures
            final(self).valid(),
            final(self).held() == with_key(old(self).held(), key@),
    ;

    /// Records that `key` went up.
    fn key_released(&mut self, key: &Self::Key)
        requires
            old(self).valid(),
        ensures
            final(self).valid(),
            final(self).held() == without_key(old(self).held(), key@),
    ;
}

/// A model of a pointing device: where it points, which of its buttons are
/// held, and which class of device it is.
pub trait DeviceModel {
    type Button: Key;

    type Position;

    type DeviceType;

    /// The buttons that are held, oldest first.
    spec fn held(&self) -> Seq<<Self::Button as View>::V>;

    /// Where the device points.
    spec fn spec_position(&self) -> Self::Position;

    /// The class of the device.
    spec fn spec_device_type(&self) -> Self::DeviceType;

    /// Well-formedness of the model.
    spec fn valid(&self) -> bool;

    /// Where the device points.
    fn position(&self) -> (out: Self::Position)
        ensures
            out == self.spec_position(),
    ;

    /// Records where the device points.
    fn set_position(&mut self, pos: &Self::Position)
        requires
            old(self).valid(),
        ensures
            final(self).valid(),
            final(self).spec_position() == *pos,
            final(self).held() == old(self).held(),
            final(self).spec_device_type() == old(self).spec_device_type(),
    ;

    /// Copies of the buttons that are held, oldest first.
    fn buttons_pressed(&self) -> (out: Vec<Self::Button>)
        ensures
            key_views(out@) == self.held(),
    ;

    /// Records that `button` went down.
    fn button_pressed(&mut self, button: &Self::Button)
        requires
            old(self).valid(),
        ensures
            final(self).valid(),
            final(self).held() == with_key(old(self).held(), button@),
            final(self).spec_position() == old(self).spec_position(),
            final(self).spec_device_type() == old(self).spec_device_type(),
    ;

    /// Records that `button` went up.
    fn button_released(&mut self, button: &Self::Button)
        requires
            old(self).valid(),
        ensures
            final(self).valid(),
            final(self).held() == without_key(old(self).held(), button@),
            final(self).spec_position() == old(self).spec_position(),
            final(self).spec_device_type() == old(self).spec_device_type(),
    ;

    /// The class of the device.
    fn device_type(&self) -> (out: Self::DeviceType)
        ensures
            out == self.spec_device_type(),
    ;

    /// Records the class of the device.
    fn set_device_type(&mut self, device_type: &Self::DeviceType)
        requires
            old(self).valid(),
        ensures
            final(self).valid(),
            final(self).spec_device_type() == *device_type,
            final(self).held() == old(self).held(),
            final(self).spec_position() == old(self).spec_position(),
    ;
}

/// The keyboard: keys, and gamepad buttons that count as keys.
#[derive(Debug, Clone)]
pub struct Keyboard {
    keys: PressedKeyMap<ButtonOrKey>,
}

impl Keyboard {
    /// A keyboard on which nothing is held.
    pub fn new() -> (out: Self)
        ensures
            out.valid(),
            out.held() == Seq::<ButtonOrKeyView>::empty(),
    {
        Self { keys: PressedKeyMap::new() }
    }
}

impl KeyboardModel for Keyboard {
    type Key = ButtonOrKey;

    closed spec fn held(&self) -> Seq<ButtonOrKeyView> {
        self.keys.keys()
    }

    closed spec fn valid(&self) -> bool {
        self.keys.wf()
    }

    fn keys_pressed(&self) -> (out: Vec<ButtonOrKey>) {
        self.keys.pressed_keys()
    }

    fn key_pressed(&mut self, key: &ButtonOrKey) {
        self.keys.key_pressed(key);
    }

    fn key_released(&mut self, key: &ButtonOrKey) {
        self.keys.key_released(key);
    }
}

/// The mouse, or what stands in for it.
#[derive(Debug, Clone)]
pub struct MouseModel {
    position: Position,
    buttons: PressedKeyMap<DeviceButton>,
    device_type: DeviceType,
}

impl MouseModel {
    /// A mouse at the origin on which nothing is held.
    pub fn new() -> (out: Self)
        ensures
            out.valid(),
            out.held() == Seq::<DeviceButton>::empty(),
            out.spec_position() == (Position { x: 0, y: 0 }),
            out.spec_device_type() == DeviceType::Mouse,
    {
        Self {
            position: Position { x: 0, y: 0 },
            buttons: PressedKeyMap::new(),
            device_type: DeviceType::Mouse,
        }
    }
}

impl DeviceModel for MouseModel {
    type Button = DeviceButton;

    type Position = Position;

    type DeviceType = DeviceType;

    closed spec fn held(&self) -> Seq<DeviceButton> {
        self.buttons.keys()
    }

    closed spec fn spec_position(&self) -> Position {
        self.position
    }

    closed spec fn spec_device_type(&self) -> DeviceType {
        self.device_type
    }

    closed spec fn valid(&self) -> bool {
        self.buttons.wf()
    }

    fn position(&self) -> (out: Position) {
        self.position
    }

    fn set_position(&mut self, pos: &Position) {
        self.position = *pos;
    }

    fn buttons_pressed(&self) -> (out: Vec<DeviceButton>) {
        self.buttons.pressed_keys()
    }

    fn button_pressed(&mut self, button: &DeviceButton) {
        self.buttons.key_pressed(button);
    }

    fn button_released(&mut self, button: &DeviceButton) {
        self.buttons.key_released(button);
    }

    fn device_type(&self) -> (out: DeviceType) {
        self.device_type
    }

    fn set_device_type(&mut self, device_type: &DeviceType) {
        self.device_type = *device_type;
    }
}

/// Which of the left and right mouse buttons are held.
#[derive(Debug, Clone, Copy, PartialEq, Eq, Structural)]
pub enum MouseButtonState {
    Neither,
    Left,
    Right,
    Both,
}

impl Default for MouseButtonState {
    fn default() -> (out: Self)
        ensures
            out == MouseButtonState::Neither,
    {
        Self::Neither
    }
}

/// Where the hand on the keyboard is.
#[derive(Debug, Clone, Copy, PartialEq, Eq, Structural)]
pub enum KeyboardState {
    Up,
    Left,
    Right,
}

impl Default for KeyboardState {
    fn default() -> (out: Self)
        ensures
            out == KeyboardState::Up,
    {
        Self::Up
    }
}

/// Which picture of the left arm is drawn.
#[derive(Debug, Clone, Copy, PartialEq, Eq, Structural)]
pub enum LeftArmState {
    Left,
    Right,
    Up,
}

impl LeftArmState {
    /// The picture for a state of the keyboard.
    pub fn from_keyboard_state(value: KeyboardState) -> (out: Self)
        ensures
            out == match value {
                KeyboardState::Up => LeftArmState::Up,
                KeyboardState::Right => LeftArmState::Right,
                KeyboardState::Left => LeftArmState::Left,
            },
    {
        match value {
            KeyboardState::Up => Self::Up,
            KeyboardState::Right => Self::Right,
            KeyboardState::Left => Self::Left,
        }
    }
}

/// Which picture of the mouse is drawn.
#[derive(Debug, Copy, Clone, PartialEq, Eq, Structural)]
pub enum MouseState {
    Neither,
    Left,
    Right,
    Both,
}

impl MouseState {
    /// The picture for a state of the mouse buttons.
    pub fn from_button_state(value: MouseButtonState) -> (out: Self)
        ensures
            out == match value {
                MouseButtonState::Neither => MouseState::Neither,
                MouseButtonState::Left => MouseState::Left,
                MouseButtonState::Right => MouseState::Right,
                MouseButtonState::Both => MouseState::Both,
            },
    {
        match value {
            MouseButtonState::Neither => MouseState::Neither,
            MouseButtonState::Left => MouseState::Left,
            MouseButtonState::Right => MouseState::Right,
            MouseButtonState::Both => MouseState::Both,
        }
    }
}

/// The state of the keyboard for a number of held keys: up when none is
/// held, else left for an even number and right for an odd one.
pub open spec fn keyboard_state_of(held: nat) -> KeyboardState {
    if held == 0 {
        KeyboardState::Up
    } else if held % 2 == 0 {
        KeyboardState::Left
    } else {
        KeyboardState::Right
    }
}

/// The state of the mouse buttons for a set of held buttons.
pub open spec fn button_state_of(held: Seq<DeviceButton>) -> MouseButtonState {
    if held.contains(DeviceButton::Left) {
        if held.contains(DeviceButton::Right) {
            MouseButtonState::Both
        } else {
            MouseButtonState::Left
        }
    } else {
        if held.contains(DeviceButton::Right) {
            MouseButtonState::Right
        } else {
            MouseButtonState::Neither
        }
    }
}

/// A view model of keys.
pub trait KeysViewModel {
    type Key: Key;

    type KeyboardState;

    /// The keys that are held, oldest first.
    spec fn held(&self) -> Seq<<Self::Key as View>::V>;

    /// The state that the held keys give.
    spec fn spec_keyboard_state(&self) -> Self::KeyboardState;

    /// Well-formedness of the view model.
    spec fn valid(&self) -> bool;

    /// Records that `key` went down.
    fn key_pressed(&mut self, key: &Self::Key)
        requires
            old(self).valid(),
        ensures
            final(self).valid(),
            final(self).held() == with_key(old(self).held(), key@),
    ;

    /// Records that `key` went up.
    fn key_released(&mut self, key: &Self::Key)
        requires
            old(self).valid(),
        ensures
            final(self).valid(),
            final(self).held() == without_key(old(self).held(), key@),
    ;

    /// The state that the held keys give.
    fn keyboard_state(&self) -> (out: Self::KeyboardState)
        ensures
            out == self.spec_keyboard_state(),
    ;
}

/// A view model of a pointing device.
pub trait DeviceViewModel {
    type Button: Key;

    type ButtonState;

    type Position;

    type DeviceType;

    /// The buttons that are held, oldest first.
    spec fn held(&self) -> Seq<<Self::Button as View>::V>;

    /// Where the device points.
    spec fn spec_position(&self) -> Self::Position;

    /// The class of the device.
    spec fn spec_device_type(&self) -> Self::DeviceType;

    /// The state that the held buttons give.
    spec fn spec_button_state(&self) -> Self::ButtonState;

    /// Well-formedness of the view model.
    spec fn valid(&self) -> bool;

    /// Where the device points.
    fn position(&self) -> (out: Self::Position)
        ensures
            out == self.spec_position(),
    ;

    /// Records where the device points.
    fn set_position(&mut self, position: &Self::Position)
        requires
            old(self).valid(),
        ensures
            final(self).valid(),
            final(self).spec_position() == *position,
            final(self).held() == old(self).held(),
            final(self).spec_device_type() == old(self).spec_device_type(),
    ;

    /// The class of the device.
    fn device_type(&self) -> (out: Self::DeviceType)
        ensures
            out == self.spec_device_type(),
    ;

    /// Records the class of the device.
    fn set_device_type(&mut self, device_type: &Self::DeviceType)
        requires
            old(self).valid(),
        ensures
            final(self).valid(),
            final(self).spec_device_type() == *device_type,
            final(self).held() == old(self).held(),
            final(self).spec_position() == old(self).spec_position(),
    ;

    /// Records that `button` went down.
    fn button_pressed(&mut self, button: &Self::Button)
        requires
            old(self).valid(),
        ensures
            final(self).valid(),
            final(self).held() == with_key(old(self).held(), button@),
            final(self).spec_position() == old(self).spec_position(),
            final(self).spec_device_type() == old(self).spec_device_type(),
    ;

    /// Records that `button` went up.
    fn button_released(&mut self, button: &Self::Button)
        requires
            old(self).valid(),
        ensures
            final(self).valid(),
            final(self).held() == without_key(old(self).held(), button@),
            final(self).spec_position() == old(self).spec_position(),
            final(self).spec_device_type() == old(self).spec_device_type(),
    ;

    /// The state that the held buttons give.
    fn button_state(&self) -> (out: Self::ButtonState)
        ensures
            out == self.spec_button_state(),
    ;
}

/// The view model of the keyboard.
#[derive(Debug, Clone)]
pub struct KeyboardViewModel {
    model: Keyboard,
}

/// The key that a key event is about.
pub open spec fn event_key(event: KeyboardEventView) -> ButtonOrKeyView {
    match event {
        KeyboardEventView::KeyPressed(k) => ButtonOrKeyView::Key(k),
        KeyboardEventView::KeyReleased(k) => ButtonOrKeyView::Key(k),
        KeyboardEventView::ButtonPressed(b) => ButtonOrKeyView::Button(b),
        KeyboardEventView::ButtonReleased(b) => ButtonOrKeyView::Button(b),
    }
}

/// Whether a key event is a press.
pub open spec fn event_is_press(event: KeyboardEventView) -> bool {
    match event {
        KeyboardEventView::KeyPressed(_) => true,
        KeyboardEventView::ButtonPressed(_) => true,
        _ => false,
    }
}

impl KeyboardViewModel {
    /// A view model of a keyboard on which nothing is held.
    pub fn new() -> (out: Self)
        ensures
            out.valid(),
            out.held() == Seq::<ButtonOrKeyView>::empty(),
    {
        Self { model: Keyboard::new() }
    }

    /// Takes in a key event: a press holds the key, a release lets go.
    pub fn handle_event(&mut self, event: &KeyboardEvent)
        requires
            old(self).valid(),
        ensures
            final(self).valid(),
            final(self).held() == if event_is_press(event@) {
                with_key(old(self).held(), event_key(event@))
            } else {
                without_key(old(self).held(), event_key(event@))
            },
    {
        match event {
            KeyboardEvent::KeyPressed(k) => self.key_pressed(&ButtonOrKey::Key(*k)),
            KeyboardEvent::KeyReleased(k) => self.key_released(&ButtonOrKey::Key(*k)),
            KeyboardEvent::ButtonPressed(b) => self.key_pressed(&ButtonOrKey::Button(b.clone_key())),
            KeyboardEvent::ButtonReleased(b) => self.key_released(&ButtonOrKey::Button(b.clone_key())),
        }
    }
}

impl KeysViewModel for KeyboardViewModel {
    type Key = ButtonOrKey;

    type KeyboardState = KeyboardState;

    closed spec fn held(&self) -> Seq<ButtonOrKeyView> {
        self.model.held()
    }

    open spec fn spec_keyboard_state(&self) -> KeyboardState {
        keyboard_state_of(self.held().len())
    }

    closed spec fn valid(&self) -> bool {
        self.model.valid()
    }

    fn key_pressed(&mut self, key: &ButtonOrKey) {
        self.model.key_pressed(key);
    }

    fn key_released(&mut self, key: &ButtonOrKey) {
        self.model.key_released(key);
    }

    fn keyboard_state(&self) -> (out: KeyboardState) {
        let keys = self.model.keys_pressed();
        proof {
            assert(key_views(keys@).len() == keys@.len());
        }
        let is_even = keys.len() % 2 == 0;
        if keys.is_empty() {
            KeyboardState::Up
        } else if is_even {
            KeyboardState::Left
        } else {
            KeyboardState::Right
        }
    }
}

/// The view model of the mouse.
#[derive(Debug, Clone)]
pub struct MouseViewModel {
    model: MouseModel,
}

impl MouseViewModel {
    /// A view model of a mouse at the origin on which nothing is held.
    pub fn new() -> (out: Self)
        ensures
            out.valid(),
            out.held() == Seq::<DeviceButton>::empty(),
            out.spec_position() == (Position { x: 0, y: 0 }),
            out.spec_device_type() == DeviceType::Mouse,
    {
        Self { model: MouseModel::new() }
    }

    /// Takes in a pointer event: a press holds the button, a release lets
    /// go, a move sets the position or one coordinate of it, and a change
    /// of device sets the class of device.
    pub fn handle_event(&mut self, event: &DeviceEvent)
        requires
            old(self).valid(),
        ensures
            final(self).valid(),
            final(self).held() == match *event {
                DeviceEvent::ButtonPressed(b) => with_key(old(self).held(), b),
                DeviceEvent::ButtonReleased(b) => without_key(old(self).held(), b),
                _ => old(self).held(),
            },
            final(self).spec_position() == match *event {
                DeviceEvent::MouseMoved(pos) => pos,
                DeviceEvent::AxisXMoved(x) => Position { x, y: old(self).spec_position().y },
                DeviceEvent::AxisYMoved(y) => Position { x: old(self).spec_position().x, y },
                _ => old(self).spec_position(),
            },
            final(self).spec_device_type() == match *event {
                DeviceEvent::DeviceChanged(dev) => dev,
                _ => old(self).spec_device_type(),
            },
    {
        match event {
            DeviceEvent::ButtonPressed(b) => self.button_pressed(b),
            DeviceEvent::ButtonReleased(b) => self.button_released(b),
            DeviceEvent::MouseMoved(pos) => self.set_position(pos),
            DeviceEvent::AxisXMoved(x_pos) => {
                let mut cur_pos = self.position();
                cur_pos.x = *x_pos;
                self.set_position(&cur_pos);
            },
            DeviceEvent::AxisYMoved(y_pos) => {
                let mut cur_pos = self.position();
                cur_pos.y = *y_pos;
                self.set_position(&cur_pos);
            },
            DeviceEvent::DeviceChanged(dev) => self.set_device_type(dev),
        }
    }
}

impl DeviceViewModel for MouseViewModel {
    type Button = DeviceButton;

    type ButtonState = MouseButtonState;

    type Position = Position;

    type DeviceType = DeviceType;

    closed spec fn held(&self) -> Seq<DeviceButton> {
        self.model.held()
    }

    closed spec fn spec_position(&self) -> Position {
        self.model.spec_position()
    }

    closed spec fn spec_device_type(&self) -> DeviceType {
        self.model.spec_device_type()
    }

    open spec fn spec_button_state(&self) -> MouseButtonState {
        button_state_of(self.held())
    }

    closed spec fn valid(&self) -> bool {
        self.model.valid()
    }

    fn position(&self) -> (out: Position) {
        self.model.position()
    }

    fn set_position(&mut self, pos: &Position) {
        self.model.set_position(pos)
    }

    fn device_type(&self) -> (out: DeviceType) {
        self.model.device_type()
    }

    fn set_device_type(&mut self, device_type: &DeviceType) {
        self.model.set_device_type(device_type)
    }

    fn button_pressed(&mut self, button: &DeviceButton) {
        self.model.button_pressed(button);
    }

    fn button_released(&mut self, button: &DeviceButton) {
        self.model.button_released(button);
    }

    fn button_state(&self) -> (out: MouseButtonState) {
        let buttons = self.model.buttons_pressed();
        let left_pressed = position_of(&buttons, &DeviceButton::Left) < buttons.len();
        let right_pressed = position_of(&buttons, &DeviceButton::Right) < buttons.len();
        match (left_pressed, right_pressed) {
            (false, false) => MouseButtonState::Neither,
            (true, false) => MouseButtonState::Left,
            (false, true) => MouseButtonState::Right,
            (true, true) => MouseButtonState::Both,
        }
    }
}

} // verus!
