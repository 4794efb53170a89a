//! Turning samples of raw input into events.
//!
//! Keys and mouse buttons are edge-triggered: a sample is compared with the
//! set of keys held after the sample before, and only what went down or up
//! gives an event. Events of a gamepad become key events (buttons) and
//! pointer events (the stick that moves the pointer).

use vstd::prelude::*;
use crate::controls::clamp_axis;
use crate::controls::MAX_AXIS_VAL;
use crate::events::DeviceEvent;
use crate::events::KeyboardEvent;
use crate::events::KeyboardEventView;
use crate::events::mouse_event_of;
use crate::events::MouseEvent;
use crate::gamepad::AxisEventView;
use crate::gamepad::ButtonEventView;
use crate::gamepad::JoystickEvent;
use crate::gamepad::JoystickEventView;
use crate::kinds::AxisType;
use crate::kinds::AxisTypeView;
use crate::models::device_button_of;
use crate::models::DeviceButton;
use crate::models::DeviceType;
use crate::models::GamepadMouseStick;
use crate::models::KeyCode;
use crate::models::Platform;
use crate::models::Position;
use crate::models::POSITION_SCALE;
use crate::pressed::dropped_keys;
use crate::pressed::kept_keys;
use crate::pressed::key_views;
use crate::pressed::without_key;
use crate::pressed::Key;
use crate::pressed::PressedKeyMap;
use crate::seqs::count_of;
use crate::seqs::lemma_count_add;
use crate::seqs::lemma_count_in_set;
use crate::seqs::lemma_count_map;
use crate::seqs::lemma_count_map_other;
use crate::seqs::lemma_count_push;
use crate::seqs::lemma_filter_members;
use crate::seqs::lemma_filter_no_duplicates;
use crate::views::lemma_view_seq_push;
use crate::views::view_seq;

verus! {

/// The release events for the keys that were held and are held no longer.
pub open spec fn key_releases(prev: Seq<KeyCode>, cur: Seq<KeyCode>) -> Seq<KeyboardEventView> {
    dropped_keys(prev, cur).map_values(|k: KeyCode| KeyboardEventView::KeyReleased(k))
}

/// One step of looking at the keys that are down: a key that is not held
/// yet becomes held and gives a press event.
pub open spec fn press_step(acc: (Seq<KeyCode>, Seq<KeyboardEventView>), key: KeyCode) -> (
    Seq<KeyCode>,
    Seq<KeyboardEventView>,
) {
    if acc.0.contains(key) {
        acc
    } else {
        (acc.0.push(key), acc.1.push(KeyboardEventView::KeyPressed(key)))
    }
}

/// The held keys and the events after looking at the first `n` keys that
/// are down.
pub open spec fn presses_after(
    cur: Seq<KeyCode>,
    start: (Seq<KeyCode>, Seq<KeyboardEventView>),
    n: nat,
) -> (Seq<KeyCode>, Seq<KeyboardEventView>)
    decreases n,
{
    if n == 0 {
        start
    } else {
        press_step(presses_after(cur, start, (n - 1) as nat), cur[n - 1])
    }
}

/// The keys held after a sample of the keyboard, and the events that the
/// sample gives: first a release for each key that was held and is down no
/// longer, then a press for each key that is down and was not held.
pub open spec fn keyboard_poll(prev: Seq<KeyCode>, cur: Seq<KeyCode>) -> (
    Seq<KeyCode>,
    Seq<KeyboardEventView>,
) {
    presses_after(cur, (kept_keys(prev, cur), key_releases(prev, cur)), cur.len())
}

/// One step of looking at the levels of the mouse buttons. The raw button
/// 0 is never used. A button that is down and not held becomes held and
/// gives a press event; one that is up and held is held no longer and gives
/// a release event.
pub open spec fn mouse_step(
    acc: (Seq<DeviceButton>, Seq<DeviceEvent>),
    index: int,
    pressed: bool,
    platform: Platform,
) -> (Seq<DeviceButton>, Seq<DeviceEvent>) {
    let button = device_button_of(index as usize, platform);
    if index == 0 {
        acc
    } else if pressed {
        if acc.0.contains(button) {
            acc
        } else {
            (acc.0.push(button), acc.1.push(DeviceEvent::ButtonPressed(button)))
        }
    } else {
        if acc.0.contains(button) {
            (without_key(acc.0, button), acc.1.push(DeviceEvent::ButtonReleased(button)))
        } else {
            acc
        }
    }
}

/// The held buttons and the events after looking at the first `n` levels.
pub open spec fn mouse_after(
    levels: Seq<bool>,
    platform: Platform,
    start: (Seq<DeviceButton>, Seq<DeviceEvent>),
    n: nat,
) -> (Seq<DeviceButton>, Seq<DeviceEvent>)
    decreases n,
{
    if n == 0 {
        start
    } else {
        mouse_step(mouse_after(levels, platform, start, (n - 1) as nat), n - 1, levels[n - 1], platform)
    }
}

/// The buttons held after a sample of the mouse buttons, and the events
/// that the sample gives.
pub open spec fn mouse_poll(prev: Seq<DeviceButton>, levels: Seq<bool>, platform: Platform) -> (
    Seq<DeviceButton>,
    Seq<DeviceEvent>,
) {
    mouse_after(levels, platform, (prev, Seq::empty()), levels.len())
}

/// An axis position as a position along the display: the range from the
/// lowest to the highest axis position, mapped onto the range from 0 to
/// `POSITION_SCALE`. A value outside the range of axis positions counts as
/// the nearest one inside.
pub open spec fn normalized(value: int) -> int {
    (clamp_axis(value) + MAX_AXIS_VAL) * POSITION_SCALE / (2 * MAX_AXIS_VAL)
}

/// The pointer event that a move of an axis gives when `stick` moves the
/// pointer: the horizontal and vertical axes of that stick give one, the
/// other axes none.
pub open spec fn pointer_event_of(event: AxisEventView, stick: GamepadMouseStick) -> Option<DeviceEvent> {
    match (stick, event.event_type) {
        (GamepadMouseStick::Left, AxisTypeView::LeftX) => Some(
            DeviceEvent::AxisXMoved(normalized(event.state as int) as i32),
        ),
        (GamepadMouseStick::Left, AxisTypeView::LeftY) => Some(
            DeviceEvent::AxisYMoved(normalized(event.state as int) as i32),
        ),
        (GamepadMouseStick::Right, AxisTypeView::RightX) => Some(
            DeviceEvent::AxisXMoved(normalized(event.state as int) as i32),
        ),
        (GamepadMouseStick::Right, AxisTypeView::RightY) => Some(
            DeviceEvent::AxisYMoved(normalized(event.state as int) as i32),
        ),
        _ => None,
    }
}

/// The key event that a change of a gamepad button gives.
pub open spec fn key_event_of(event: ButtonEventView) -> KeyboardEventView {
    if event.state {
        KeyboardEventView::ButtonPressed(event.event_type)
    } else {
        KeyboardEventView::ButtonReleased(event.event_type)
    }
}

/// One step of turning gamepad events into pointer and key events.
pub open spec fn gamepad_step(
    acc: (Seq<DeviceEvent>, Seq<KeyboardEventView>),
    event: JoystickEventView,
    stick: GamepadMouseStick,
) -> (Seq<DeviceEvent>, Seq<KeyboardEventView>) {
    match event {
        JoystickEventView::Button(b) => (acc.0, acc.1.push(key_event_of(b))),
        JoystickEventView::Axis(a) => match pointer_event_of(a, stick) {
            Some(e) => (acc.0.push(e), acc.1),
            None => acc,
        },
    }
}

/// The pointer and key events that the first `n` gamepad events give.
pub open spec fn gamepad_events_after(
    events: Seq<JoystickEventView>,
    stick: GamepadMouseStick,
    n: nat,
) -> (Seq<DeviceEvent>, Seq<KeyboardEventView>)
    decreases n,
{
    if n == 0 {
        (Seq::empty(), Seq::empty())
    } else {
        gamepad_step(gamepad_events_after(events, stick, (n - 1) as nat), events[n - 1], stick)
    }
}

/// The pointer and key events that a sequence of gamepad events gives.
pub open spec fn gamepad_events_of(events: Seq<JoystickEventView>, stick: GamepadMouseStick) -> (
    Seq<DeviceEvent>,
    Seq<KeyboardEventView>,
) {
    gamepad_events_after(events, stick, events.len())
}

/// The events of the pointer for one tick: a move when the cursor is known
/// and is not where it was, after the button events.
pub open spec fn with_cursor(buttons: Seq<DeviceEvent>, cursor: Option<Position>, last: Position) -> Seq<
    DeviceEvent,
> {
    match cursor {
        Some(pos) => if pos != last {
            buttons.push(DeviceEvent::MouseMoved(pos))
        } else {
            buttons
        },
        None => buttons,
    }
}

/// The announcements of which class of device was active in a tick: the
/// gamepad when it gave any event, the mouse when mouse or keyboard did.
pub open spec fn device_changes(gamepad_active: bool, mouse_active: bool) -> Seq<DeviceEvent> {
    let first = if gamepad_active {
        seq![DeviceEvent::DeviceChanged(DeviceType::GamePad)]
    } else {
        Seq::<DeviceEvent>::empty()
    };
    if mouse_active {
        first.push(DeviceEvent::DeviceChanged(DeviceType::Mouse))
    } else {
        first
    }
}

/// The pointer events of one tick in the order in which they are handed
/// out: the announcements, the events of the gamepad, those of the mouse.
pub open spec fn device_batch(
    gamepad_device: Seq<DeviceEvent>,
    gamepad_keys: Seq<KeyboardEventView>,
    mouse: Seq<DeviceEvent>,
    keys: Seq<KeyboardEventView>,
) -> Seq<DeviceEvent> {
    device_changes(
        gamepad_device.len() > 0 || gamepad_keys.len() > 0,
        mouse.len() > 0 || keys.len() > 0,
    ) + gamepad_device + mouse
}

/// The views of keys are the keys.
pub proof fn lemma_key_code_views(keys: Seq<KeyCode>)
    ensures
        key_views(keys) == keys,
{
    assert(key_views(keys) =~= keys);
}

/// Samples the keyboard: `cur_state` holds the keys that are down,
/// `prev_keys` those held after the sample before.
pub fn get_keyboard_events(cur_state: &Vec<KeyCode>, prev_keys: &mut PressedKeyMap<KeyCode>) -> (events: Vec<
    KeyboardEvent,
>)
    requires
        old(prev_keys).wf(),
    ensures
        final(prev_keys).wf(),
        (final(prev_keys).keys(), view_seq(events@)) == keyboard_poll(old(prev_keys).keys(), cur_state@),
{
    let ghost prev = prev_keys.keys();
    let ghost cur = cur_state@;
    proof {
        lemma_key_code_views(cur);
    }
    let released = prev_keys.retain_in(cur_state);
    proof {
        lemma_key_code_views(released@);
    }
    let mut events: Vec<KeyboardEvent> = Vec::new();
    let mut i: usize = 0;
    while i < released.len()
        invariant
            i <= released.len(),
            released@ == dropped_keys(prev, cur),
            view_seq(events@) == key_releases(prev, cur).subrange(0, i as int),
        decreases released.len() - i,
    {
        let event = KeyboardEvent::KeyReleased(released[i]);
        proof {
            lemma_view_seq_push(events@, event);
            assert(key_releases(prev, cur).subrange(0, i as int).push(event@) =~= key_releases(
                prev,
                cur,
            ).subrange(0, i + 1));
        }
        events.push(event);
        i += 1;
    }
    proof {
        assert(key_releases(prev, cur).subrange(0, i as int) =~= key_releases(prev, cur));
    }
    let ghost start = (kept_keys(prev, cur), key_releases(prev, cur));
    let mut j: usize = 0;
    while j < cur_state.len()
        invariant
            j <= cur_state.len(),
            cur == cur_state@,
            prev_keys.wf(),
            (prev_keys.keys(), view_seq(events@)) == presses_after(cur, start, j as nat),
        decreases cur_state.len() - j,
    {
        let code = cur_state[j];
        if !prev_keys.contains(&code) {
            prev_keys.key_pressed(&code);
            let event = KeyboardEvent::KeyPressed(code);
            proof {
                lemma_view_seq_push(events@, event);
            }
            events.push(event);
        }
        j += 1;
    }
    events
}

/// Samples the mouse buttons: `button_pressed` holds the level of each raw
/// button, `held` the buttons held after the sample before.
pub fn get_mouse_events(
    button_pressed: &Vec<bool>,
    held: &mut PressedKeyMap<DeviceButton>,
    platform: Platform,
) -> (events: Vec<DeviceEvent>)
    requires
        old(held).wf(),
    ensures
        final(held).wf(),
        (final(held).keys(), events@) == mouse_poll(old(held).keys(), button_pressed@, platform),
{
    let ghost start = (held.keys(), Seq::<DeviceEvent>::empty());
    let mut events: Vec<DeviceEvent> = Vec::new();
    let mut b: usize = 0;
    while b < button_pressed.len()
        invariant
            b <= button_pressed.len(),
            held.wf(),
            (held.keys(), events@) == mouse_after(button_pressed@, platform, start, b as nat),
        decreases button_pressed.len() - b,
    {
        // The first raw button is never used.
        if b > 0 {
            let button = DeviceButton::from_index(b, platform);
            if button_pressed[b] {
                if !held.contains(&button) {
                    held.key_pressed(&button);
                    events.push(DeviceEvent::ButtonPressed(button));
                }
            } else if held.contains(&button) {
                held.key_released(&button);
                events.push(DeviceEvent::ButtonReleased(button));
            }
        }
        b += 1;
    }
    events
}

/// The mouse events that pointer events give: one for each press or
/// release of a button, in order; other pointer events give none.
pub open spec fn mouse_events_of(events: Seq<DeviceEvent>) -> Seq<MouseEvent>
    decreases events.len(),
{
    if events.len() == 0 {
        Seq::empty()
    } else {
        match events.last() {
            DeviceEvent::ButtonPressed(b) => mouse_events_of(events.drop_last()).push(
                mouse_event_of(b, true),
            ),
            DeviceEvent::ButtonReleased(b) => mouse_events_of(events.drop_last()).push(
                mouse_event_of(b, false),
            ),
            _ => mouse_events_of(events.drop_last()),
        }
    }
}

/// Samples the mouse buttons as [`get_mouse_events`] does, for listeners
/// to mouse events.
pub fn query_mouse(
    button_pressed: &Vec<bool>,
    mouse_state: &mut PressedKeyMap<DeviceButton>,
    platform: Platform,
) -> (events: Vec<MouseEvent>)
    requires
        old(mouse_state).wf(),
    ensures
        final(mouse_state).wf(),
        final(mouse_state).keys() == mouse_poll(old(mouse_state).keys(), button_pressed@, platform).0,
        events@ == mouse_events_of(mouse_poll(old(mouse_state).keys(), button_pressed@, platform).1),
{
    let device_events = get_mouse_events(button_pressed, mouse_state, platform);
    let mut events: Vec<MouseEvent> = Vec::new();
    let mut i: usize = 0;
    while i < device_events.len()
        invariant
            i <= device_events.len(),
            events@ == mouse_events_of(device_events@.subrange(0, i as int)),
        decreases device_events.len() - i,
    {
        proof {
            assert(device_events@.subrange(0, i + 1).drop_last() =~= device_events@.subrange(0, i as int));
        }
        match MouseEvent::from_device_event(&device_events[i]) {
            Some(event) => {
                events.push(event);
            },
            None => {},
        }
        i += 1;
    }
    proof {
        assert(device_events@.subrange(0, i as int) =~= device_events@);
    }
    events
}

/// An axis position as a position along the display.
pub fn normalize_axis(value: i32) -> (out: i32)
    ensures
        out == normalized(value as int),
        0 <= out <= POSITION_SCALE,
{
    let value: i32 = if value < -MAX_AXIS_VAL {
        -MAX_AXIS_VAL
    } else if value > MAX_AXIS_VAL {
        MAX_AXIS_VAL
    } else {
        value
    };
    let shifted: i64 = value as i64 + MAX_AXIS_VAL as i64;
    assert(0 <= shifted <= 200_000);
    let scaled: i64 = shifted * 1_000_000;
    let out: i64 = scaled / (2 * MAX_AXIS_VAL as i64);
    out as i32
}

/// Turns the events of a gamepad into key events, for its buttons, and
/// pointer events, for the stick that moves the pointer.
pub fn get_gamepad_events(events: &Vec<JoystickEvent>, mouse_stick: GamepadMouseStick) -> (out: (
    Vec<DeviceEvent>,
    Vec<KeyboardEvent>,
))
    ensures
        (out.0@, view_seq(out.1@)) == gamepad_events_of(view_seq(events@), mouse_stick),
{
    let mut device_events: Vec<DeviceEvent> = Vec::new();
    let mut keyboard_events: Vec<KeyboardEvent> = Vec::new();
    let ghost all = view_seq(events@);
    proof {
        assert(view_seq(keyboard_events@) =~= Seq::<KeyboardEventView>::empty());
    }
    let mut i: usize = 0;
    while i < events.len()
        invariant
            i <= events.len(),
            all == view_seq(events@),
            (device_events@, view_seq(keyboard_events@)) == gamepad_events_after(all, mouse_stick, i as nat),
        decreases events.len() - i,
    {
        proof {
            assert(all[i as int] == events[i as int]@);
        }
        match &events[i] {
            JoystickEvent::Button(button) => {
                let event = if *button.state() {
                    KeyboardEvent::ButtonPressed(button.event_type().clone_key())
                } else {
                    KeyboardEvent::ButtonReleased(button.event_type().clone_key())
                };
                proof {
                    lemma_view_seq_push(keyboard_events@, event);
                }
                keyboard_events.push(event);
            },
            JoystickEvent::Axis(axis) => {
                let pos = normalize_axis(*axis.state());
                match (mouse_stick, axis.event_type()) {
                    (GamepadMouseStick::Left, AxisType::LeftX) => {
                        device_events.push(DeviceEvent::AxisXMoved(pos));
                    },
                    (GamepadMouseStick::Left, AxisType::LeftY) => {
                        device_events.push(DeviceEvent::AxisYMoved(pos));
                    },
                    (GamepadMouseStick::Right, AxisType::RightX) => {
                        device_events.push(DeviceEvent::AxisXMoved(pos));
                    },
                    (GamepadMouseStick::Right, AxisType::RightY) => {
                        device_events.push(DeviceEvent::AxisYMoved(pos));
                    },
                    _ => {},
                }
            },
        }
        i += 1;
    }
    (device_events, keyboard_events)
}

/// Puts the events of one tick in the order in which they are handed out.
/// Pointer events: an announcement of the gamepad when it gave any event,
/// one of the mouse when mouse or keyboard gave any, then the events of the
/// gamepad, then those of the mouse. Key events: those of the gamepad, then
/// those of the keyboard.
pub fn assemble_batch(
    gamepad_device_events: Vec<DeviceEvent>,
    gamepad_keyboard_events: Vec<KeyboardEvent>,
    raw_mouse_events: Vec<DeviceEvent>,
    raw_keyboard_events: Vec<KeyboardEvent>,
) -> (out: (Vec<DeviceEvent>, Vec<KeyboardEvent>))
    ensures
        out.0@ == device_batch(
            gamepad_device_events@,
            view_seq(gamepad_keyboard_events@),
            raw_mouse_events@,
            view_seq(raw_keyboard_events@),
        ),
        view_seq(out.1@) == view_seq(gamepad_keyboard_events@) + view_seq(raw_keyboard_events@),
{
    let mut mouse_events: Vec<DeviceEvent> = Vec::new();
    let mut keyboard_events = gamepad_keyboard_events;
    let mut gamepad_device_events = gamepad_device_events;
    let mut raw_mouse_events = raw_mouse_events;
    let mut raw_keyboard_events = raw_keyboard_events;
    let ghost gk = view_seq(keyboard_events@);
    let ghost rk = view_seq(raw_keyboard_events@);
    if !gamepad_device_events.is_empty() || !keyboard_events.is_empty() {
        mouse_events.push(DeviceEvent::DeviceChanged(DeviceType::GamePad));
    }
    if !raw_mouse_events.is_empty() || !raw_keyboard_events.is_empty() {
        mouse_events.push(DeviceEvent::DeviceChanged(DeviceType::Mouse));
    }
    proof {
        assert(mouse_events@ =~= device_changes(
            gamepad_device_events@.len() > 0 || gk.len() > 0,
            raw_mouse_events@.len() > 0 || rk.len() > 0,
        ));
    }
    mouse_events.append(&mut gamepad_device_events);
    mouse_events.append(&mut raw_mouse_events);
    let ghost before = keyboard_events@;
    let ghost added = raw_keyboard_events@;
    keyboard_events.append(&mut raw_keyboard_events);
    proof {
        assert(view_seq(before + added) =~= view_seq(before) + view_seq(added));
    }
    (mouse_events, keyboard_events)
}

/// Whether `key` is among the first `n` keys of `cur`.
pub open spec fn occurs_before(cur: Seq<KeyCode>, key: KeyCode, n: int) -> bool {
    exists|i: int| 0 <= i < n && i < cur.len() && cur[i] == key
}

/// What looking at the first `n` keys that are down does: the held keys
/// stay without duplicates and gain exactly the keys looked at; one press
/// event is added for a key looked at that was not held, and no other
/// event.
pub proof fn lemma_presses_after(
    cur: Seq<KeyCode>,
    start: (Seq<KeyCode>, Seq<KeyboardEventView>),
    n: nat,
    key: KeyCode,
)
    requires
        start.0.no_duplicates(),
        n <= cur.len(),
    ensures
        presses_after(cur, start, n).0.no_duplicates(),
        forall|x: KeyCode|
            presses_after(cur, start, n).0.contains(x) <==> start.0.contains(x) || occurs_before(
                cur,
                x,
                n as int,
            ),
        count_of(presses_after(cur, start, n).1, KeyboardEventView::KeyPressed(key)) == count_of(
            start.1,
            KeyboardEventView::KeyPressed(key),
        ) + if occurs_before(cur, key, n as int) && !start.0.contains(key) {
            1nat
        } else {
            0nat
        },
        count_of(presses_after(cur, start, n).1, KeyboardEventView::KeyReleased(key)) == count_of(
            start.1,
            KeyboardEventView::KeyReleased(key),
        ),
    decreases n,
{
    if n > 0 {
        let before = presses_after(cur, start, (n - 1) as nat);
        let after = presses_after(cur, start, n);
        let k = cur[n - 1];
        lemma_presses_after(cur, start, (n - 1) as nat, key);
        lemma_count_push(before.1, KeyboardEventView::KeyPressed(k), KeyboardEventView::KeyPressed(key));
        lemma_count_push(before.1, KeyboardEventView::KeyPressed(k), KeyboardEventView::KeyReleased(key));
        assert(occurs_before(cur, k, n as int));
        assert forall|x: KeyCode|
            after.0.contains(x) <==> start.0.contains(x) || occurs_before(cur, x, n as int) by {
            if before.0.contains(x) {
                let j = choose|j: int| 0 <= j < before.0.len() && before.0[j] == x;
                assert(after.0[j] == x);
            }
            if after.0.contains(x) && !before.0.contains(x) {
                let j = choose|j: int| 0 <= j < after.0.len() && after.0[j] == x;
                assert(j == before.0.len());
                assert(x == k);
            }
            if x == k && !before.0.contains(k) {
                assert(after.0[before.0.len() as int] == k);
            }
            if occurs_before(cur, x, n as int) && !occurs_before(cur, x, n - 1) {
                assert(x == k);
            }
            if occurs_before(cur, x, n - 1) {
                let i = choose|i: int| 0 <= i < n - 1 && i < cur.len() && cur[i] == x;
                assert(0 <= i < n && cur[i] == x);
            }
        }
        if occurs_before(cur, key, n - 1) {
            let i = choose|i: int| 0 <= i < n - 1 && i < cur.len() && cur[i] == key;
            assert(0 <= i < n && cur[i] == key);
        }
        if occurs_before(cur, key, n as int) && !occurs_before(cur, key, n - 1) {
            assert(key == k);
        }
    }
}

/// One sample of the keyboard is edge-triggered: a key gives exactly one
/// press event when it is down and was not held, and none otherwise;
/// exactly one release event when it was held and is down no longer, and
/// none otherwise. Afterwards exactly the keys that are down are held,
/// none of them twice.
pub proof fn lemma_keyboard_poll_edges(prev: Seq<KeyCode>, cur: Seq<KeyCode>, key: KeyCode)
    requires
        prev.no_duplicates(),
    ensures
        count_of(keyboard_poll(prev, cur).1, KeyboardEventView::KeyPressed(key)) == if cur.contains(key)
            && !prev.contains(key) {
            1nat
        } else {
            0nat
        },
        count_of(keyboard_poll(prev, cur).1, KeyboardEventView::KeyReleased(key)) == if prev.contains(
            key,
        ) && !cur.contains(key) {
            1nat
        } else {
            0nat
        },
        keyboard_poll(prev, cur).0.no_duplicates(),
        forall|x: KeyCode| keyboard_poll(prev, cur).0.contains(x) <==> cur.contains(x),
{
    let keep = |k: KeyCode| cur.contains(k);
    let drop = |k: KeyCode| !cur.contains(k);
    let released = |k: KeyCode| KeyboardEventView::KeyReleased(k);
    let kept = kept_keys(prev, cur);
    let dropped = dropped_keys(prev, cur);
    let start = (kept, key_releases(prev, cur));
    lemma_filter_members(prev, keep);
    lemma_filter_members(prev, drop);
    lemma_filter_no_duplicates(prev, keep);
    lemma_filter_no_duplicates(prev, drop);
    lemma_count_in_set(dropped, key);
    lemma_count_map(dropped, released, key);
    lemma_count_map_other(dropped, released, KeyboardEventView::KeyPressed(key));
    lemma_presses_after(cur, start, cur.len(), key);
    assert(occurs_before(cur, key, cur.len() as int) <==> cur.contains(key));
    assert forall|x: KeyCode| keyboard_poll(prev, cur).0.contains(x) <==> cur.contains(x) by {
        assert(occurs_before(cur, x, cur.len() as int) <==> cur.contains(x));
    }
}

/// The keys held and the events given after a run of samples of the
/// keyboard, one sample per tick.
pub open spec fn keyboard_run(prev: Seq<KeyCode>, samples: Seq<Seq<KeyCode>>) -> (
    Seq<KeyCode>,
    Seq<KeyboardEventView>,
)
    decreases samples.len(),
{
    if samples.len() == 0 {
        (prev, Seq::empty())
    } else {
        let before = keyboard_run(prev, samples.drop_last());
        let step = keyboard_poll(before.0, samples.last());
        (step.0, before.1 + step.1)
    }
}

/// Holding a key gives one press: over a run of one or more samples in
/// each of which a key is down, and before which it was not held, the key
/// gives exactly one press event and no release event, and it is held at
/// the end.
pub proof fn lemma_hold_gives_one_press(prev: Seq<KeyCode>, samples: Seq<Seq<KeyCode>>, key: KeyCode)
    requires
        prev.no_duplicates(),
        !prev.contains(key),
        samples.len() >= 1,
        forall|i: int| 0 <= i < samples.len() ==> (#[trigger] samples[i]).contains(key),
    ensures
        count_of(keyboard_run(prev, samples).1, KeyboardEventView::KeyPressed(key)) == 1,
        count_of(keyboard_run(prev, samples).1, KeyboardEventView::KeyReleased(key)) == 0,
        keyboard_run(prev, samples).0.contains(key),
        keyboard_run(prev, samples).0.no_duplicates(),
    decreases samples.len(),
{
    let front = samples.drop_last();
    let before = keyboard_run(prev, front);
    let step = keyboard_poll(before.0, samples.last());
    if samples.len() == 1 {
        assert(before == (prev, Seq::<KeyboardEventView>::empty()));
    } else {
        assert forall|i: int| 0 <= i < front.len() implies (#[trigger] front[i]).contains(key) by {
            assert(front[i] == samples[i]);
        }
        lemma_hold_gives_one_press(prev, front, key);
    }
    lemma_keyboard_poll_edges(before.0, samples.last(), key);
    lemma_count_add(before.1, step.1, KeyboardEventView::KeyPressed(key));
    lemma_count_add(before.1, step.1, KeyboardEventView::KeyReleased(key));
}

/// Letting go gives one release: the sample in which a held key is down no
/// longer gives exactly one release event for it and no press event, and
/// the key is held no longer.
pub proof fn lemma_release_gives_one_release(prev: Seq<KeyCode>, cur: Seq<KeyCode>, key: KeyCode)
    requires
        prev.no_duplicates(),
        prev.contains(key),
        !cur.contains(key),
    ensures
        count_of(keyboard_poll(prev, cur).1, KeyboardEventView::KeyReleased(key)) == 1,
        count_of(keyboard_poll(prev, cur).1, KeyboardEventView::KeyPressed(key)) == 0,
        !keyboard_poll(prev, cur).0.contains(key),
{
    lemma_keyboard_poll_edges(prev, cur, key);
}

} // verus!
