//! The per-tick input monitor.
//!
//! Once per tick the caller takes a [`TickSample`] of the raw devices and
//! hands it to [`UserInputMonitor::get_events`], which decides what changed
//! since the tick before and returns the events to deliver. The monitor
//! keeps what it needs to compare with: the keys and mouse buttons that are
//! held, the last cursor position, and the gamepad that is bound.

use vstd::prelude::*;
use crate::controls::JoystickState;
use crate::events::DeviceEvent;
use crate::events::KeyboardEvent;
use crate::events::KeyboardEventView;
use crate::gamepad::drained;
use crate::gamepad::lookup;
use crate::gamepad::updated;
use crate::gamepad::without_events;
use crate::gamepad::AxisEventView;
use crate::gamepad::ButtonEventView;
use crate::gamepad::GamePad;
use crate::gamepad::GamePadView;
use crate::gamepad::JoystickEvent;
use crate::gamepad::JoystickEventView;
use crate::models::DeviceButton;
use crate::models::GamepadMouseStick;
use crate::models::KeyCode;
use crate::models::Platform;
use crate::models::Position;
use crate::pressed::PressedKeyMap;
use crate::sampler::assemble_batch;
use crate::sampler::device_batch;
use crate::sampler::gamepad_events_of;
use crate::sampler::get_gamepad_events;
use crate::sampler::get_keyboard_events;
use crate::sampler::get_mouse_events;
use crate::sampler::keyboard_poll;
use crate::sampler::mouse_poll;
use crate::sampler::with_cursor;
use crate::views::view_opt;
use crate::views::view_seq;

verus! {

/// Least time between two scans for a gamepad, in milliseconds.
pub const GAMEPAD_POLL_MS: u64 = 200;

/// Number of raw joystick slots that are looked at.
pub const JOYSTICK_COUNT: usize = 8;

/// What the raw devices report at one tick.
#[derive(Debug, Clone, PartialEq, Eq)]
pub struct TickSample {
    /// Time of the tick on a clock that does not go back, in milliseconds.
    pub now_ms: u64,
    /// Level of each raw mouse button, by raw index.
    pub mouse_buttons: Vec<bool>,
    /// Where the cursor is, or nothing when that could not be found out.
    pub cursor: Option<Position>,
    /// The keys that are down.
    pub keys: Vec<KeyCode>,
    /// The raw joysticks, by slot.
    pub joysticks: Vec<JoystickState>,
}

/// The events of one tick, in the order of delivery.
#[derive(Debug, Clone, PartialEq, Eq)]
pub struct EventBatch {
    /// For the listeners to the pointing device.
    pub device_events: Vec<DeviceEvent>,
    /// For the listeners to keys.
    pub keyboard_events: Vec<KeyboardEvent>,
}

/// A raw joystick that is connected, with what it reports of itself.
#[derive(Debug, Clone, Copy, PartialEq, Eq, Structural)]
pub struct SFMLJoystick {
    pub id: u32,
    pub vendor: u32,
    pub product: u32,
}

/// Whether slot `i` is looked at and holds a connected joystick.
pub open spec fn slot_connected(pads: Seq<JoystickState>, i: int) -> bool {
    0 <= i < pads.len() && i < JOYSTICK_COUNT && pads[i].connected
}

/// The first connected slot at or after `from`, or `JOYSTICK_COUNT`.
pub open spec fn first_connected(pads: Seq<JoystickState>, from: int) -> int
    decreases JOYSTICK_COUNT - from,
{
    if from < 0 || from >= JOYSTICK_COUNT {
        JOYSTICK_COUNT as int
    } else if slot_connected(pads, from) {
        from
    } else {
        first_connected(pads, from + 1)
    }
}

/// The joystick to use when slot `id` is asked for: that slot when it is
/// connected, else the first connected one.
pub open spec fn chosen_slot(id: u32, pads: Seq<JoystickState>) -> int {
    if slot_connected(pads, id as int) {
        id as int
    } else {
        first_connected(pads, 0)
    }
}

impl SFMLJoystick {
    fn parse_joystick_info(id: u32, pads: &Vec<JoystickState>) -> (out: Self)
        requires
            id < pads.len(),
        ensures
            out == (SFMLJoystick {
                id,
                vendor: pads[id as int].vendor_id,
                product: pads[id as int].product_id,
            }),
    {
        let info = &pads[id as usize];
        Self { id, vendor: info.vendor_id, product: info.product_id }
    }

    /// The joystick in slot `id` when one is connected there, else the
    /// first connected joystick; nothing when none is connected.
    pub fn new(id: u32, pads: &Vec<JoystickState>) -> (out: Option<Self>)
        ensures
            out == if chosen_slot(id, pads@) < JOYSTICK_COUNT {
                Some(
                    SFMLJoystick {
                        id: chosen_slot(id, pads@) as u32,
                        vendor: pads[chosen_slot(id, pads@)].vendor_id,
                        product: pads[chosen_slot(id, pads@)].product_id,
                    },
                )
            } else {
                None
            },
    {
        if (id as usize) < pads.len() && (id as usize) < JOYSTICK_COUNT && pads[id as usize].connected {
            return Some(Self::parse_joystick_info(id, pads));
        }
        let mut i: u32 = 0;
        while (i as usize) < JOYSTICK_COUNT
            invariant
                i <= JOYSTICK_COUNT,
                !slot_connected(pads@, id as int),
                first_connected(pads@, 0) == first_connected(pads@, i as int),
            decreases JOYSTICK_COUNT - i,
        {
            if (i as usize) < pads.len() && pads[i as usize].connected {
                proof {
                    assert(slot_connected(pads@, i as int));
                    assert(first_connected(pads@, i as int) == i);
                }
                return Some(Self::parse_joystick_info(i, pads));
            }
            i += 1;
        }
        None
    }
}

/// The monitor's state between ticks.
#[derive(Debug)]
pub struct UserInputMonitor {
    prev_keys: PressedKeyMap<KeyCode>,
    mouse_buttons: PressedKeyMap<DeviceButton>,
    last_mouse_pos: Position,
    mouse_stick: GamepadMouseStick,
    joystick: Option<usize>,
    gamepad: Option<GamePad>,
    last_scan: Option<u64>,
    platform: Platform,
}

/// What a [`UserInputMonitor`] stands for.
pub struct MonitorView {
    /// The keys that are held, oldest first.
    pub prev_keys: Seq<KeyCode>,
    /// The mouse buttons that are held, oldest first.
    pub mouse_buttons: Seq<DeviceButton>,
    /// Where the cursor was when it was last known.
    pub last_mouse_pos: Position,
    /// The stick that moves the pointer.
    pub mouse_stick: GamepadMouseStick,
    /// The slot to try first when scanning for a gamepad; nothing when
    /// gamepads are not used.
    pub joystick: Option<usize>,
    /// The gamepad that is bound.
    pub gamepad: Option<GamePadView>,
    /// When slots were last scanned for a gamepad.
    pub last_scan: Option<u64>,
    /// The platform that raw input comes from.
    pub platform: Platform,
}

impl View for UserInputMonitor {
    type V = MonitorView;

    closed spec fn view(&self) -> MonitorView {
        MonitorView {
            prev_keys: self.prev_keys.keys(),
            mouse_buttons: self.mouse_buttons.keys(),
            last_mouse_pos: self.last_mouse_pos,
            mouse_stick: self.mouse_stick,
            joystick: self.joystick,
            gamepad: view_opt(self.gamepad),
            last_scan: self.last_scan,
            platform: self.platform,
        }
    }
}

/// What a gamepad becomes when it is bound: it samples its controls once
/// and forgets the events of that, so that its first events are changes
/// from what it saw at binding.
pub open spec fn seeded(g: GamePadView, pad: &JoystickState) -> GamePadView {
    without_events(updated(g, pad))
}

/// The gamepad that the database describes for the joystick in slot `i`,
/// by what that slot reports of itself.
pub open spec fn slot_lookup(pads: Seq<JoystickState>, i: int, db: Seq<char>, platform: Platform) -> Option<
    GamePadView,
> {
    if 0 <= i < pads.len() && i < JOYSTICK_COUNT {
        lookup(i as u32, pads[i].vendor_id, pads[i].product_id, db, platform)
    } else {
        None
    }
}

/// The gamepad for slot `i` when a joystick is connected there.
pub open spec fn connected_lookup(
    pads: Seq<JoystickState>,
    i: int,
    db: Seq<char>,
    platform: Platform,
) -> Option<GamePadView> {
    if slot_connected(pads, i) {
        slot_lookup(pads, i, db, platform)
    } else {
        None
    }
}

/// The first slot at or after `from` whose connected joystick the database
/// describes, with the gamepad described.
pub open spec fn first_match(pads: Seq<JoystickState>, db: Seq<char>, platform: Platform, from: int) -> Option<
    (int, GamePadView),
>
    decreases JOYSTICK_COUNT - from,
{
    if from < 0 || from >= JOYSTICK_COUNT {
        None
    } else {
        match connected_lookup(pads, from, db, platform) {
            Some(g) => Some((from, g)),
            None => first_match(pads, db, platform, from + 1),
        }
    }
}

/// The result of a scan: the preferred slot when the database describes
/// the joystick connected there, else the first slot of which that holds.
pub open spec fn scan(preferred: usize, pads: Seq<JoystickState>, db: Seq<char>, platform: Platform) -> Option<
    (int, GamePadView),
> {
    match connected_lookup(pads, preferred as int, db, platform) {
        Some(g) => Some((preferred as int, g)),
        None => first_match(pads, db, platform, 0),
    }
}

/// Whether a scan is due at `now`: none was made yet, or the last one is
/// at least `GAMEPAD_POLL_MS` ago.
pub open spec fn scan_due(last_scan: Option<u64>, now: u64) -> bool {
    match last_scan {
        None => true,
        Some(last) => now < last || now - last >= GAMEPAD_POLL_MS,
    }
}

/// What a tick does about the gamepad: the gamepad bound afterwards, the
/// time of the last scan, and the gamepad's events of this tick.
///
/// A bound gamepad whose joystick is connected samples it and hands out
/// its events. One whose joystick is gone is looked up again by what its
/// slot reports now: found, the new gamepad replaces it, seeded and without
/// events; not found, nothing is bound. With nothing bound, a scan is made
/// when one is due, and what it finds is bound, seeded and without events.
/// Where gamepads are not used, nothing is bound.
pub open spec fn gamepad_phase(m: MonitorView, sample: &TickSample, db: Seq<char>) -> (
    Option<GamePadView>,
    Option<u64>,
    Seq<JoystickEventView>,
) {
    let pads = sample.joysticks@;
    match m.joystick {
        None => (None, m.last_scan, Seq::empty()),
        Some(preferred) => match m.gamepad {
            Some(g) => if slot_connected(pads, g.id as int) {
                (
                    Some(without_events(updated(g, &pads[g.id as int]))),
                    m.last_scan,
                    drained(updated(g, &pads[g.id as int])),
                )
            } else {
                match slot_lookup(pads, g.id as int, db, m.platform) {
                    Some(n) => (Some(seeded(n, &pads[g.id as int])), m.last_scan, Seq::empty()),
                    None => (None, m.last_scan, Seq::empty()),
                }
            },
            None => if scan_due(m.last_scan, sample.now_ms) {
                match scan(preferred, pads, db, m.platform) {
                    Some(found) => (
                        Some(seeded(found.1, &pads[found.0])),
                        Some(sample.now_ms),
                        Seq::empty(),
                    ),
                    None => (None, Some(sample.now_ms), Seq::empty()),
                }
            } else {
                (None, m.last_scan, Seq::empty())
            },
        },
    }
}

/// What a tick does: the monitor afterwards, and the pointer events and key
/// events to deliver, in order.
pub open spec fn polled(m: MonitorView, sample: &TickSample, db: Seq<char>) -> (
    MonitorView,
    Seq<DeviceEvent>,
    Seq<KeyboardEventView>,
) {
    let pad = gamepad_phase(m, sample, db);
    let from_pad = gamepad_events_of(pad.2, m.mouse_stick);
    let buttons = mouse_poll(m.mouse_buttons, sample.mouse_buttons@, m.platform);
    let mouse = with_cursor(buttons.1, sample.cursor, m.last_mouse_pos);
    let keys = keyboard_poll(m.prev_keys, sample.keys@);
    (
        MonitorView {
            prev_keys: keys.0,
            mouse_buttons: buttons.0,
            last_mouse_pos: match sample.cursor {
                Some(pos) => pos,
                None => m.last_mouse_pos,
            },
            gamepad: pad.0,
            last_scan: pad.1,
            ..m
        },
        device_batch(from_pad.0, from_pad.1, mouse, keys.1),
        from_pad.1 + keys.1,
    )
}

/// Looks up the joystick of slot `i`.
fn lookup_slot(pads: &Vec<JoystickState>, i: usize, db: &str, platform: Platform) -> (out: Option<GamePad>)
    ensures
        view_opt(out) == slot_lookup(pads@, i as int, db@, platform),
        out is Some ==> out->0.wf(),
{
    if i < pads.len() && i < JOYSTICK_COUNT {
        GamePad::from_gamepad_db(i as u32, pads[i].vendor_id, pads[i].product_id, db, platform)
    } else {
        None
    }
}

/// Looks up the joystick of slot `i` when one is connected there.
fn lookup_connected(pads: &Vec<JoystickState>, i: usize, db: &str, platform: Platform) -> (out: Option<
    GamePad,
>)
    ensures
        view_opt(out) == connected_lookup(pads@, i as int, db@, platform),
        out is Some ==> out->0.wf(),
{
    if i < pads.len() && i < JOYSTICK_COUNT && pads[i].connected {
        lookup_slot(pads, i, db, platform)
    } else {
        None
    }
}

/// Scans the slots for a joystick that the database describes.
fn scan_slots(preferred: usize, pads: &Vec<JoystickState>, db: &str, platform: Platform) -> (out: Option<
    (usize, GamePad),
>)
    ensures
        match out {
            Some(found) => scan(preferred, pads@, db@, platform) == Some((found.0 as int, found.1@))
                && found.1.wf() && found.0 < pads.len(),
            None => scan(preferred, pads@, db@, platform) is None,
        },
{
    match lookup_connected(pads, preferred, db, platform) {
        Some(g) => {
            return Some((preferred, g));
        },
        None => {},
    }
    let mut i: usize = 0;
    while i < JOYSTICK_COUNT
        invariant
            i <= JOYSTICK_COUNT,
            scan(preferred, pads@, db@, platform) == first_match(pads@, db@, platform, i as int),
        decreases JOYSTICK_COUNT - i,
    {
        match lookup_connected(pads, i, db, platform) {
            Some(g) => {
                return Some((i, g));
            },
            None => {},
        }
        i += 1;
    }
    None
}

/// Binds a gamepad that was just found: samples it once and drops the
/// events of that.
fn seed(g: GamePad, pad: &JoystickState) -> (out: GamePad)
    requires
        g.wf(),
    ensures
        out.wf(),
        out@ == seeded(g@, pad),
{
    let mut g = g;
    g.update_state(pad);
    let _ = g.get_events();
    g
}

impl UserInputMonitor {
    /// Well-formedness: no key or button is held twice, and the gamepad
    /// that is bound is well-formed.
    pub closed spec fn wf(&self) -> bool {
        &&& self.prev_keys.wf()
        &&& self.mouse_buttons.wf()
        &&& match self.gamepad {
            Some(g) => g.wf(),
            None => true,
        }
    }

    /// A monitor that holds no key and no button, has seen the cursor at
    /// the origin, and has bound no gamepad. `joystick_id` is the slot to
    /// try first when scanning for a gamepad, or nothing when gamepads are
    /// not used.
    pub fn new(joystick_id: Option<usize>, mouse_stick: GamepadMouseStick, platform: Platform) -> (out: Self)
        ensures
            out.wf(),
            out@ == (MonitorView {
                prev_keys: Seq::empty(),
                mouse_buttons: Seq::empty(),
                last_mouse_pos: Position { x: 0, y: 0 },
                mouse_stick,
                joystick: joystick_id,
                gamepad: None,
                last_scan: None,
                platform,
            }),
    {
        Self {
            prev_keys: PressedKeyMap::new(),
            mouse_buttons: PressedKeyMap::new(),
            last_mouse_pos: Position { x: 0, y: 0 },
            mouse_stick,
            joystick: joystick_id,
            gamepad: None,
            last_scan: None,
            platform,
        }
    }

    /// Takes over the settings for gamepads: whether they are used, which
    /// slot to try first, and which stick moves the pointer.
    pub fn update_config(&mut self, gamepad_enabled: bool, gamepad_id: usize, mouse_stick: GamepadMouseStick)
        requires
            old(self).wf(),
        ensures
            final(self).wf(),
            final(self)@ == (MonitorView {
                joystick: if gamepad_enabled {
                    Some(gamepad_id)
                } else {
                    None
                },
                mouse_stick,
                ..old(self)@
            }),
    {
        if gamepad_enabled {
            self.joystick = Some(gamepad_id);
        } else {
            self.joystick = None;
        }
        self.mouse_stick = mouse_stick;
    }

    /// Whether a gamepad is bound.
    pub fn has_gamepad(&self) -> (out: bool)
        ensures
            out == (self@.gamepad is Some),
    {
        self.gamepad.is_some()
    }

    /// The slot of the gamepad that is bound.
    pub fn gamepad_id(&self) -> (out: Option<u32>)
        ensures
            out == match self@.gamepad {
                Some(g) => Some(g.id),
                None => None,
            },
    {
        match &self.gamepad {
            Some(g) => Some(g.id()),
            None => None,
        }
    }

    fn poll_gamepad(&mut self, sample: &TickSample, db: &str) -> (events: Vec<JoystickEvent>)
        requires
            old(self).wf(),
        ensures
            final(self).wf(),
            final(self)@ == (MonitorView {
                gamepad: gamepad_phase(old(self)@, sample, db@).0,
                last_scan: gamepad_phase(old(self)@, sample, db@).1,
                ..old(self)@
            }),
            view_seq(events@) == gamepad_phase(old(self)@, sample, db@).2,
    {
        let bound = self.gamepad.take();
        let mut events: Vec<JoystickEvent> = Vec::new();
        proof {
            assert(view_seq(events@) =~= Seq::<JoystickEventView>::empty());
        }
        let preferred = match self.joystick {
            Some(p) => p,
            None => {
                return events;
            },
        };
        let pads = &sample.joysticks;
        match bound {
            Some(mut g) => {
                let id = g.id() as usize;
                if id < pads.len() && id < JOYSTICK_COUNT && pads[id].connected {
                    g.update_state(&pads[id]);
                    events = g.get_events();
                    self.gamepad = Some(g);
                } else {
                    match lookup_slot(pads, id, db, self.platform) {
                        Some(n) => {
                            self.gamepad = Some(seed(n, &pads[id]));
                        },
                        None => {},
                    }
                }
            },
            None => {
                let due = match self.last_scan {
                    None => true,
                    Some(last) => sample.now_ms < last || sample.now_ms - last >= GAMEPAD_POLL_MS,
                };
                if due {
                    self.last_scan = Some(sample.now_ms);
                    match scan_slots(preferred, pads, db, self.platform) {
                        Some((at, n)) => {
                            self.gamepad = Some(seed(n, &pads[at]));
                        },
                        None => {},
                    }
                }
            },
        }
        events
    }

    /// Does one tick: compares the sample with what the monitor holds,
    /// brings the monitor up to date and returns the events to deliver.
    /// `db` is the text of the controller database.
    pub fn get_events(&mut self, sample: &TickSample, db: &str) -> (batch: EventBatch)
        requires
            old(self).wf(),
        ensures
            final(self).wf(),
            final(self)@ == polled(old(self)@, sample, db@).0,
            batch.device_events@ == polled(old(self)@, sample, db@).1,
            view_seq(batch.keyboard_events@) == polled(old(self)@, sample, db@).2,
    {
        let joystick_events = self.poll_gamepad(sample, db);
        let (gamepad_device_events, gamepad_keyboard_events) = get_gamepad_events(
            &joystick_events,
            self.mouse_stick,
        );
        let mut raw_mouse_events = get_mouse_events(
            &sample.mouse_buttons,
            &mut self.mouse_buttons,
            self.platform,
        );
        match sample.cursor {
            Some(pos) => {
                if pos != self.last_mouse_pos {
                    raw_mouse_events.push(DeviceEvent::MouseMoved(pos));
                }
                self.last_mouse_pos = pos;
            },
            None => {},
        }
        let raw_keyboard_events = get_keyboard_events(&sample.keys, &mut self.prev_keys);
        let (device_events, keyboard_events) = assemble_batch(
            gamepad_device_events,
            gamepad_keyboard_events,
            raw_mouse_events,
            raw_keyboard_events,
        );
        EventBatch { device_events, keyboard_events }
    }
}

/// Losing the joystick unbinds: when the joystick of the bound gamepad is
/// gone and the database has nothing for what its slot reports now, the
/// tick leaves no gamepad bound and delivers no event of a gamepad.
pub proof fn lemma_disconnect_unbinds(m: MonitorView, sample: &TickSample, db: Seq<char>)
    requires
        m.joystick is Some,
        m.gamepad is Some,
        !slot_connected(sample.joysticks@, m.gamepad->0.id as int),
        slot_lookup(sample.joysticks@, m.gamepad->0.id as int, db, m.platform) is None,
    ensures
        polled(m, sample, db).0.gamepad is None,
        gamepad_phase(m, sample, db).2 == Seq::<JoystickEventView>::empty(),
        polled(m, sample, db).2 == keyboard_poll(m.prev_keys, sample.keys@).1,
{
    let keys = keyboard_poll(m.prev_keys, sample.keys@).1;
    assert(Seq::<KeyboardEventView>::empty() + keys =~= keys);
}

/// Binding is silent: a tick that binds a gamepad, whether in place of one
/// whose joystick was gone or after a scan, delivers no event of a
/// gamepad, and the gamepad that it binds has sampled its joystick once
/// and holds no event.
pub proof fn lemma_binding_is_silent(m: MonitorView, sample: &TickSample, db: Seq<char>)
    requires
        m.gamepad is None || !slot_connected(sample.joysticks@, m.gamepad->0.id as int),
        polled(m, sample, db).0.gamepad is Some,
    ensures
        gamepad_phase(m, sample, db).2 == Seq::<JoystickEventView>::empty(),
        polled(m, sample, db).2 == keyboard_poll(m.prev_keys, sample.keys@).1,
        polled(m, sample, db).0.gamepad->0.button_events == Seq::<ButtonEventView>::empty(),
        polled(m, sample, db).0.gamepad->0.axis_events == Seq::<AxisEventView>::empty(),
        exists|n: GamePadView, slot: int|
            0 <= slot < sample.joysticks@.len() && polled(m, sample, db).0.gamepad == Some(
                #[trigger] seeded(n, &sample.joysticks@[slot]),
            ),
{
    let keys = keyboard_poll(m.prev_keys, sample.keys@).1;
    assert(Seq::<KeyboardEventView>::empty() + keys =~= keys);
    let pads = sample.joysticks@;
    match m.gamepad {
        Some(g) => {
            let n = slot_lookup(pads, g.id as int, db, m.platform)->0;
            assert(polled(m, sample, db).0.gamepad == Some(seeded(n, &pads[g.id as int])));
        },
        None => {
            let found = scan(m.joystick->0, pads, db, m.platform)->0;
            lemma_scan_in_range(m.joystick->0, pads, db, m.platform);
            assert(polled(m, sample, db).0.gamepad == Some(seeded(found.1, &pads[found.0])));
        },
    }
}

/// A scan finds only slots that exist.
pub proof fn lemma_scan_in_range(preferred: usize, pads: Seq<JoystickState>, db: Seq<char>, platform: Platform)
    ensures
        match scan(preferred, pads, db, platform) {
            Some(found) => 0 <= found.0 < pads.len(),
            None => true,
        },
{
    lemma_first_match_in_range(pads, db, platform, 0);
}

proof fn lemma_first_match_in_range(pads: Seq<JoystickState>, db: Seq<char>, platform: Platform, from: int)
    requires
        0 <= from,
    ensures
        match first_match(pads, db, platform, from) {
            Some(found) => from <= found.0 < pads.len(),
            None => true,
        },
    decreases JOYSTICK_COUNT - from,
{
    if from < JOYSTICK_COUNT && connected_lookup(pads, from, db, platform) is None {
        lemma_first_match_in_range(pads, db, platform, from + 1);
    }
}

} // verus!
