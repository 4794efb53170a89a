//! A bound gamepad: its controls as the controller database describes
//! them, the state last sampled for each, and the events that sampling
//! queued.

use vstd::prelude::*;
use crate::controls::Axis;
use crate::controls::AxisView;
use crate::controls::Axisish;
use crate::controls::ButtonControl;
use crate::controls::ButtonControlView;
use crate::controls::Buttonish;
use crate::controls::JoystickState;
use crate::guid::decode_guid;
use crate::guid::guid_from_chars;
use crate::kinds::axis_type_of;
use crate::kinds::button_type_of;
use crate::kinds::AxisType;
use crate::kinds::AxisTypeView;
use crate::kinds::ButtonType;
use crate::kinds::ButtonTypeView;
use crate::mapping::control_from_chars;
use crate::mapping::control_of;
use crate::mapping::AxisOrButton;
use crate::mapping::AxisOrButtonView;
use crate::models::Platform;
use crate::pressed::Key;
use crate::state_map::StateMap;
use crate::text::char_is_alphanumeric;
use crate::text::char_is_whitespace;
use crate::text::chars_of;
use crate::text::equals;
use crate::text::find_sub;
use crate::text::index_of_sub;
use crate::text::is_alphanumeric;
use crate::text::is_whitespace;
use crate::text::lines;
use crate::text::lines_of;
use crate::text::split;
use crate::text::split_on;
use crate::text::string_from_chars;
use crate::text::views;
use crate::views::lemma_view_seq_push;
use crate::views::view_opt;
use crate::views::view_seq;

verus! {

/// A change of a button's state.
#[derive(Debug, Clone, PartialEq)]
pub struct ButtonEvent {
    event_type: ButtonType,
    state: bool,
}

/// What a [`ButtonEvent`] stands for.
pub struct ButtonEventView {
    pub event_type: ButtonTypeView,
    pub state: bool,
}

impl View for ButtonEvent {
    type V = ButtonEventView;

    closed spec fn view(&self) -> ButtonEventView {
        ButtonEventView { event_type: self.event_type@, state: self.state }
    }
}

impl ButtonEvent {
    /// The event that `event_type` is now in `state`.
    pub fn new(event_type: ButtonType, state: bool) -> (out: Self)
        ensures
            out@ == (ButtonEventView { event_type: event_type@, state }),
    {
        Self { event_type, state }
    }

    /// The button that changed.
    pub fn event_type(&self) -> (out: &ButtonType)
        ensures
            out@ == self@.event_type,
    {
        &self.event_type
    }

    /// Whether the button is now pressed.
    pub fn state(&self) -> (out: &bool)
        ensures
            *out == self@.state,
    {
        &self.state
    }

    /// A copy of the event.
    pub fn copy(&self) -> (out: Self)
        ensures
            out@ == self@,
    {
        Self { event_type: self.event_type.clone_key(), state: self.state }
    }
}

/// A change of an axis's position.
#[derive(Debug, Clone, PartialEq)]
pub struct AxisEvent {
    event_type: AxisType,
    state: i32,
}

/// What an [`AxisEvent`] stands for.
pub struct AxisEventView {
    pub event_type: AxisTypeView,
    pub state: i32,
}

impl View for AxisEvent {
    type V = AxisEventView;

    closed spec fn view(&self) -> AxisEventView {
        AxisEventView { event_type: self.event_type@, state: self.state }
    }
}

impl AxisEvent {
    /// The event that `event_type` is now at `state`.
    pub fn new(event_type: AxisType, state: i32) -> (out: Self)
        ensures
            out@ == (AxisEventView { event_type: event_type@, state }),
    {
        Self { event_type, state }
    }

    /// The axis that moved.
    pub fn event_type(&self) -> (out: &AxisType)
        ensures
            out@ == self@.event_type,
    {
        &self.event_type
    }

    /// The axis's new position.
    pub fn state(&self) -> (out: &i32)
        ensures
            *out == self@.state,
    {
        &self.state
    }

    /// A copy of the event.
    pub fn copy(&self) -> (out: Self)
        ensures
            out@ == self@,
    {
        Self { event_type: self.event_type.clone_key(), state: self.state }
    }
}

/// An event of a gamepad.
#[derive(Debug, Clone, PartialEq)]
pub enum JoystickEvent {
    Button(ButtonEvent),
    Axis(AxisEvent),
}

/// What a [`JoystickEvent`] stands for.
pub enum JoystickEventView {
    Button(ButtonEventView),
    Axis(AxisEventView),
}

impl View for JoystickEvent {
    type V = JoystickEventView;

    open spec fn view(&self) -> JoystickEventView {
        match self {
            JoystickEvent::Button(e) => JoystickEventView::Button(e@),
            JoystickEvent::Axis(e) => JoystickEventView::Axis(e@),
        }
    }
}

/// A gamepad: who it is, its controls, the state last sampled for each
/// control's type, and the events not yet handed out.
#[derive(Debug)]
pub struct GamePad {
    id: u32,
    name: String,
    vendor_id: u16,
    product_id: u16,
    button_state: StateMap<ButtonType, bool>,
    axis_state: StateMap<AxisType, i32>,
    button_events: Vec<ButtonEvent>,
    axis_events: Vec<AxisEvent>,
    buttons: Vec<ButtonControl>,
    axis: Vec<Axis>,
}

/// What a [`GamePad`] stands for.
pub struct GamePadView {
    pub id: u32,
    pub name: Seq<char>,
    pub vendor_id: u16,
    pub product_id: u16,
    pub button_state: Map<ButtonTypeView, bool>,
    pub axis_state: Map<AxisTypeView, i32>,
    pub button_events: Seq<ButtonEventView>,
    pub axis_events: Seq<AxisEventView>,
    pub buttons: Seq<ButtonControlView>,
    pub axis: Seq<AxisView>,
}

impl View for GamePad {
    type V = GamePadView;

    closed spec fn view(&self) -> GamePadView {
        GamePadView {
            id: self.id,
            name: self.name@,
            vendor_id: self.vendor_id,
            product_id: self.product_id,
            button_state: self.button_state.map(),
            axis_state: self.axis_state.map(),
            button_events: view_seq(self.button_events@),
            axis_events: view_seq(self.axis_events@),
            buttons: view_seq(self.buttons@),
            axis: view_seq(self.axis@),
        }
    }
}

/// A gamepad that has sampled nothing yet.
pub open spec fn fresh_gamepad(
    id: u32,
    name: Seq<char>,
    vendor_id: u16,
    product_id: u16,
    buttons: Seq<ButtonControlView>,
    axis: Seq<AxisView>,
) -> GamePadView {
    GamePadView {
        id,
        name,
        vendor_id,
        product_id,
        button_state: Map::empty(),
        axis_state: Map::empty(),
        button_events: Seq::empty(),
        axis_events: Seq::empty(),
        buttons,
        axis,
    }
}

/// Whether a field of a database line is the platform tag that closes the
/// line's mapping entries.
pub open spec fn is_platform_field(field: Seq<char>) -> bool {
    find_sub(field, "platform"@) < field.len()
}

/// Index of the first platform tag among `fields` at or after `from`, or
/// the number of fields.
pub open spec fn mapping_end(fields: Seq<Seq<char>>, from: int) -> int
    decreases fields.len() - from,
{
    if from < 0 || from >= fields.len() {
        fields.len() as int
    } else if is_platform_field(fields[from]) {
        from
    } else {
        mapping_end(fields, from + 1)
    }
}

/// The axes that the fields from `from` up to `to` describe, in order.
/// A field that describes no control is passed over.
pub open spec fn axes_of(fields: Seq<Seq<char>>, from: int, to: int) -> Seq<AxisView>
    decreases to - from,
{
    if to <= from {
        Seq::empty()
    } else {
        match control_of(fields[to - 1]) {
            Some(AxisOrButtonView::Axis(a)) => axes_of(fields, from, to - 1).push(a),
            _ => axes_of(fields, from, to - 1),
        }
    }
}

/// The buttons and d-pad directions that the fields from `from` up to `to`
/// describe, in order. A field that describes no control is passed over.
pub open spec fn buttons_of(fields: Seq<Seq<char>>, from: int, to: int) -> Seq<ButtonControlView>
    decreases to - from,
{
    if to <= from {
        Seq::empty()
    } else {
        match control_of(fields[to - 1]) {
            Some(AxisOrButtonView::Button(b)) => buttons_of(fields, from, to - 1).push(b),
            _ => buttons_of(fields, from, to - 1),
        }
    }
}

/// The gamepad that a database line describes for the joystick `id` with
/// the given vendor and product: the line's comma-separated fields are a
/// GUID, a display name and mapping entries up to a platform tag. Nothing
/// unless the GUID decodes to that vendor and product.
pub open spec fn gamepad_of_line(id: u32, vendor_id: u32, product_id: u32, line: Seq<char>) -> Option<
    GamePadView,
> {
    let fields = split(line, ',');
    if fields.len() < 2 {
        None
    } else {
        match decode_guid(fields[0]) {
            Some(guid) => if vendor_id == guid.vendor as u32 && product_id == guid.product as u32 {
                Some(
                    fresh_gamepad(
                        id,
                        fields[1],
                        guid.vendor,
                        guid.product,
                        buttons_of(fields, 2, mapping_end(fields, 2)),
                        axes_of(fields, 2, mapping_end(fields, 2)),
                    ),
                )
            } else {
                None
            },
            None => None,
        }
    }
}

/// Whether some character of `line` is white space.
pub open spec fn has_whitespace(line: Seq<char>) -> bool {
    exists|i: int| 0 <= i < line.len() && char_is_whitespace(#[trigger] line[i])
}

/// Whether some character of `line` is a letter or a number.
pub open spec fn has_alphanumeric(line: Seq<char>) -> bool {
    exists|i: int| 0 <= i < line.len() && char_is_alphanumeric(#[trigger] line[i])
}

/// Whether a line ends a platform's section: it is empty, or it holds
/// white space and neither letter nor number.
pub open spec fn ends_section(line: Seq<char>) -> bool {
    line.len() == 0 || (has_whitespace(line) && !has_alphanumeric(line))
}

/// The gamepad found in `lines` from index `from` on. Before the section,
/// lines are passed over until one is the platform's header; inside it the
/// first line that describes the wanted gamepad wins, and a line that ends
/// the section ends the search.
pub open spec fn lookup_from(
    lines: Seq<Seq<char>>,
    header: Seq<char>,
    id: u32,
    vendor_id: u32,
    product_id: u32,
    from: int,
    in_section: bool,
) -> Option<GamePadView>
    decreases lines.len() - from,
{
    if from < 0 || from >= lines.len() {
        None
    } else if !in_section {
        lookup_from(lines, header, id, vendor_id, product_id, from + 1, lines[from] == header)
    } else if ends_section(lines[from]) {
        None
    } else {
        match gamepad_of_line(id, vendor_id, product_id, lines[from]) {
            Some(pad) => Some(pad),
            None => lookup_from(lines, header, id, vendor_id, product_id, from + 1, true),
        }
    }
}

/// The gamepad that the database text describes for the joystick `id` with
/// the given vendor and product, on `platform`.
pub open spec fn lookup(
    id: u32,
    vendor_id: u32,
    product_id: u32,
    db: Seq<char>,
    platform: Platform,
) -> Option<GamePadView> {
    lookup_from(lines(db), platform.spec_db_header(), id, vendor_id, product_id, 0, false)
}

/// One step of sampling buttons: the control's type gets the control's
/// state, and an event is queued when that type had no state or another.
pub open spec fn button_step(
    acc: (Map<ButtonTypeView, bool>, Seq<ButtonEventView>),
    control: ButtonControlView,
    pad: &JoystickState,
) -> (Map<ButtonTypeView, bool>, Seq<ButtonEventView>) {
    let event_type = button_type_of(control.name());
    let state = control.pressed_in(pad);
    (
        acc.0.insert(event_type, state),
        if acc.0.contains_key(event_type) && acc.0[event_type] == state {
            acc.1
        } else {
            acc.1.push(ButtonEventView { event_type, state })
        },
    )
}

/// The button state and queue after sampling the first `n` controls.
pub open spec fn buttons_after(
    controls: Seq<ButtonControlView>,
    pad: &JoystickState,
    start: (Map<ButtonTypeView, bool>, Seq<ButtonEventView>),
    n: nat,
) -> (Map<ButtonTypeView, bool>, Seq<ButtonEventView>)
    decreases n,
{
    if n == 0 {
        start
    } else {
        button_step(buttons_after(controls, pad, start, (n - 1) as nat), controls[n - 1], pad)
    }
}

/// One step of sampling axes: the axis's type gets the axis's position,
/// and an event is queued when that type had no position or another.
pub open spec fn axis_step(
    acc: (Map<AxisTypeView, i32>, Seq<AxisEventView>),
    control: AxisView,
    pad: &JoystickState,
) -> (Map<AxisTypeView, i32>, Seq<AxisEventView>) {
    let event_type = axis_type_of(control.name);
    let state = control.position_in(pad) as i32;
    (
        acc.0.insert(event_type, state),
        if acc.0.contains_key(event_type) && acc.0[event_type] == state {
            acc.1
        } else {
            acc.1.push(AxisEventView { event_type, state })
        },
    )
}

/// The axis state and queue after sampling the first `n` axes.
pub open spec fn axes_after(
    controls: Seq<AxisView>,
    pad: &JoystickState,
    start: (Map<AxisTypeView, i32>, Seq<AxisEventView>),
    n: nat,
) -> (Map<AxisTypeView, i32>, Seq<AxisEventView>)
    decreases n,
{
    if n == 0 {
        start
    } else {
        axis_step(axes_after(controls, pad, start, (n - 1) as nat), controls[n - 1], pad)
    }
}

/// The gamepad after sampling every control once in `pad`.
pub open spec fn updated(g: GamePadView, pad: &JoystickState) -> GamePadView {
    let b = buttons_after(g.buttons, pad, (g.button_state, g.button_events), g.buttons.len());
    let a = axes_after(g.axis, pad, (g.axis_state, g.axis_events), g.axis.len());
    GamePadView { button_state: b.0, button_events: b.1, axis_state: a.0, axis_events: a.1, ..g }
}

/// The queued events in the order in which they are handed out: those of
/// axes first, then those of buttons.
pub open spec fn drained(g: GamePadView) -> Seq<JoystickEventView> {
    g.axis_events.map_values(|e: AxisEventView| JoystickEventView::Axis(e))
        + g.button_events.map_values(|e: ButtonEventView| JoystickEventView::Button(e))
}

/// The gamepad with empty queues.
pub open spec fn without_events(g: GamePadView) -> GamePadView {
    GamePadView { button_events: Seq::empty(), axis_events: Seq::empty(), ..g }
}

/// The rule by which a line ends a section, given what the line holds.
pub fn section_end_rule(is_empty: bool, has_whitespace: bool, has_alphanumeric: bool) -> (out: bool)
    ensures
        out == (is_empty || (has_whitespace && !has_alphanumeric)),
{
    is_empty || (has_whitespace && !has_alphanumeric)
}

/// Whether a line ends a platform's section.
pub fn line_ends_section(line: &[char]) -> (out: bool)
    ensures
        out == ends_section(line@),
{
    let mut whitespace = false;
    let mut alphanumeric = false;
    let mut i: usize = 0;
    while i < line.len()
        invariant
            i <= line.len(),
            whitespace == has_whitespace(line@.subrange(0, i as int)),
            alphanumeric == has_alphanumeric(line@.subrange(0, i as int)),
        decreases line.len() - i,
    {
        let ghost before = line@.subrange(0, i as int);
        let ghost after = line@.subrange(0, i + 1);
        let ws = is_whitespace(line[i]);
        let an = is_alphanumeric(line[i]);
        proof {
            assert(after[i as int] == line@[i as int]);
            assert(has_whitespace(after) == (has_whitespace(before) || ws)) by {
                if has_whitespace(before) {
                    let j = choose|j: int| 0 <= j < before.len() && char_is_whitespace(#[trigger] before[j]);
                    assert(after[j] == before[j]);
                }
                if has_whitespace(after) {
                    let j = choose|j: int| 0 <= j < after.len() && char_is_whitespace(#[trigger] after[j]);
                    if j < i {
                        assert(before[j] == after[j]);
                    }
                }
            }
            assert(has_alphanumeric(after) == (has_alphanumeric(before) || an)) by {
                if has_alphanumeric(before) {
                    let j = choose|j: int| 0 <= j < before.len() && char_is_alphanumeric(#[trigger] before[j]);
                    assert(after[j] == before[j]);
                }
                if has_alphanumeric(after) {
                    let j = choose|j: int| 0 <= j < after.len() && char_is_alphanumeric(#[trigger] after[j]);
                    if j < i {
                        assert(before[j] == after[j]);
                    }
                }
            }
        }
        whitespace = whitespace || ws;
        alphanumeric = alphanumeric || an;
        i += 1;
    }
    proof {
        assert(line@.subrange(0, i as int) =~= line@);
    }
    section_end_rule(line.len() == 0, whitespace, alphanumeric)
}

/// The controls that the mapping entries of a line describe: the fields
/// from the third on, up to a platform tag.
fn controls_of_fields(parts: &Vec<Vec<char>>) -> (out: (Vec<ButtonControl>, Vec<Axis>))
    requires
        parts.len() >= 2,
    ensures
        view_seq(out.0@) == buttons_of(views(parts@), 2, mapping_end(views(parts@), 2)),
        view_seq(out.1@) == axes_of(views(parts@), 2, mapping_end(views(parts@), 2)),
{
    let ghost fields = views(parts@);
    let tag = chars_of("platform");
    let mut axis_vec: Vec<Axis> = Vec::new();
    let mut button_vec: Vec<ButtonControl> = Vec::new();
    let mut i: usize = 2;
    proof {
        assert(view_seq(axis_vec@) =~= axes_of(fields, 2, 2));
        assert(view_seq(button_vec@) =~= buttons_of(fields, 2, 2));
    }
    let mut at_tag = false;
    while i < parts.len() && !at_tag
        invariant
            2 <= i <= parts.len(),
            fields == views(parts@),
            tag@ == "platform"@,
            mapping_end(fields, 2) == mapping_end(fields, i as int),
            view_seq(axis_vec@) == axes_of(fields, 2, i as int),
            view_seq(button_vec@) == buttons_of(fields, 2, i as int),
            at_tag ==> i < parts.len() && is_platform_field(fields[i as int]),
        decreases parts.len() - i + (if at_tag { 0int } else { 1int }),
    {
        let field = parts[i].as_slice();
        proof {
            assert(fields[i as int] == field@);
        }
        if index_of_sub(field, tag.as_slice()) < field.len() {
            at_tag = true;
        } else {
            match control_from_chars(field) {
                Some(AxisOrButton::Axis(a)) => {
                    proof {
                        lemma_view_seq_push(axis_vec@, a);
                    }
                    axis_vec.push(a);
                },
                Some(AxisOrButton::Button(b)) => {
                    proof {
                        lemma_view_seq_push(button_vec@, b);
                    }
                    button_vec.push(b);
                },
                None => {},
            }
            i += 1;
        }
    }
    proof {
        assert(mapping_end(fields, i as int) == i);
    }
    (button_vec, axis_vec)
}

impl GamePad {
    /// Well-formedness: each state map records no type twice.
    pub closed spec fn wf(&self) -> bool {
        self.button_state.wf() && self.axis_state.wf()
    }

    fn new(
        id: u32,
        name: String,
        vendor_id: u16,
        product_id: u16,
        buttons: Vec<ButtonControl>,
        axis: Vec<Axis>,
    ) -> (out: Self)
        ensures
            out.wf(),
            out@ == fresh_gamepad(
                id,
                name@,
                vendor_id,
                product_id,
                view_seq(buttons@),
                view_seq(axis@),
            ),
    {
        let button_state = StateMap::new();
        let axis_state = StateMap::new();
        let button_events: Vec<ButtonEvent> = Vec::new();
        let axis_events: Vec<AxisEvent> = Vec::new();
        proof {
            assert(view_seq(button_events@) =~= Seq::<ButtonEventView>::empty());
            assert(view_seq(axis_events@) =~= Seq::<AxisEventView>::empty());
        }
        Self {
            id,
            name,
            vendor_id,
            product_id,
            buttons,
            axis,
            button_state,
            button_events,
            axis_state,
            axis_events,
        }
    }

    /// The raw joystick that the gamepad is bound to.
    pub fn id(&self) -> (out: u32)
        ensures
            out == self@.id,
    {
        self.id
    }

    /// The display name from the database.
    pub fn name(&self) -> (out: &String)
        ensures
            out@ == self@.name,
    {
        &self.name
    }

    /// The vendor id.
    pub fn vendor_id(&self) -> (out: u16)
        ensures
            out == self@.vendor_id,
    {
        self.vendor_id
    }

    /// The product id.
    pub fn product_id(&self) -> (out: u16)
        ensures
            out == self@.product_id,
    {
        self.product_id
    }

    /// The controls that are read as buttons.
    pub fn buttons(&self) -> (out: &Vec<ButtonControl>)
        ensures
            view_seq(out@) == self@.buttons,
    {
        &self.buttons
    }

    /// The controls that are read as axes.
    pub fn axis(&self) -> (out: &Vec<Axis>)
        ensures
            view_seq(out@) == self@.axis,
    {
        &self.axis
    }

    /// The gamepad that the line held in `line` describes.
    pub fn from_line_chars(sfml_joystick_id: u32, vendor_id: u32, product_id: u32, line: &[char]) -> (out:
        Option<Self>)
        ensures
            view_opt(out) == gamepad_of_line(sfml_joystick_id, vendor_id, product_id, line@),
            out is Some ==> out->0.wf(),
    {
        let parts = split_on(line, ',');
        if parts.len() < 2 {
            return None;
        }
        proof {
            assert(views(parts@)[0] == parts[0]@);
            assert(views(parts@)[1] == parts[1]@);
        }
        match guid_from_chars(parts[0].as_slice()) {
            Some(guid) => {
                if vendor_id == *guid.vendor() as u32 && product_id == *guid.product() as u32 {
                    let (button_vec, axis_vec) = controls_of_fields(&parts);
                    let gamepad = GamePad::new(
                        sfml_joystick_id,
                        string_from_chars(parts[1].as_slice()),
                        *guid.vendor(),
                        *guid.product(),
                        button_vec,
                        axis_vec,
                    );
                    Some(gamepad)
                } else {
                    None
                }
            },
            None => None,
        }
    }

    /// The gamepad that one line of the controller database describes for
    /// the joystick `sfml_joystick_id`, if the line is about the given
    /// vendor and product.
    pub fn from_gamepad_db_line(sfml_joystick_id: u32, vendor_id: u32, product_id: u32, line: &str) -> (out:
        Option<Self>)
        ensures
            view_opt(out) == gamepad_of_line(sfml_joystick_id, vendor_id, product_id, line@),
            out is Some ==> out->0.wf(),
    {
        let chars = chars_of(line);
        Self::from_line_chars(sfml_joystick_id, vendor_id, product_id, chars.as_slice())
    }

    /// Looks the given vendor and product up in the platform's section of
    /// the controller database. The first line that matches wins.
    pub fn from_gamepad_db(
        sfml_joystick_id: u32,
        vendor_id: u32,
        product_id: u32,
        db_lines: &str,
        platform: Platform,
    ) -> (out: Option<Self>)
        ensures
            view_opt(out) == lookup(sfml_joystick_id, vendor_id, product_id, db_lines@, platform),
            out is Some ==> out->0.wf(),
    {
        let text = chars_of(db_lines);
        let all = lines_of(text.as_slice());
        let header = chars_of(platform.db_header());
        let ghost ls = lines(db_lines@);
        let mut finding_platform = true;
        let mut i: usize = 0;
        while i < all.len()
            invariant
                i <= all.len(),
                views(all@) == ls,
                header@ == platform.spec_db_header(),
                lookup(sfml_joystick_id, vendor_id, product_id, db_lines@, platform) == lookup_from(
                    ls,
                    header@,
                    sfml_joystick_id,
                    vendor_id,
                    product_id,
                    i as int,
                    !finding_platform,
                ),
            decreases all.len() - i,
        {
            let line = all[i].as_slice();
            proof {
                assert(ls[i as int] == line@);
            }
            if finding_platform {
                if equals(line, header.as_slice()) {
                    finding_platform = false;
                }
            } else {
                if line_ends_section(line) {
                    return None;
                }
                match Self::from_line_chars(sfml_joystick_id, vendor_id, product_id, line) {
                    Some(gp) => {
                        return Some(gp);
                    },
                    None => {},
                }
            }
            i += 1;
        }
        None
    }

    fn update_buttons(&mut self, pad: &JoystickState)
        requires
            old(self).wf(),
        ensures
            final(self).wf(),
            final(self)@ == (GamePadView {
                button_state: updated(old(self)@, pad).button_state,
                button_events: updated(old(self)@, pad).button_events,
                ..old(self)@
            }),
    {
        let ghost start = (self@.button_state, self@.button_events);
        let ghost controls = self@.buttons;
        let ghost before = self@;
        let mut i: usize = 0;
        while i < self.buttons.len()
            invariant
                i <= self.buttons.len(),
                self.wf(),
                controls == view_seq(self.buttons@),
                (self@.button_state, self@.button_events) == buttons_after(controls, pad, start, i as nat),
                self@ == (GamePadView {
                    button_state: self@.button_state,
                    button_events: self@.button_events,
                    ..before
                }),
            decreases self.buttons.len() - i,
        {
            let state = self.buttons[i].is_pressed(pad);
            let chars = chars_of(self.buttons[i].name());
            let button_type = ButtonType::from_chars(chars.as_slice());
            proof {
                assert(controls[i as int] == self.buttons[i as int]@);
            }
            let event = ButtonEvent::new(button_type.clone_key(), state);
            let changed = match self.button_state.insert(button_type, state) {
                Some(prev_state) => state != prev_state,
                None => true,
            };
            if changed {
                proof {
                    lemma_view_seq_push(self.button_events@, event);
                }
                self.button_events.push(event);
            }
            i += 1;
        }
    }

    fn update_axis(&mut self, pad: &JoystickState)
        requires
            old(self).wf(),
        ensures
            final(self).wf(),
            final(self)@ == (GamePadView {
                axis_state: updated(old(self)@, pad).axis_state,
                axis_events: updated(old(self)@, pad).axis_events,
                ..old(self)@
            }),
    {
        let ghost start = (self@.axis_state, self@.axis_events);
        let ghost controls = self@.axis;
        let ghost before = self@;
        let mut i: usize = 0;
        while i < self.axis.len()
            invariant
                i <= self.axis.len(),
                self.wf(),
                controls == view_seq(self.axis@),
                (self@.axis_state, self@.axis_events) == axes_after(controls, pad, start, i as nat),
                self@ == (GamePadView {
                    axis_state: self@.axis_state,
                    axis_events: self@.axis_events,
                    ..before
                }),
            decreases self.axis.len() - i,
        {
            let state = self.axis[i].position(pad);
            let chars = chars_of(self.axis[i].name());
            let axis_type = AxisType::from_chars(chars.as_slice());
            proof {
                assert(controls[i as int] == self.axis[i as int]@);
            }
            let event = AxisEvent::new(axis_type.clone_key(), state);
            let changed = match self.axis_state.insert(axis_type, state) {
                Some(prev_state) => state != prev_state,
                None => true,
            };
            if changed {
                proof {
                    lemma_view_seq_push(self.axis_events@, event);
                }
                self.axis_events.push(event);
            }
            i += 1;
        }
    }

    /// Samples every control in `pad`, records the new states and queues an
    /// event for each control's type whose state is new or has changed.
    pub fn update_state(&mut self, pad: &JoystickState)
        requires
            old(self).wf(),
        ensures
            final(self).wf(),
            final(self)@ == updated(old(self)@, pad),
    {
        self.update_buttons(pad);
        self.update_axis(pad);
    }

    /// Hands out the queued events, those of axes before those of buttons,
    /// and empties the queues.
    pub fn get_events(&mut self) -> (out: Vec<JoystickEvent>)
        requires
            old(self).wf(),
        ensures
            final(self).wf(),
            view_seq(out@) == drained(old(self)@),
            final(self)@ == without_events(old(self)@),
    {
        let mut events: Vec<JoystickEvent> = Vec::new();
        let ghost axis_part = old(self)@.axis_events.map_values(|e: AxisEventView| JoystickEventView::Axis(e));
        let ghost button_part = old(self)@.button_events.map_values(
            |e: ButtonEventView| JoystickEventView::Button(e),
        );
        proof {
            assert(view_seq(events@) =~= axis_part.subrange(0, 0));
        }
        let mut i: usize = 0;
        while i < self.axis_events.len()
            invariant
                i <= self.axis_events.len(),
                *self == *old(self),
                axis_part == view_seq(self.axis_events@).map_values(
                    |e: AxisEventView| JoystickEventView::Axis(e),
                ),
                view_seq(events@) == axis_part.subrange(0, i as int),
            decreases self.axis_events.len() - i,
        {
            let event = JoystickEvent::Axis(self.axis_events[i].copy());
            proof {
                lemma_view_seq_push(events@, event);
                assert(view_seq(self.axis_events@)[i as int] == self.axis_events[i as int]@);
                assert(axis_part.subrange(0, i as int).push(event@) =~= axis_part.subrange(0, i + 1));
            }
            events.push(event);
            i += 1;
        }
        proof {
            assert(axis_part.subrange(0, i as int) =~= axis_part);
        }
        proof {
            assert(axis_part + button_part.subrange(0, 0) =~= axis_part);
        }
        let mut j: usize = 0;
        while j < self.button_events.len()
            invariant
                j <= self.button_events.len(),
                *self == *old(self),
                button_part == view_seq(self.button_events@).map_values(
                    |e: ButtonEventView| JoystickEventView::Button(e),
                ),
                view_seq(events@) == axis_part + button_part.subrange(0, j as int),
            decreases self.button_events.len() - j,
        {
            let event = JoystickEvent::Button(self.button_events[j].copy());
            proof {
                lemma_view_seq_push(events@, event);
                assert(view_seq(self.button_events@)[j as int] == self.button_events[j as int]@);
                assert((axis_part + button_part.subrange(0, j as int)).push(event@) =~= axis_part
                    + button_part.subrange(0, j + 1));
            }
            events.push(event);
            j += 1;
        }
        proof {
            assert(button_part.subrange(0, j as int) =~= button_part);
        }
        self.button_events.clear();
        self.axis_events.clear();
        proof {
            assert(view_seq(self.button_events@) =~= Seq::<ButtonEventView>::empty());
            assert(view_seq(self.axis_events@) =~= Seq::<AxisEventView>::empty());
        }
        events
    }
}

/// Whether buttons of one type read alike in `pad`: no two controls that
/// stand for the same button type differ in their state.
pub open spec fn buttons_agree(controls: Seq<ButtonControlView>, pad: &JoystickState) -> bool {
    forall|i: int, j: int|
        0 <= i < j < controls.len() && button_type_of((#[trigger] controls[i]).name()) == button_type_of(
            (#[trigger] controls[j]).name(),
        ) ==> controls[i].pressed_in(pad) == controls[j].pressed_in(pad)
}

/// Whether a state map records, for each control, the state that the
/// control has in `pad`.
pub open spec fn buttons_recorded(
    state: Map<ButtonTypeView, bool>,
    controls: Seq<ButtonControlView>,
    pad: &JoystickState,
    n: int,
) -> bool {
    forall|i: int|
        0 <= i < n && i < controls.len() ==> state.contains_key(
            button_type_of((#[trigger] controls[i]).name()),
        ) && state[button_type_of(controls[i].name())] == controls[i].pressed_in(pad)
}

proof fn lemma_buttons_recorded(
    controls: Seq<ButtonControlView>,
    pad: &JoystickState,
    start: (Map<ButtonTypeView, bool>, Seq<ButtonEventView>),
    n: nat,
)
    requires
        buttons_agree(controls, pad),
        n <= controls.len(),
    ensures
        buttons_recorded(buttons_after(controls, pad, start, n).0, controls, pad, n as int),
    decreases n,
{
    if n > 0 {
        lemma_buttons_recorded(controls, pad, start, (n - 1) as nat);
        let before = buttons_after(controls, pad, start, (n - 1) as nat).0;
        let after = buttons_after(controls, pad, start, n).0;
        let t = button_type_of(controls[n - 1].name());
        assert(after == before.insert(t, controls[n - 1].pressed_in(pad)));
        assert forall|i: int| 0 <= i < n implies after.contains_key(
            button_type_of((#[trigger] controls[i]).name()),
        ) && after[button_type_of(controls[i].name())] == controls[i].pressed_in(pad) by {
            if i < n - 1 {
                if button_type_of(controls[i].name()) == t {
                    assert(controls[i].pressed_in(pad) == controls[n - 1].pressed_in(pad));
                }
            }
        }
    }
}

proof fn lemma_buttons_quiet(
    controls: Seq<ButtonControlView>,
    pad: &JoystickState,
    start: (Map<ButtonTypeView, bool>, Seq<ButtonEventView>),
    n: nat,
)
    requires
        buttons_recorded(start.0, controls, pad, controls.len() as int),
        n <= controls.len(),
    ensures
        buttons_after(controls, pad, start, n) == start,
    decreases n,
{
    if n > 0 {
        lemma_buttons_quiet(controls, pad, start, (n - 1) as nat);
        let t = button_type_of(controls[n - 1].name());
        assert(start.0.insert(t, controls[n - 1].pressed_in(pad)) =~= start.0);
    }
}

/// Whether axes of one type read alike in `pad`: no two controls that
/// stand for the same axis type differ in their position.
pub open spec fn axes_agree(controls: Seq<AxisView>, pad: &JoystickState) -> bool {
    forall|i: int, j: int|
        0 <= i < j < controls.len() && axis_type_of((#[trigger] controls[i]).name) == axis_type_of(
            (#[trigger] controls[j]).name,
        ) ==> controls[i].position_in(pad) as i32 == controls[j].position_in(pad) as i32
}

/// Whether a state map records, for each control, the position that the
/// axis has in `pad`.
pub open spec fn axes_recorded(
    state: Map<AxisTypeView, i32>,
    controls: Seq<AxisView>,
    pad: &JoystickState,
    n: int,
) -> bool {
    forall|i: int|
        0 <= i < n && i < controls.len() ==> state.contains_key(
            axis_type_of((#[trigger] controls[i]).name),
        ) && state[axis_type_of(controls[i].name)] == controls[i].position_in(pad) as i32
}

proof fn lemma_axes_recorded(
    controls: Seq<AxisView>,
    pad: &JoystickState,
    start: (Map<AxisTypeView, i32>, Seq<AxisEventView>),
    n: nat,
)
    requires
        axes_agree(controls, pad),
        n <= controls.len(),
    ensures
        axes_recorded(axes_after(controls, pad, start, n).0, controls, pad, n as int),
    decreases n,
{
    if n > 0 {
        lemma_axes_recorded(controls, pad, start, (n - 1) as nat);
        let before = axes_after(controls, pad, start, (n - 1) as nat).0;
        let after = axes_after(controls, pad, start, n).0;
        let t = axis_type_of(controls[n - 1].name);
        assert(after == before.insert(t, controls[n - 1].position_in(pad) as i32));
        assert forall|i: int| 0 <= i < n implies after.contains_key(
            axis_type_of((#[trigger] controls[i]).name),
        ) && after[axis_type_of(controls[i].name)] == controls[i].position_in(pad) as i32 by {
            if i < n - 1 {
                if axis_type_of(controls[i].name) == t {
                    assert(controls[i].position_in(pad) as i32 == controls[n - 1].position_in(pad) as i32);
                }
            }
        }
    }
}

proof fn lemma_axes_quiet(
    controls: Seq<AxisView>,
    pad: &JoystickState,
    start: (Map<AxisTypeView, i32>, Seq<AxisEventView>),
    n: nat,
)
    requires
        axes_recorded(start.0, controls, pad, controls.len() as int),
        n <= controls.len(),
    ensures
        axes_after(controls, pad, start, n) == start,
    decreases n,
{
    if n > 0 {
        lemma_axes_quiet(controls, pad, start, (n - 1) as nat);
        let t = axis_type_of(controls[n - 1].name);
        assert(start.0.insert(t, controls[n - 1].position_in(pad) as i32) =~= start.0);
    }
}

/// Looking a joystick up twice in the same text gives the same gamepad:
/// two results of one lookup stand for the same descriptor, control lists
/// included.
pub proof fn lemma_lookup_idempotent(
    first: Option<GamePad>,
    second: Option<GamePad>,
    id: u32,
    vendor_id: u32,
    product_id: u32,
    db: Seq<char>,
    platform: Platform,
)
    requires
        view_opt(first) == lookup(id, vendor_id, product_id, db, platform),
        view_opt(second) == lookup(id, vendor_id, product_id, db, platform),
    ensures
        view_opt(first) == view_opt(second),
        first is Some <==> second is Some,
        first is Some ==> first->0@.buttons == second->0@.buttons && first->0@.axis == second->0@.axis,
{
}

/// Sampling an unchanged joystick again changes nothing: once a gamepad
/// has sampled `pad`, sampling `pad` again records the same states and
/// queues no event, provided that controls of one type read alike.
pub proof fn lemma_resample_is_quiet(g: GamePadView, pad: &JoystickState)
    requires
        buttons_agree(g.buttons, pad),
        axes_agree(g.axis, pad),
    ensures
        updated(updated(g, pad), pad) == updated(g, pad),
        updated(without_events(updated(g, pad)), pad) == without_events(updated(g, pad)),
        drained(updated(without_events(updated(g, pad)), pad)) == Seq::<JoystickEventView>::empty(),
{
    let once = updated(g, pad);
    lemma_buttons_recorded(g.buttons, pad, (g.button_state, g.button_events), g.buttons.len());
    lemma_axes_recorded(g.axis, pad, (g.axis_state, g.axis_events), g.axis.len());
    lemma_buttons_quiet(g.buttons, pad, (once.button_state, once.button_events), g.buttons.len());
    lemma_axes_quiet(g.axis, pad, (once.axis_state, once.axis_events), g.axis.len());
    let silent = without_events(once);
    lemma_buttons_quiet(g.buttons, pad, (silent.button_state, silent.button_events), g.buttons.len());
    lemma_axes_quiet(g.axis, pad, (silent.axis_state, silent.axis_events), g.axis.len());
    assert(drained(silent) =~= Seq::<JoystickEventView>::empty());
}

/// Events are handed out once: after the queued events were handed out,
/// handing out again gives nothing, until the gamepad samples again.
pub proof fn lemma_drain_is_single_shot(g: GamePadView)
    ensures
        drained(without_events(g)) == Seq::<JoystickEventView>::empty(),
        without_events(without_events(g)) == without_events(g),
{
    assert(drained(without_events(g)) =~= Seq::<JoystickEventView>::empty());
}

} // verus!
