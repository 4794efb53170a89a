//! The grammar of one mapping entry of the controller database.
//!
//! An entry is `name:code`. The code holds an indicator that tells the kind
//! of control: `a` an axis, `b` a button, `h` a d-pad direction (written
//! `h0.<bit>`). What stands before the indicator is a prefix; what follows
//! it, up to the next occurrence of the indicator, is the payload, which
//! must be one decimal digit.

use vstd::prelude::*;
use crate::controls::Axis;
use crate::controls::AxisId;
use crate::controls::AxisView;
use crate::controls::Button;
use crate::controls::ButtonControl;
use crate::controls::ButtonControlView;
use crate::controls::ButtonView;
use crate::controls::DPad;
use crate::controls::DPadView;
use crate::text::chars_of;
use crate::text::copy_range;
use crate::text::find_char;
use crate::text::find_sub;
use crate::text::index_of_char;
use crate::text::index_of_sub;
use crate::text::string_from_chars;
use crate::views::view_opt;

verus! {

/// A parsed mapping entry: a control read as a button, or one read as an axis.
#[derive(Debug, Clone, PartialEq)]
pub enum AxisOrButton {
    Button(ButtonControl),
    Axis(Axis),
}

/// What an [`AxisOrButton`] stands for.
pub enum AxisOrButtonView {
    Button(ButtonControlView),
    Axis(AxisView),
}

impl View for AxisOrButton {
    type V = AxisOrButtonView;

    open spec fn view(&self) -> AxisOrButtonView {
        match self {
            AxisOrButton::Button(b) => AxisOrButtonView::Button(b@),
            AxisOrButton::Axis(a) => AxisOrButtonView::Axis(a@),
        }
    }
}

/// The indicator of an axis code.
pub open spec fn axis_indicator() -> Seq<char> {
    seq!['a']
}

/// The indicator of a button code.
pub open spec fn button_indicator() -> Seq<char> {
    seq!['b']
}

/// The indicator of a d-pad code.
pub open spec fn dpad_indicator() -> Seq<char> {
    seq!['h']
}

/// What precedes the payload of a d-pad code.
pub open spec fn dpad_lead() -> Seq<char> {
    seq!['h', '0', '.']
}

/// What stands before the first occurrence of `ind` in `code`; empty when
/// `ind` does not occur.
pub open spec fn split_head(code: Seq<char>, ind: Seq<char>) -> Seq<char> {
    if find_sub(code, ind) < code.len() {
        code.subrange(0, find_sub(code, ind))
    } else {
        Seq::empty()
    }
}

/// What follows the first occurrence of `ind` in `code`.
pub open spec fn split_rest(code: Seq<char>, ind: Seq<char>) -> Seq<char> {
    code.subrange(find_sub(code, ind) + ind.len(), code.len() as int)
}

/// What stands between the first occurrence of `ind` in `code` and the next
/// one (or the end); all of `code` when `ind` does not occur.
pub open spec fn split_payload(code: Seq<char>, ind: Seq<char>) -> Seq<char> {
    if find_sub(code, ind) < code.len() {
        split_rest(code, ind).subrange(0, find_sub(split_rest(code, ind), ind))
    } else {
        code
    }
}

/// The value of a payload: that of its digit when it is exactly one decimal
/// digit.
pub open spec fn payload_digit(p: Seq<char>) -> Option<u32> {
    if p.len() == 1 && '0' <= p[0] && p[0] <= '9' {
        Some((p[0] as u32 - '0' as u32) as u32)
    } else {
        None
    }
}

/// The raw axis that an axis code's digit selects. The digits 6 and 7 name
/// the hat axes, which no continuous axis may use.
pub open spec fn axis_of_digit(d: u32) -> Option<AxisId> {
    if d == 0 {
        Some(AxisId::X)
    } else if d == 1 {
        Some(AxisId::Y)
    } else if d == 2 {
        Some(AxisId::Z)
    } else if d == 3 {
        Some(AxisId::U)
    } else if d == 4 {
        Some(AxisId::V)
    } else if d == 5 {
        Some(AxisId::R)
    } else {
        None
    }
}

/// The hat axis and side that a d-pad code's bit selects: 1 up, 2 right,
/// 4 down, 8 left.
pub open spec fn dpad_of_bit(d: u32) -> Option<(AxisId, bool)> {
    if d == 1 {
        Some((AxisId::PovY, false))
    } else if d == 2 {
        Some((AxisId::PovX, false))
    } else if d == 4 {
        Some((AxisId::PovY, true))
    } else if d == 8 {
        Some((AxisId::PovX, true))
    } else {
        None
    }
}

/// The axis that `code` describes under `name`: its payload's digit selects
/// the raw axis, and the prefix `-` inverts it.
pub open spec fn axis_of(name: Seq<char>, code: Seq<char>) -> Option<AxisView> {
    match payload_digit(split_payload(code, axis_indicator())) {
        Some(d) => match axis_of_digit(d) {
            Some(id) => Some(
                AxisView { id, inverted: split_head(code, axis_indicator()) == seq!['-'], name },
            ),
            None => None,
        },
        None => None,
    }
}

/// The button that `code` describes under `name`: its payload's digit is
/// the raw button index; the prefix is ignored.
pub open spec fn button_of(name: Seq<char>, code: Seq<char>) -> Option<ButtonView> {
    match payload_digit(split_payload(code, button_indicator())) {
        Some(d) => Some(ButtonView { id: d, name }),
        None => None,
    }
}

/// The d-pad direction that `code` describes under `name`: the digit after
/// `h0.` selects the hat axis and side; the prefix is ignored.
pub open spec fn dpad_of(name: Seq<char>, code: Seq<char>) -> Option<DPadView> {
    match payload_digit(split_payload(code, dpad_lead())) {
        Some(d) => match dpad_of_bit(d) {
            Some(pair) => Some(DPadView { axis_id: pair.0, is_negative: pair.1, name }),
            None => None,
        },
        None => None,
    }
}

/// The name of an entry: what stands before its first colon.
pub open spec fn entry_name(token: Seq<char>) -> Seq<char> {
    token.subrange(0, find_char(token, ':'))
}

/// The code of an entry: what follows its first colon.
pub open spec fn entry_code(token: Seq<char>) -> Seq<char> {
    token.subrange(find_char(token, ':') + 1, token.len() as int)
}

/// The control that a code describes under `name`. The kind goes by the
/// first indicator found in the order axis, button, d-pad.
pub open spec fn control_of_code(name: Seq<char>, code: Seq<char>) -> Option<AxisOrButtonView> {
    if code.contains('a') {
        match axis_of(name, code) {
            Some(a) => Some(AxisOrButtonView::Axis(a)),
            None => None,
        }
    } else if code.contains('b') {
        match button_of(name, code) {
            Some(b) => Some(AxisOrButtonView::Button(ButtonControlView::Button(b))),
            None => None,
        }
    } else if code.contains('h') {
        match dpad_of(name, code) {
            Some(d) => Some(AxisOrButtonView::Button(ButtonControlView::DPad(d))),
            None => None,
        }
    } else {
        None
    }
}

/// The control that an entry `name:code` describes; nothing when the entry
/// has no colon or its code is not understood.
pub open spec fn control_of(token: Seq<char>) -> Option<AxisOrButtonView> {
    if token.contains(':') {
        control_of_code(entry_name(token), entry_code(token))
    } else {
        None
    }
}

/// The prefix and the payload of `code` with respect to `ind`.
fn split_code(code: &[char], ind: &[char]) -> (out: (Vec<char>, Vec<char>))
    requires
        ind@.len() > 0,
    ensures
        out.0@ == split_head(code@, ind@),
        out.1@ == split_payload(code@, ind@),
{
    let at = index_of_sub(code, ind);
    if at < code.len() {
        let head = copy_range(code, 0, at);
        let rest = copy_range(code, at + ind.len(), code.len());
        let next = index_of_sub(rest.as_slice(), ind);
        let payload = copy_range(rest.as_slice(), 0, next);
        (head, payload)
    } else {
        let payload = copy_range(code, 0, code.len());
        proof {
            assert(code@.subrange(0, code@.len() as int) =~= code@);
        }
        (Vec::new(), payload)
    }
}

/// The value of a payload that is exactly one decimal digit.
fn digit_of_payload(p: &[char]) -> (out: Option<u32>)
    ensures
        out == payload_digit(p@),
{
    if p.len() == 1 && '0' <= p[0] && p[0] <= '9' {
        Some(p[0] as u32 - '0' as u32)
    } else {
        None
    }
}

fn axis_from_chars(name: &[char], code: &[char]) -> (out: Option<Axis>)
    ensures
        view_opt(out) == axis_of(name@, code@),
{
    let ind: Vec<char> = vec!['a'];
    let (sign, payload) = split_code(code, ind.as_slice());
    let inverted = sign.len() == 1 && sign[0] == '-';
    proof {
        assert(inverted == (sign@ == seq!['-'])) by {
            if inverted {
                assert(sign@ =~= seq!['-']);
            } else if sign@ == seq!['-'] {
                assert(sign@.len() == 1 && sign@[0] == '-');
            }
        }
        assert(ind@ =~= axis_indicator());
    }
    match digit_of_payload(payload.as_slice()) {
        Some(digit) => {
            let axis = if digit == 0 {
                Some(AxisId::X)
            } else if digit == 1 {
                Some(AxisId::Y)
            } else if digit == 2 {
                Some(AxisId::Z)
            } else if digit == 3 {
                Some(AxisId::U)
            } else if digit == 4 {
                Some(AxisId::V)
            } else if digit == 5 {
                Some(AxisId::R)
            } else {
                None
            };
            match axis {
                Some(axis) => Some(Axis::new(axis, inverted, string_from_chars(name))),
                None => None,
            }
        },
        None => None,
    }
}

fn button_from_chars(name: &[char], code: &[char]) -> (out: Option<Button>)
    ensures
        view_opt(out) == button_of(name@, code@),
{
    let ind: Vec<char> = vec!['b'];
    let (_sign, payload) = split_code(code, ind.as_slice());
    proof {
        assert(ind@ =~= button_indicator());
    }
    match digit_of_payload(payload.as_slice()) {
        Some(id) => Some(Button::new(id, string_from_chars(name))),
        None => None,
    }
}

fn dpad_from_chars(name: &[char], code: &[char]) -> (out: Option<DPad>)
    ensures
        view_opt(out) == dpad_of(name@, code@),
{
    let lead: Vec<char> = vec!['h', '0', '.'];
    let (_sign, payload) = split_code(code, lead.as_slice());
    proof {
        assert(lead@ =~= dpad_lead());
    }
    match digit_of_payload(payload.as_slice()) {
        Some(bit) => {
            if bit == 1 {
                Some(DPad::new(AxisId::PovY, false, string_from_chars(name)))
            } else if bit == 2 {
                Some(DPad::new(AxisId::PovX, false, string_from_chars(name)))
            } else if bit == 4 {
                Some(DPad::new(AxisId::PovY, true, string_from_chars(name)))
            } else if bit == 8 {
                Some(DPad::new(AxisId::PovX, true, string_from_chars(name)))
            } else {
                None
            }
        },
        None => None,
    }
}

/// Parses an axis code, such as `a2` or `-a2`, into the axis called `name`.
pub fn parse_axis(name: &str, mapping: &str) -> (out: Option<Axis>)
    ensures
        view_opt(out) == axis_of(name@, mapping@),
{
    let name_chars = chars_of(name);
    let code = chars_of(mapping);
    axis_from_chars(name_chars.as_slice(), code.as_slice())
}

/// Parses a button code, such as `b2`, into the button called `name`.
pub fn parse_button(name: &str, mapping: &str) -> (out: Option<Button>)
    ensures
        view_opt(out) == button_of(name@, mapping@),
{
    let name_chars = chars_of(name);
    let code = chars_of(mapping);
    button_from_chars(name_chars.as_slice(), code.as_slice())
}

/// Parses a d-pad code, such as `h0.4`, into the direction called `name`.
pub fn parse_dpad(name: &str, mapping: &str) -> (out: Option<DPad>)
    ensures
        view_opt(out) == dpad_of(name@, mapping@),
{
    let name_chars = chars_of(name);
    let code = chars_of(mapping);
    dpad_from_chars(name_chars.as_slice(), code.as_slice())
}

/// Parses the entry held in `token`.
pub fn control_from_chars(token: &[char]) -> (out: Option<AxisOrButton>)
    ensures
        view_opt(out) == control_of(token@),
{
    let colon = index_of_char(token, ':');
    if colon >= token.len() {
        return None;
    }
    let name = copy_range(token, 0, colon);
    let code = copy_range(token, colon + 1, token.len());
    let name = name.as_slice();
    let code = code.as_slice();
    if index_of_char(code, 'a') < code.len() {
        match axis_from_chars(name, code) {
            Some(axis) => Some(AxisOrButton::Axis(axis)),
            None => None,
        }
    } else if index_of_char(code, 'b') < code.len() {
        match button_from_chars(name, code) {
            Some(button) => Some(AxisOrButton::Button(ButtonControl::Button(button))),
            None => None,
        }
    } else if index_of_char(code, 'h') < code.len() {
        match dpad_from_chars(name, code) {
            Some(dpad) => Some(AxisOrButton::Button(ButtonControl::DPad(dpad))),
            None => None,
        }
    } else {
        None
    }
}

/// Parses one mapping entry `name:code` into the control that it describes.
pub fn parse_axis_or_button(btn_axis_str: &str) -> (out: Option<AxisOrButton>)
    ensures
        view_opt(out) == control_of(btn_axis_str@),
{
    let token = chars_of(btn_axis_str);
    control_from_chars(token.as_slice())
}

} // verus!
