//! The input decoder and the mouse click state machine.
//!
//! `classify` turns one raw byte sequence, as read from the terminal, into a
//! structured event: single-byte control codes, escape sequences for
//! navigation and function keys with their modifiers, mouse report packets,
//! and well-formed UTF-8 runes. `FullscreenRenderer::decode` adds the
//! stateful part: a press on a button at the same coordinate within the
//! click threshold of the previous press on that button is promoted to a
//! double click.

use vstd::prelude::*;
use vstd::utf8::char_u32_cast;
use vstd::utf8::codepoint_width_2;
use vstd::utf8::codepoint_width_3;
use vstd::utf8::codepoint_width_4;
use vstd::utf8::decode_first_scalar;
use vstd::utf8::length_of_first_scalar;
use vstd::utf8::valid_first_scalar;
use crate::event::{Event, EventType, MouseEvent, as_event, event_wf, is_mouse_kind, spec_keyname, spec_comparable, spec_tag_name};
use crate::tui::ColorTheme;
use crate::util::{is_ascii_upper, kebab_seq, lower_char};

verus! {

/// The double-click threshold used when a caller does not configure one.
pub const DEFAULT_DOUBLE_CLICK_THRESHOLD_MS: u64 = 500;

/// The last press remembered for one mouse button: when it happened and
/// where.
#[derive(Clone, Copy, Debug, PartialEq, Eq, Structural)]
pub struct ClickRecord {
    pub time_ms: u64,
    pub y: isize,
    pub x: isize,
}

/// The decoder's owned state: the immutable theme it was configured with,
/// whether mouse reporting is on, the double-click threshold, and the last
/// press per tracked button.
#[derive(Clone, Copy, Debug)]
pub struct FullscreenRenderer {
    pub theme: ColorTheme,
    pub mouse: bool,
    pub force_black: bool,
    pub click_threshold_ms: u64,
    pub last_left_click: Option<ClickRecord>,
    pub last_right_click: Option<ClickRecord>,
}

/// An event that is a bare kind: no character, no mouse payload.
pub open spec fn key_event(t: EventType) -> Event {
    Event { typ: t, character: '\0', mouse_event: None }
}

/// The control kind each byte 0x01 through 0x1A maps to: the letter at the
/// byte's alphabetic offset, except 0x09 whose canonical kind is `Tab`.
pub open spec fn ctrl_kind(b: u8) -> EventType
    recommends
        1 <= b <= 26,
{
    match b {
        1u8 => EventType::CtrlA,
        2u8 => EventType::CtrlB,
        3u8 => EventType::CtrlC,
        4u8 => EventType::CtrlD,
        5u8 => EventType::CtrlE,
        6u8 => EventType::CtrlF,
        7u8 => EventType::CtrlG,
        8u8 => EventType::CtrlH,
        9u8 => EventType::Tab,
        10u8 => EventType::CtrlJ,
        11u8 => EventType::CtrlK,
        12u8 => EventType::CtrlL,
        13u8 => EventType::CtrlM,
        14u8 => EventType::CtrlN,
        15u8 => EventType::CtrlO,
        16u8 => EventType::CtrlP,
        17u8 => EventType::CtrlQ,
        18u8 => EventType::CtrlR,
        19u8 => EventType::CtrlS,
        20u8 => EventType::CtrlT,
        21u8 => EventType::CtrlU,
        22u8 => EventType::CtrlV,
        23u8 => EventType::CtrlW,
        24u8 => EventType::CtrlX,
        25u8 => EventType::CtrlY,
        _ => EventType::CtrlZ,
    }
}

/// The lowercase letter at a control byte's alphabetic offset: 0x01 is `a`,
/// 0x1A is `z`.
pub open spec fn ctrl_letter(b: u8) -> char
    recommends
        1 <= b <= 26,
{
    match b {
        1u8 => 'a',
        2u8 => 'b',
        3u8 => 'c',
        4u8 => 'd',
        5u8 => 'e',
        6u8 => 'f',
        7u8 => 'g',
        8u8 => 'h',
        9u8 => 'i',
        10u8 => 'j',
        11u8 => 'k',
        12u8 => 'l',
        13u8 => 'm',
        14u8 => 'n',
        15u8 => 'o',
        16u8 => 'p',
        17u8 => 'q',
        18u8 => 'r',
        19u8 => 's',
        20u8 => 't',
        21u8 => 'u',
        22u8 => 'v',
        23u8 => 'w',
        24u8 => 'x',
        25u8 => 'y',
        _ => 'z',
    }
}

/// What a lone byte decodes to: the fixed lookup for ASCII control codes,
/// a rune for a printable byte, `Invalid` for anything else.
pub open spec fn spec_single_byte(b: u8) -> Event {
    if b == 0 {
        key_event(EventType::CtrlSpace)
    } else if 1 <= b <= 26 {
        key_event(ctrl_kind(b))
    } else if b == 0x1b {
        key_event(EventType::Esc)
    } else if b == 0x1c {
        key_event(EventType::CtrlBackslash)
    } else if b == 0x1d {
        key_event(EventType::CtrlRightbracket)
    } else if b == 0x1e {
        key_event(EventType::CtrlCaret)
    } else if b == 0x1f {
        key_event(EventType::CtrlSlash)
    } else if b == 0x7f {
        key_event(EventType::Backspace)
    } else if 0x20 <= b <= 0x7e {
        Event { typ: EventType::Rune, character: b as char, mouse_event: None }
    } else {
        key_event(EventType::Invalid)
    }
}

/// What an escape byte followed by exactly one more byte decodes to: `Alt`
/// carrying a printable character, `CtrlAlt` carrying the letter of a
/// control code, `AltBackspace` for the delete byte, `Invalid` otherwise.
pub open spec fn spec_escape_pair(b1: u8) -> Event {
    if 0x20 <= b1 <= 0x7e {
        Event { typ: EventType::Alt, character: b1 as char, mouse_event: None }
    } else if 1 <= b1 <= 26 {
        Event { typ: EventType::CtrlAlt, character: ctrl_letter(b1), mouse_event: None }
    } else if b1 == 0x7f {
        key_event(EventType::AltBackspace)
    } else {
        key_event(EventType::Invalid)
    }
}

/// The table of CSI-style escape sequences: `ESC [` followed by the pattern
/// for an arrow, navigation or function key, possibly with a shift, alt or
/// alt-shift modifier. `None` when the bytes match no known pattern.
pub open spec fn csi_kind(s: Seq<u8>) -> Option<EventType> {
    if s.len() == 3 {
        match s[2] {
            0x41u8 => Some(EventType::Up),
            0x42u8 => Some(EventType::Down),
            0x43u8 => Some(EventType::Right),
            0x44u8 => Some(EventType::Left),
            0x48u8 => Some(EventType::Home),
            0x46u8 => Some(EventType::End),
            0x5au8 => Some(EventType::ShiftTab),
            _ => None,
        }
    } else if s.len() == 4 && s[3] == 0x7e {
        match s[2] {
            0x31u8 => Some(EventType::Home),
            0x32u8 => Some(EventType::Ins),
            0x33u8 => Some(EventType::Del),
            0x34u8 => Some(EventType::End),
            0x35u8 => Some(EventType::PageUp),
            0x36u8 => Some(EventType::PageDown),
            0x37u8 => Some(EventType::Home),
            0x38u8 => Some(EventType::End),
            _ => None,
        }
    } else if s.len() == 5 && s[4] == 0x7e {
        if s[2] == 0x31 {
            match s[3] {
                0x31u8 => Some(EventType::F1),
                0x32u8 => Some(EventType::F2),
                0x33u8 => Some(EventType::F3),
                0x34u8 => Some(EventType::F4),
                0x35u8 => Some(EventType::F5),
                0x37u8 => Some(EventType::F6),
                0x38u8 => Some(EventType::F7),
                0x39u8 => Some(EventType::F8),
                _ => None,
            }
        } else if s[2] == 0x32 {
            match s[3] {
                0x30u8 => Some(EventType::F9),
                0x31u8 => Some(EventType::F10),
                0x33u8 => Some(EventType::F11),
                0x34u8 => Some(EventType::F12),
                _ => None,
            }
        } else {
            None
        }
    } else if s.len() == 6 && s[2] == 0x31 && s[3] == 0x3b {
        if s[4] == 0x32 {
            match s[5] {
                0x41u8 => Some(EventType::ShiftUp),
                0x42u8 => Some(EventType::ShiftDown),
                0x43u8 => Some(EventType::ShiftRight),
                0x44u8 => Some(EventType::ShiftLeft),
                _ => None,
            }
        } else if s[4] == 0x33 {
            match s[5] {
                0x41u8 => Some(EventType::AltUp),
                0x42u8 => Some(EventType::AltDown),
                0x43u8 => Some(EventType::AltRight),
                0x44u8 => Some(EventType::AltLeft),
                _ => None,
            }
        } else if s[4] == 0x34 {
            match s[5] {
                0x41u8 => Some(EventType::AltShiftUp),
                0x42u8 => Some(EventType::AltShiftDown),
                0x43u8 => Some(EventType::AltShiftRight),
                0x44u8 => Some(EventType::AltShiftLeft),
                _ => None,
            }
        } else {
            None
        }
    } else if s.len() == 6 && s[2] == 0x33 && s[3] == 0x3b && s[5] == 0x7e {
        match s[4] {
            0x32u8 => Some(EventType::ShiftDelete),
            0x35u8 => Some(EventType::CtrlDel),
            _ => None,
        }
    } else {
        None
    }
}

/// The table of `ESC O` sequences: the four single-letter function keys.
pub open spec fn ss3_kind(s: Seq<u8>) -> Option<EventType> {
    if s.len() == 3 {
        match s[2] {
            0x50u8 => Some(EventType::F1),
            0x51u8 => Some(EventType::F2),
            0x52u8 => Some(EventType::F3),
            0x53u8 => Some(EventType::F4),
            _ => None,
        }
    } else {
        None
    }
}

/// What a six-byte mouse report packet decodes to, from its button byte and
/// its one-based, offset-encoded column and row bytes: a scroll kind, a
/// drag, a left or right press (with the shift variants), a middle press or
/// a release. Packets whose fields are below the encoding offsets are
/// malformed and decode to `Invalid`. A press is produced with
/// `double == false`; promotion is the click state machine's decision.
pub open spec fn spec_mouse_packet(cb: u8, cx: u8, cy: u8) -> Event {
    if cb < 32 || cx < 33 || cy < 33 {
        key_event(EventType::Invalid)
    } else {
        let b = (cb - 32) as u8;
        let y = (cy - 33) as isize;
        let x = (cx - 33) as isize;
        let shift = b & 4 != 0;
        if b & 64 != 0 {
            if b & 3 == 0 {
                Event {
                    typ: if shift {
                        EventType::ShiftScrollUp
                    } else {
                        EventType::ScrollUp
                    },
                    character: '\0',
                    mouse_event: Some(
                        MouseEvent {
                            y,
                            x,
                            s: 1isize,
                            left: false,
                            down: false,
                            double: false,
                            shift,
                        },
                    ),
                }
            } else if b & 3 == 1 {
                Event {
                    typ: if shift {
                        EventType::ShiftScrollDown
                    } else {
                        EventType::ScrollDown
                    },
                    character: '\0',
                    mouse_event: Some(
                        MouseEvent {
                            y,
                            x,
                            s: -1isize,
                            left: false,
                            down: false,
                            double: false,
                            shift,
                        },
                    ),
                }
            } else {
                key_event(EventType::Invalid)
            }
        } else if b & 32 != 0 {
            Event {
                typ: EventType::Mouse,
                character: '\0',
                mouse_event: Some(
                    MouseEvent {
                        y,
                        x,
                        s: 0isize,
                        left: b & 3 == 0,
                        down: true,
                        double: false,
                        shift,
                    },
                ),
            }
        } else if b & 3 == 0 {
            Event {
                typ: if shift {
                    EventType::ShiftLeftClick
                } else {
                    EventType::LeftClick
                },
                character: '\0',
                mouse_event: Some(
                    MouseEvent { y, x, s: 0isize, left: true, down: true, double: false, shift },
                ),
            }
        } else if b & 3 == 2 {
            Event {
                typ: if shift {
                    EventType::ShiftRightClick
                } else {
                    EventType::RightClick
                },
                character: '\0',
                mouse_event: Some(
                    MouseEvent { y, x, s: 0isize, left: false, down: true, double: false, shift },
                ),
            }
        } else if b & 3 == 3 {
            Event {
                typ: EventType::Mouse,
                character: '\0',
                mouse_event: Some(
                    MouseEvent { y, x, s: 0isize, left: false, down: false, double: false, shift },
                ),
            }
        } else {
            Event {
                typ: EventType::Mouse,
                character: '\0',
                mouse_event: Some(
                    MouseEvent { y, x, s: 0isize, left: false, down: true, double: false, shift },
                ),
            }
        }
    }
}

/// The classification table: what one raw byte sequence decodes to, before
/// double-click promotion. Control codes take precedence over escape
/// lookahead; escape lookup is longest-match, falling back to `Alt` only
/// for a lone byte after the escape; an empty read and a truncated mouse
/// packet are the unrecoverable conditions; anything unrecognized is
/// `Invalid`; any other well-formed UTF-8 encoding of one scalar is a rune.
pub open spec fn spec_classify(bytes: Seq<u8>, mouse_enabled: bool) -> Event {
    if bytes.len() == 0 {
        key_event(EventType::Fatal)
    } else if bytes.len() == 1 {
        spec_single_byte(bytes[0])
    } else if bytes[0] == 0x1b {
        if bytes[1] == 0x5b && bytes.len() >= 3 && bytes[2] == 0x4d {
            if !mouse_enabled {
                key_event(EventType::Invalid)
            } else if bytes.len() < 6 {
                key_event(EventType::Fatal)
            } else if bytes.len() == 6 {
                spec_mouse_packet(bytes[3], bytes[4], bytes[5])
            } else {
                key_event(EventType::Invalid)
            }
        } else if bytes.len() == 2 {
            spec_escape_pair(bytes[1])
        } else if bytes[1] == 0x5b {
            match csi_kind(bytes) {
                Some(t) => key_event(t),
                None => key_event(EventType::Invalid),
            }
        } else if bytes[1] == 0x4f {
            match ss3_kind(bytes) {
                Some(t) => key_event(t),
                None => key_event(EventType::Invalid),
            }
        } else {
            key_event(EventType::Invalid)
        }
    } else if valid_first_scalar(bytes) && length_of_first_scalar(bytes) == bytes.len() {
        Event {
            typ: EventType::Rune,
            character: decode_first_scalar(bytes) as char,
            mouse_event: None,
        }
    } else {
        key_event(EventType::Invalid)
    }
}

/// The kinds produced by a press-phase mouse report, the ones the click
/// state machine tracks.
pub open spec fn is_press_kind(t: EventType) -> bool {
    match t {
        EventType::LeftClick
        | EventType::ShiftLeftClick
        | EventType::RightClick
        | EventType::ShiftRightClick => true,
        _ => false,
    }
}

/// True for presses of the left button.
pub open spec fn is_left_kind(t: EventType) -> bool {
    match t {
        EventType::LeftClick | EventType::ShiftLeftClick => true,
        _ => false,
    }
}

/// The remembered press for the given button.
pub open spec fn hist_for(s: FullscreenRenderer, left: bool) -> Option<ClickRecord> {
    if left {
        s.last_left_click
    } else {
        s.last_right_click
    }
}

/// The decoder state with one button's remembered press replaced.
pub open spec fn set_hist(s: FullscreenRenderer, left: bool, h: Option<ClickRecord>) -> FullscreenRenderer {
    FullscreenRenderer {
        theme: s.theme,
        mouse: s.mouse,
        force_black: s.force_black,
        click_threshold_ms: s.click_threshold_ms,
        last_left_click: if left {
            h
        } else {
            s.last_left_click
        },
        last_right_click: if left {
            s.last_right_click
        } else {
            h
        },
    }
}

/// A press at `(y, x)` at time `now` closes a double-click pair exactly
/// when a press on the same button is remembered at the same coordinate and
/// the elapsed time is under the threshold.
pub open spec fn promotable(h: Option<ClickRecord>, y: isize, x: isize, now: u64, thr: u64) -> bool {
    match h {
        Some(rec) => rec.y == y && rec.x == x && rec.time_ms <= now && now - rec.time_ms < thr,
        None => false,
    }
}

/// One step of the decoder: classify the bytes, then run the click state
/// machine. A press that closes a double-click pair is promoted to
/// `DoubleClick` and consumes the remembered press; any other press becomes
/// the remembered press for its button; nothing else touches the state.
pub open spec fn spec_decode(s: FullscreenRenderer, bytes: Seq<u8>, now: u64) -> (Event, FullscreenRenderer) {
    let e = spec_classify(bytes, s.mouse);
    match e.mouse_event {
        Some(me) => {
            if is_press_kind(e.typ) {
                let left = is_left_kind(e.typ);
                if promotable(hist_for(s, left), me.y, me.x, now, s.click_threshold_ms) {
                    (
                        Event {
                            typ: EventType::DoubleClick,
                            character: e.character,
                            mouse_event: Some(
                                MouseEvent {
                                    y: me.y,
                                    x: me.x,
                                    s: me.s,
                                    left: me.left,
                                    down: me.down,
                                    double: true,
                                    shift: me.shift,
                                },
                            ),
                        },
                        set_hist(s, left, None),
                    )
                } else {
                    (
                        e,
                        set_hist(
                            s,
                            left,
                            Some(ClickRecord { time_ms: now, y: me.y, x: me.x }),
                        ),
                    )
                }
            } else {
                (e, s)
            }
        },
        None => (e, s),
    }
}

/// Relies on `char::from_u32`: returns the character with the given scalar
/// value, and `None` exactly for surrogates and values above the Unicode
/// maximum.
#[verifier::external_body]
fn char_from_u32(v: u32) -> (r: Option<char>)
    ensures
        r is Some <==> (v < 0xd800 || (0xe000 <= v && v <= 0x10ffff)),
        r is Some ==> r->0 as u32 == v,
{
    char::from_u32(v)
}

/// The fixed lookup from a control byte to its kind.
fn ctrl_kind_of(b: u8) -> (t: EventType)
    requires
        1 <= b <= 26,
    ensures
        t == ctrl_kind(b),
{
    match b {
        1u8 => EventType::CtrlA,
        2u8 => EventType::CtrlB,
        3u8 => EventType::CtrlC,
        4u8 => EventType::CtrlD,
        5u8 => EventType::CtrlE,
        6u8 => EventType::CtrlF,
        7u8 => EventType::CtrlG,
        8u8 => EventType::CtrlH,
        9u8 => EventType::Tab,
        10u8 => EventType::CtrlJ,
        11u8 => EventType::CtrlK,
        12u8 => EventType::CtrlL,
        13u8 => EventType::CtrlM,
        14u8 => EventType::CtrlN,
        15u8 => EventType::CtrlO,
        16u8 => EventType::CtrlP,
        17u8 => EventType::CtrlQ,
        18u8 => EventType::CtrlR,
        19u8 => EventType::CtrlS,
        20u8 => EventType::CtrlT,
        21u8 => EventType::CtrlU,
        22u8 => EventType::CtrlV,
        23u8 => EventType::CtrlW,
        24u8 => EventType::CtrlX,
        25u8 => EventType::CtrlY,
        _ => EventType::CtrlZ,
    }
}

/// The letter at a control byte's alphabetic offset.
fn ctrl_letter_of(b: u8) -> (c: char)
    requires
        1 <= b <= 26,
    ensures
        c == ctrl_letter(b),
{
    match b {
        1u8 => 'a',
        2u8 => 'b',
        3u8 => 'c',
        4u8 => 'd',
        5u8 => 'e',
        6u8 => 'f',
        7u8 => 'g',
        8u8 => 'h',
        9u8 => 'i',
        10u8 => 'j',
        11u8 => 'k',
        12u8 => 'l',
        13u8 => 'm',
        14u8 => 'n',
        15u8 => 'o',
        16u8 => 'p',
        17u8 => 'q',
        18u8 => 'r',
        19u8 => 's',
        20u8 => 't',
        21u8 => 'u',
        22u8 => 'v',
        23u8 => 'w',
        24u8 => 'x',
        25u8 => 'y',
        _ => 'z',
    }
}

fn single_byte(b: u8) -> (e: Event)
    ensures
        e == spec_single_byte(b),
{
    if b == 0 {
        as_event(EventType::CtrlSpace)
    } else if 1 <= b && b <= 26 {
        as_event(ctrl_kind_of(b))
    } else if b == 0x1b {
        as_event(EventType::Esc)
    } else if b == 0x1c {
        as_event(EventType::CtrlBackslash)
    } else if b == 0x1d {
        as_event(EventType::CtrlRightbracket)
    } else if b == 0x1e {
        as_event(EventType::CtrlCaret)
    } else if b == 0x1f {
        as_event(EventType::CtrlSlash)
    } else if b == 0x7f {
        as_event(EventType::Backspace)
    } else if 0x20 <= b && b <= 0x7e {
        Event { typ: EventType::Rune, character: b as char, mouse_event: None }
    } else {
        as_event(EventType::Invalid)
    }
}

fn escape_pair(b1: u8) -> (e: Event)
    ensures
        e == spec_escape_pair(b1),
{
    if 0x20 <= b1 && b1 <= 0x7e {
        Event { typ: EventType::Alt, character: b1 as char, mouse_event: None }
    } else if 1 <= b1 && b1 <= 26 {
        Event { typ: EventType::CtrlAlt, character: ctrl_letter_of(b1), mouse_event: None }
    } else if b1 == 0x7f {
        as_event(EventType::AltBackspace)
    } else {
        as_event(EventType::Invalid)
    }
}

fn csi_lookup(bytes: &Vec<u8>) -> (r: Option<EventType>)
    requires
        bytes@.len() >= 3,
    ensures
        r == csi_kind(bytes@),
{
    let n = bytes.len();
    if n == 3 {
        match bytes[2] {
            0x41u8 => Some(EventType::Up),
            0x42u8 => Some(EventType::Down),
            0x43u8 => Some(EventType::Right),
            0x44u8 => Some(EventType::Left),
            0x48u8 => Some(EventType::Home),
            0x46u8 => Some(EventType::End),
            0x5au8 => Some(EventType::ShiftTab),
            _ => None,
        }
    } else if n == 4 && bytes[3] == 0x7e {
        match bytes[2] {
            0x31u8 => Some(EventType::Home),
            0x32u8 => Some(EventType::Ins),
            0x33u8 => Some(EventType::Del),
            0x34u8 => Some(EventType::End),
            0x35u8 => Some(EventType::PageUp),
            0x36u8 => Some(EventType::PageDown),
            0x37u8 => Some(EventType::Home),
            0x38u8 => Some(EventType::End),
            _ => None,
        }
    } else if n == 5 && bytes[4] == 0x7e {
        if bytes[2] == 0x31 {
            match bytes[3] {
                0x31u8 => Some(EventType::F1),
                0x32u8 => Some(EventType::F2),
                0x33u8 => Some(EventType::F3),
                0x34u8 => Some(EventType::F4),
                0x35u8 => Some(EventType::F5),
                0x37u8 => Some(EventType::F6),
                0x38u8 => Some(EventType::F7),
                0x39u8 => Some(EventType::F8),
                _ => None,
            }
        } else if bytes[2] == 0x32 {
            match bytes[3] {
                0x30u8 => Some(EventType::F9),
                0x31u8 => Some(EventType::F10),
                0x33u8 => Some(EventType::F11),
                0x34u8 => Some(EventType::F12),
                _ => None,
            }
        } else {
            None
        }
    } else if n == 6 && bytes[2] == 0x31 && bytes[3] == 0x3b {
        if bytes[4] == 0x32 {
            match bytes[5] {
                0x41u8 => Some(EventType::ShiftUp),
                0x42u8 => Some(EventType::ShiftDown),
                0x43u8 => Some(EventType::ShiftRight),
                0x44u8 => Some(EventType::ShiftLeft),
                _ => None,
            }
        } else if bytes[4] == 0x33 {
            match bytes[5] {
                0x41u8 => Some(EventType::AltUp),
                0x42u8 => Some(EventType::AltDown),
                0x43u8 => Some(EventType::AltRight),
                0x44u8 => Some(EventType::AltLeft),
                _ => None,
            }
        } else if bytes[4] == 0x34 {
            match bytes[5] {
                0x41u8 => Some(EventType::AltShiftUp),
                0x42u8 => Some(EventType::AltShiftDown),
                0x43u8 => Some(EventType::AltShiftRight),
                0x44u8 => Some(EventType::AltShiftLeft),
                _ => None,
            }
        } else {
            None
        }
    } else if n == 6 && bytes[2] == 0x33 && bytes[3] == 0x3b && bytes[5] == 0x7e {
        match bytes[4] {
            0x32u8 => Some(EventType::ShiftDelete),
            0x35u8 => Some(EventType::CtrlDel),
            _ => None,
        }
    } else {
        None
    }
}

fn ss3_lookup(bytes: &Vec<u8>) -> (r: Option<EventType>)
    requires
        bytes@.len() >= 3,
    ensures
        r == ss3_kind(bytes@),
{
    if bytes.len() == 3 {
        match bytes[2] {
            0x50u8 => Some(EventType::F1),
            0x51u8 => Some(EventType::F2),
            0x52u8 => Some(EventType::F3),
            0x53u8 => Some(EventType::F4),
            _ => None,
        }
    } else {
        None
    }
}

fn mouse_packet(cb: u8, cx: u8, cy: u8) -> (e: Event)
    ensures
        e == spec_mouse_packet(cb, cx, cy),
{
    if cb < 32 || cx < 33 || cy < 33 {
        return as_event(EventType::Invalid);
    }
    let b = cb - 32;
    let y = (cy - 33) as isize;
    let x = (cx - 33) as isize;
    let shift = b & 4 != 0;
    if b & 64 != 0 {
        if b & 3 == 0 {
            Event {
                typ: if shift {
                    EventType::ShiftScrollUp
                } else {
                    EventType::ScrollUp
                },
                character: '\0',
                mouse_event: Some(
                    MouseEvent { y, x, s: 1isize, left: false, down: false, double: false, shift },
                ),
            }
        } else if b & 3 == 1 {
            Event {
                typ: if shift {
                    EventType::ShiftScrollDown
                } else {
                    EventType::ScrollDown
                },
                character: '\0',
                mouse_event: Some(
                    MouseEvent {
                        y,
                        x,
                        s: -1isize,
                        left: false,
                        down: false,
                        double: false,
                        shift,
                    },
                ),
            }
        } else {
            as_event(EventType::Invalid)
        }
    } else if b & 32 != 0 {
        Event {
            typ: EventType::Mouse,
            character: '\0',
            mouse_event: Some(
                MouseEvent {
                    y,
                    x,
                    s: 0isize,
                    left: b & 3 == 0,
                    down: true,
                    double: false,
                    shift,
                },
            ),
        }
    } else if b & 3 == 0 {
        Event {
            typ: if shift {
                EventType::ShiftLeftClick
            } else {
                EventType::LeftClick
            },
            character: '\0',
            mouse_event: Some(
                MouseEvent { y, x, s: 0isize, left: true, down: true, double: false, shift },
            ),
        }
    } else if b & 3 == 2 {
        Event {
            typ: if shift {
                EventType::ShiftRightClick
            } else {
                EventType::RightClick
            },
            character: '\0',
            mouse_event: Some(
                MouseEvent { y, x, s: 0isize, left: false, down: true, double: false, shift },
            ),
        }
    } else if b & 3 == 3 {
        Event {
            typ: EventType::Mouse,
            character: '\0',
            mouse_event: Some(
                MouseEvent { y, x, s: 0isize, left: false, down: false, double: false, shift },
            ),
        }
    } else {
        Event {
            typ: EventType::Mouse,
            character: '\0',
            mouse_event: Some(
                MouseEvent { y, x, s: 0isize, left: false, down: true, double: false, shift },
            ),
        }
    }
}

/// Classify one raw byte sequence into an event, stateless: the table of
/// `spec_classify`, with no double-click promotion.
pub fn classify(bytes: &Vec<u8>, mouse_enabled: bool) -> (e: Event)
    ensures
        e == spec_classify(bytes@, mouse_enabled),
{
    let n = bytes.len();
    if n == 0 {
        return as_event(EventType::Fatal);
    }
    if n == 1 {
        return single_byte(bytes[0]);
    }
    let b0 = bytes[0];
    if b0 == 0x1b {
        let b1 = bytes[1];
        if b1 == 0x5b && n >= 3 && bytes[2] == 0x4d {
            if !mouse_enabled {
                return as_event(EventType::Invalid);
            }
            if n < 6 {
                return as_event(EventType::Fatal);
            }
            if n == 6 {
                return mouse_packet(bytes[3], bytes[4], bytes[5]);
            }
            return as_event(EventType::Invalid);
        }
        if n == 2 {
            return escape_pair(b1);
        }
        if b1 == 0x5b {
            return match csi_lookup(bytes) {
                Some(t) => as_event(t),
                None => as_event(EventType::Invalid),
            };
        }
        if b1 == 0x4f {
            return match ss3_lookup(bytes) {
                Some(t) => as_event(t),
                None => as_event(EventType::Invalid),
            };
        }
        return as_event(EventType::Invalid);
    }
    if n == 2 {
        let b1 = bytes[1];
        if 0xc2 <= b0 && b0 <= 0xdf && 0x80 <= b1 && b1 <= 0xbf {
            let cp: u32 = (((b0 & 0x1f) as u32) << 6u32) | ((b1 & 0x3f) as u32);
            proof {
                assert(cp == codepoint_width_2(b0, b1));
                assert(cp >= 0x80) by (bit_vector)
                    requires
                        0xc2 <= b0 <= 0xdf,
                        0x80 <= b1 <= 0xbf,
                        cp == (((b0 & 0x1f) as u32) << 6u32) | ((b1 & 0x3f) as u32),
                ;
                assert(cp <= 0x7ff) by (bit_vector)
                    requires
                        cp == (((b0 & 0x1f) as u32) << 6u32) | ((b1 & 0x3f) as u32),
                ;
            }
            match char_from_u32(cp) {
                Some(c) => {
                    proof {
                        assert(valid_first_scalar(bytes@));
                        assert(decode_first_scalar(bytes@) == cp);
                        assert(length_of_first_scalar(bytes@) == 2);
                        assert(c as u32 == cp);
                        char_u32_cast(c, cp);
                    }
                    return Event { typ: EventType::Rune, character: c, mouse_event: None };
                },
                None => {
                    proof {
                        assert(false);
                    }
                    return as_event(EventType::Invalid);
                },
            }
        }
        proof {
            if 0xc0 <= b0 && b0 <= 0xc1 && 0x80 <= b1 && b1 <= 0xbf {
                assert((((b0 & 0x1f) as u32) << 6u32) | ((b1 & 0x3f) as u32) < 0x80)
                    by (bit_vector)
                    requires
                        0xc0 <= b0 <= 0xc1,
                        0x80 <= b1 <= 0xbf,
                ;
                assert(codepoint_width_2(b0, b1) < 0x80);
            }
        }
        return as_event(EventType::Invalid);
    }
    if n == 3 {
        let b1 = bytes[1];
        let b2 = bytes[2];
        if 0xe0 <= b0 && b0 <= 0xef && 0x80 <= b1 && b1 <= 0xbf && 0x80 <= b2 && b2 <= 0xbf {
            let cp: u32 = (((b0 & 0x0f) as u32) << 12u32) | (((b1 & 0x3f) as u32) << 6u32) | ((b2
                & 0x3f) as u32);
            proof {
                assert(cp == codepoint_width_3(b0, b1, b2));
                assert(cp <= 0xffff) by (bit_vector)
                    requires
                        cp == (((b0 & 0x0f) as u32) << 12u32) | (((b1 & 0x3f) as u32) << 6u32) | ((
                        b2 & 0x3f) as u32),
                ;
            }
            if cp >= 0x800 && !(0xd800 <= cp && cp <= 0xdfff) {
                match char_from_u32(cp) {
                    Some(c) => {
                        proof {
                            assert(valid_first_scalar(bytes@));
                            assert(decode_first_scalar(bytes@) == cp);
                            assert(length_of_first_scalar(bytes@) == 3);
                            assert(c as u32 == cp);
                            char_u32_cast(c, cp);
                        }
                        return Event { typ: EventType::Rune, character: c, mouse_event: None };
                    },
                    None => {
                        proof {
                            assert(false);
                        }
                        return as_event(EventType::Invalid);
                    },
                }
            }
            return as_event(EventType::Invalid);
        }
        return as_event(EventType::Invalid);
    }
    if n == 4 {
        let b1 = bytes[1];
        let b2 = bytes[2];
        let b3 = bytes[3];
        if 0xf0 <= b0 && b0 <= 0xf7 && 0x80 <= b1 && b1 <= 0xbf && 0x80 <= b2 && b2 <= 0xbf && 0x80
            <= b3 && b3 <= 0xbf {
            let cp: u32 = (((b0 & 0x07) as u32) << 18u32) | (((b1 & 0x3f) as u32) << 12u32) | (((b2
                & 0x3f) as u32) << 6u32) | ((b3 & 0x3f) as u32);
            proof {
                assert(cp == codepoint_width_4(b0, b1, b2, b3));
            }
            if 0x10000 <= cp && cp <= 0x10ffff {
                match char_from_u32(cp) {
                    Some(c) => {
                        proof {
                            assert(valid_first_scalar(bytes@));
                            assert(decode_first_scalar(bytes@) == cp);
                            assert(length_of_first_scalar(bytes@) == 4);
                            assert(c as u32 == cp);
                            char_u32_cast(c, cp);
                        }
                        return Event { typ: EventType::Rune, character: c, mouse_event: None };
                    },
                    None => {
                        proof {
                            assert(false);
                        }
                        return as_event(EventType::Invalid);
                    },
                }
            }
            return as_event(EventType::Invalid);
        }
        return as_event(EventType::Invalid);
    }
    proof {
        if valid_first_scalar(bytes@) {
            assert(length_of_first_scalar(bytes@) <= 4);
        }
    }
    as_event(EventType::Invalid)
}

impl FullscreenRenderer {
    /// A fresh decoder over the given theme and flags, with the default
    /// double-click threshold and no remembered press.
    pub fn new(theme: ColorTheme, mouse: bool, force_black: bool) -> (r: Self)
        ensures
            r.theme == theme,
            r.mouse == mouse,
            r.force_black == force_black,
            r.click_threshold_ms == DEFAULT_DOUBLE_CLICK_THRESHOLD_MS,
            r.last_left_click is None,
            r.last_right_click is None,
    {
        FullscreenRenderer {
            theme,
            mouse,
            force_black,
            click_threshold_ms: DEFAULT_DOUBLE_CLICK_THRESHOLD_MS,
            last_left_click: None,
            last_right_click: None,
        }
    }

    /// Configure the double-click threshold.
    pub fn set_click_threshold(&mut self, ms: u64)
        ensures
            final(self).click_threshold_ms == ms,
            final(self).theme == old(self).theme,
            final(self).mouse == old(self).mouse,
            final(self).force_black == old(self).force_black,
            final(self).last_left_click == old(self).last_left_click,
            final(self).last_right_click == old(self).last_right_click,
    {
        self.click_threshold_ms = ms;
    }

    /// Turn mouse reporting off and reset the click history.
    pub fn disable_mouse(&mut self)
        ensures
            !final(self).mouse,
            final(self).last_left_click is None,
            final(self).last_right_click is None,
            final(self).theme == old(self).theme,
            final(self).force_black == old(self).force_black,
            final(self).click_threshold_ms == old(self).click_threshold_ms,
    {
        self.mouse = false;
        self.last_left_click = None;
        self.last_right_click = None;
    }

    /// Decode one raw byte sequence, read at `now_ms`, into an event, and
    /// advance the click state machine: exactly the step of `spec_decode`.
    /// Total over any byte input; never panics.
    pub fn decode(&mut self, bytes: &Vec<u8>, now_ms: u64) -> (e: Event)
        ensures
            e == spec_decode(*old(self), bytes@, now_ms).0,
            *final(self) == spec_decode(*old(self), bytes@, now_ms).1,
    {
        let ev = classify(bytes, self.mouse);
        let press_left: Option<bool> = match ev.typ {
            EventType::LeftClick | EventType::ShiftLeftClick => Some(true),
            EventType::RightClick | EventType::ShiftRightClick => Some(false),
            _ => None,
        };
        match (press_left, ev.mouse_event) {
            (Some(left), Some(me)) => {
                let hist = if left {
                    self.last_left_click
                } else {
                    self.last_right_click
                };
                let promote = match hist {
                    Some(rec) => rec.y == me.y && rec.x == me.x && rec.time_ms <= now_ms && now_ms
                        - rec.time_ms < self.click_threshold_ms,
                    None => false,
                };
                if promote {
                    if left {
                        self.last_left_click = None;
                    } else {
                        self.last_right_click = None;
                    }
                    Event {
                        typ: EventType::DoubleClick,
                        character: ev.character,
                        mouse_event: Some(
                            MouseEvent {
                                y: me.y,
                                x: me.x,
                                s: me.s,
                                left: me.left,
                                down: me.down,
                                double: true,
                                shift: me.shift,
                            },
                        ),
                    }
                } else {
                    let rec = ClickRecord { time_ms: now_ms, y: me.y, x: me.x };
                    if left {
                        self.last_left_click = Some(rec);
                    } else {
                        self.last_right_click = Some(rec);
                    }
                    ev
                }
            },
            _ => ev,
        }
    }
}

/// Every event the classifier produces is well formed: it carries a mouse
/// payload exactly when its kind is a mouse kind.
pub proof fn lemma_classify_wf(bytes: Seq<u8>, mouse_enabled: bool)
    ensures
        event_wf(spec_classify(bytes, mouse_enabled)),
{
}

/// Every event the decoder produces is well formed.
pub proof fn lemma_decode_wf(s: FullscreenRenderer, bytes: Seq<u8>, now: u64)
    ensures
        event_wf(spec_decode(s, bytes, now).0),
{
    lemma_classify_wf(bytes, s.mouse);
}

/// The kebab-case form of a tag made of `Ctrl` followed by one uppercase
/// letter: `ctrl-`, then the letter in lowercase.
proof fn lemma_kebab_ctrl_prefix(c: char)
    requires
        is_ascii_upper(c),
    ensures
        kebab_seq(seq!['C', 't', 'r', 'l', c]) == seq!['c', 't', 'r', 'l', '-', lower_char(c)],
{
    let s0 = Seq::<char>::empty();
    let s1 = seq!['C'];
    let s2 = seq!['C', 't'];
    let s3 = seq!['C', 't', 'r'];
    let s4 = seq!['C', 't', 'r', 'l'];
    let s5 = seq!['C', 't', 'r', 'l', c];
    assert(s1.drop_last() =~= s0);
    assert(s2.drop_last() =~= s1);
    assert(s3.drop_last() =~= s2);
    assert(s4.drop_last() =~= s3);
    assert(s5.drop_last() =~= s4);
    assert(kebab_seq(s0) =~= Seq::<char>::empty());
    assert(kebab_seq(s1) =~= seq!['c']);
    assert(kebab_seq(s2) =~= seq!['c', 't']);
    assert(kebab_seq(s3) =~= seq!['c', 't', 'r']);
    assert(kebab_seq(s4) =~= seq!['c', 't', 'r', 'l']);
    assert(kebab_seq(s5) =~= seq!['c', 't', 'r', 'l', '-', lower_char(c)]);
}

/// Decoding a single control byte 0x01 through 0x1A yields the control kind
/// at the byte's alphabetic offset, leaves the decoder state untouched, and
/// the event's canonical name is `ctrl-` followed by the letter at that
/// offset. The one exception is 0x09, whose canonical kind is `Tab` (see
/// `lemma_tab_byte_decode`).
pub proof fn lemma_ctrl_byte_decode(s: FullscreenRenderer, b: u8, now: u64)
    requires
        1 <= b <= 26,
        b != 9,
    ensures
        ({
            let r = spec_decode(s, seq![b], now);
            &&& r.0.typ == ctrl_kind(b)
            &&& r.1 == s
            &&& spec_keyname(r.0) == seq!['c', 't', 'r', 'l', '-', ctrl_letter(b)]
        }),
{
    if b == 1 {
        reveal_strlit("CtrlA");
        assert(spec_tag_name(EventType::CtrlA) =~= seq!['C', 't', 'r', 'l', 'A']);
        lemma_kebab_ctrl_prefix('A');
    } else if b == 2 {
        reveal_strlit("CtrlB");
        assert(spec_tag_name(EventType::CtrlB) =~= seq!['C', 't', 'r', 'l', 'B']);
        lemma_kebab_ctrl_prefix('B');
    } else if b == 3 {
        reveal_strlit("CtrlC");
        assert(spec_tag_name(EventType::CtrlC) =~= seq!['C', 't', 'r', 'l', 'C']);
        lemma_kebab_ctrl_prefix('C');
    } else if b == 4 {
        reveal_strlit("CtrlD");
        assert(spec_tag_name(EventType::CtrlD) =~= seq!['C', 't', 'r', 'l', 'D']);
        lemma_kebab_ctrl_prefix('D');
    } else if b == 5 {
        reveal_strlit("CtrlE");
        assert(spec_tag_name(EventType::CtrlE) =~= seq!['C', 't', 'r', 'l', 'E']);
        lemma_kebab_ctrl_prefix('E');
    } else if b == 6 {
        reveal_strlit("CtrlF");
        assert(spec_tag_name(EventType::CtrlF) =~= seq!['C', 't', 'r', 'l', 'F']);
        lemma_kebab_ctrl_prefix('F');
    } else if b == 7 {
        reveal_strlit("CtrlG");
        assert(spec_tag_name(EventType::CtrlG) =~= seq!['C', 't', 'r', 'l', 'G']);
        lemma_kebab_ctrl_prefix('G');
    } else if b == 8 {
        reveal_strlit("CtrlH");
        assert(spec_tag_name(EventType::CtrlH) =~= seq!['C', 't', 'r', 'l', 'H']);
        lemma_kebab_ctrl_prefix('H');
    } else if b == 10 {
        reveal_strlit("CtrlJ");
        assert(spec_tag_name(EventType::CtrlJ) =~= seq!['C', 't', 'r', 'l', 'J']);
        lemma_kebab_ctrl_prefix('J');
    } else if b == 11 {
        reveal_strlit("CtrlK");
        assert(spec_tag_name(EventType::CtrlK) =~= seq!['C', 't', 'r', 'l', 'K']);
        lemma_kebab_ctrl_prefix('K');
    } else if b == 12 {
        reveal_strlit("CtrlL");
        assert(spec_tag_name(EventType::CtrlL) =~= seq!['C', 't', 'r', 'l', 'L']);
        lemma_kebab_ctrl_prefix('L');
    } else if b == 13 {
        reveal_strlit("CtrlM");
        assert(spec_tag_name(EventType::CtrlM) =~= seq!['C', 't', 'r', 'l', 'M']);
        lemma_kebab_ctrl_prefix('M');
    } else if b == 14 {
        reveal_strlit("CtrlN");
        assert(spec_tag_name(EventType::CtrlN) =~= seq!['C', 't', 'r', 'l', 'N']);
        lemma_kebab_ctrl_prefix('N');
    } else if b == 15 {
        reveal_strlit("CtrlO");
        assert(spec_tag_name(EventType::CtrlO) =~= seq!['C', 't', 'r', 'l', 'O']);
        lemma_kebab_ctrl_prefix('O');
    } else if b == 16 {
        reveal_strlit("CtrlP");
        assert(spec_tag_name(EventType::CtrlP) =~= seq!['C', 't', 'r', 'l', 'P']);
        lemma_kebab_ctrl_prefix('P');
    } else if b == 17 {
        reveal_strlit("CtrlQ");
        assert(spec_tag_name(EventType::CtrlQ) =~= seq!['C', 't', 'r', 'l', 'Q']);
        lemma_kebab_ctrl_prefix('Q');
    } else if b == 18 {
        reveal_strlit("CtrlR");
        assert(spec_tag_name(EventType::CtrlR) =~= seq!['C', 't', 'r', 'l', 'R']);
        lemma_kebab_ctrl_prefix('R');
    } else if b == 19 {
        reveal_strlit("CtrlS");
        assert(spec_tag_name(EventType::CtrlS) =~= seq!['C', 't', 'r', 'l', 'S']);
        lemma_kebab_ctrl_prefix('S');
    } else if b == 20 {
        reveal_strlit("CtrlT");
        assert(spec_tag_name(EventType::CtrlT) =~= seq!['C', 't', 'r', 'l', 'T']);
        lemma_kebab_ctrl_prefix('T');
    } else if b == 21 {
        reveal_strlit("CtrlU");
        assert(spec_tag_name(EventType::CtrlU) =~= seq!['C', 't', 'r', 'l', 'U']);
        lemma_kebab_ctrl_prefix('U');
    } else if b == 22 {
        reveal_strlit("CtrlV");
        assert(spec_tag_name(EventType::CtrlV) =~= seq!['C', 't', 'r', 'l', 'V']);
        lemma_kebab_ctrl_prefix('V');
    } else if b == 23 {
        reveal_strlit("CtrlW");
        assert(spec_tag_name(EventType::CtrlW) =~= seq!['C', 't', 'r', 'l', 'W']);
        lemma_kebab_ctrl_prefix('W');
    } else if b == 24 {
        reveal_strlit("CtrlX");
        assert(spec_tag_name(EventType::CtrlX) =~= seq!['C', 't', 'r', 'l', 'X']);
        lemma_kebab_ctrl_prefix('X');
    } else if b == 25 {
        reveal_strlit("CtrlY");
        assert(spec_tag_name(EventType::CtrlY) =~= seq!['C', 't', 'r', 'l', 'Y']);
        lemma_kebab_ctrl_prefix('Y');
    } else if b == 26 {
        reveal_strlit("CtrlZ");
        assert(spec_tag_name(EventType::CtrlZ) =~= seq!['C', 't', 'r', 'l', 'Z']);
        lemma_kebab_ctrl_prefix('Z');
    }
}

/// Decoding the single byte 0x09 yields `Tab`, whose canonical name is
/// `tab`.
pub proof fn lemma_tab_byte_decode(s: FullscreenRenderer, now: u64)
    ensures
        ({
            let r = spec_decode(s, seq![9u8], now);
            &&& r.0.typ == EventType::Tab
            &&& r.1 == s
            &&& spec_keyname(r.0) == seq!['t', 'a', 'b']
        }),
{
    reveal_strlit("Tab");
    assert(spec_tag_name(EventType::Tab) =~= seq!['T', 'a', 'b']);
    let s0 = Seq::<char>::empty();
    let s1 = seq!['T'];
    let s2 = seq!['T', 'a'];
    let s3 = seq!['T', 'a', 'b'];
    assert(s1.drop_last() =~= s0);
    assert(s2.drop_last() =~= s1);
    assert(s3.drop_last() =~= s2);
    assert(kebab_seq(s0) =~= Seq::<char>::empty());
    assert(kebab_seq(s1) =~= seq!['t']);
    assert(kebab_seq(s2) =~= seq!['t', 'a']);
    assert(kebab_seq(s3) =~= seq!['t', 'a', 'b']);
}

/// For anything but a press-phase mouse report, decoding reads none of the
/// click history and changes none of it: the event, and hence its canonical
/// name, depends on the bytes and the mouse flag alone, whatever was
/// decoded before and whenever the bytes arrive.
pub proof fn lemma_decode_stateless(
    s1: FullscreenRenderer,
    s2: FullscreenRenderer,
    bytes: Seq<u8>,
    n1: u64,
    n2: u64,
)
    requires
        s1.mouse == s2.mouse,
        !is_press_kind(spec_classify(bytes, s1.mouse).typ),
    ensures
        spec_decode(s1, bytes, n1).0 == spec_decode(s2, bytes, n2).0,
        spec_decode(s1, bytes, n1).1 == s1,
        spec_keyname(spec_decode(s1, bytes, n1).0) == spec_keyname(spec_decode(s2, bytes, n2).0),
{
}

/// The double-click pairing rule, over two press-phase packets on the same
/// button arriving at times `t` and `t + d`, with no press remembered for
/// that button beforehand: the first press decodes to the plain click kind
/// and is remembered; the second is promoted to `DoubleClick` exactly when
/// it hits the same coordinate and `d` is under the threshold (the
/// promotion consuming the remembered press), and otherwise decodes to the
/// plain click kind again, however fast it came.
pub proof fn lemma_double_click(
    s: FullscreenRenderer,
    cb: u8,
    cx1: u8,
    cy1: u8,
    cx2: u8,
    cy2: u8,
    t: u64,
    d: u64,
)
    requires
        s.mouse,
        32 <= cb,
        (cb - 32) as u8 & 64 == 0,
        (cb - 32) as u8 & 32 == 0,
        ((cb - 32) as u8 & 3 == 0) || ((cb - 32) as u8 & 3 == 2),
        33 <= cx1,
        33 <= cy1,
        33 <= cx2,
        33 <= cy2,
        hist_for(s, is_left_kind(spec_mouse_packet(cb, cx1, cy1).typ)) is None,
        t + d <= u64::MAX,
    ensures
        ({
            let p1 = seq![0x1bu8, 0x5bu8, 0x4du8, cb, cx1, cy1];
            let p2 = seq![0x1bu8, 0x5bu8, 0x4du8, cb, cx2, cy2];
            let r1 = spec_decode(s, p1, t);
            let r2 = spec_decode(r1.1, p2, (t + d) as u64);
            let left = is_left_kind(r1.0.typ);
            &&& is_press_kind(r1.0.typ)
            &&& r1.0.typ != EventType::DoubleClick
            &&& r1.0.typ == spec_mouse_packet(cb, cx1, cy1).typ
            &&& (cx2 == cx1 && cy2 == cy1 && d < s.click_threshold_ms ==> {
                &&& r2.0.typ == EventType::DoubleClick
                &&& hist_for(r2.1, left) is None
            })
            &&& (!(cx2 == cx1 && cy2 == cy1) || d >= s.click_threshold_ms ==> {
                &&& r2.0.typ == spec_mouse_packet(cb, cx2, cy2).typ
                &&& r2.0.typ != EventType::DoubleClick
            })
        }),
{
    let p1 = seq![0x1bu8, 0x5bu8, 0x4du8, cb, cx1, cy1];
    let p2 = seq![0x1bu8, 0x5bu8, 0x4du8, cb, cx2, cy2];
    assert(p1.len() == 6 && p1[0] == 0x1b && p1[1] == 0x5b && p1[2] == 0x4d && p1[3] == cb
        && p1[4] == cx1 && p1[5] == cy1);
    assert(p2.len() == 6 && p2[0] == 0x1b && p2[1] == 0x5b && p2[2] == 0x4d && p2[3] == cb
        && p2[4] == cx2 && p2[5] == cy2);
    assert(spec_classify(p1, s.mouse) == spec_mouse_packet(cb, cx1, cy1));
    let r1 = spec_decode(s, p1, t);
    assert(r1.1.mouse == s.mouse);
    assert(spec_classify(p2, r1.1.mouse) == spec_mouse_packet(cb, cx2, cy2));
}

/// Two byte sequences that decode to the same kind and character, with
/// whatever mouse payloads, have equal comparable projections: keybinding
/// matching never depends on mouse coordinates.
pub proof fn lemma_comparable_round_trip(
    s1: FullscreenRenderer,
    s2: FullscreenRenderer,
    b1: Seq<u8>,
    b2: Seq<u8>,
    n1: u64,
    n2: u64,
)
    requires
        spec_decode(s1, b1, n1).0.typ == spec_decode(s2, b2, n2).0.typ,
        spec_decode(s1, b1, n1).0.character == spec_decode(s2, b2, n2).0.character,
    ensures
        spec_comparable(spec_decode(s1, b1, n1).0) == spec_comparable(spec_decode(s2, b2, n2).0),
{
}

} // verus!
