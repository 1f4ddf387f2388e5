//! The input event taxonomy and the key-name formatter.

use vstd::prelude::*;
use crate::util::{kebab_seq, push_char, to_kebab_case};

verus! {

/// Every distinguishable input event: plain runes, control combinations,
/// navigation and function keys with their modifiers, the `Alt`/`CtrlAlt`
/// wrappers (which carry a character), the decoder failure sentinels
/// `Invalid` and `Fatal`, and the mouse action kinds.
#[derive(Clone, Copy, Debug, PartialEq, Eq, Structural)]
pub enum EventType {
    Rune,
    CtrlA,
    CtrlB,
    CtrlC,
    CtrlD,
    CtrlE,
    CtrlF,
    CtrlG,
    CtrlH,
    Tab,
    CtrlJ,
    CtrlK,
    CtrlL,
    CtrlM,
    CtrlN,
    CtrlO,
    CtrlP,
    CtrlQ,
    CtrlR,
    CtrlS,
    CtrlT,
    CtrlU,
    CtrlV,
    CtrlW,
    CtrlX,
    CtrlY,
    CtrlZ,
    Esc,
    CtrlSpace,
    CtrlDel,
    CtrlBackslash,
    CtrlCaret,
    CtrlSlash,
    CtrlRightbracket,
    ShiftTab,
    Backspace,
    Del,
    PageUp,
    PageDown,
    Up,
    Down,
    Left,
    Right,
    Home,
    End,
    Ins,
    ShiftUp,
    ShiftDown,
    ShiftLeft,
    ShiftRight,
    ShiftDelete,
    F1,
    F2,
    F3,
    F4,
    F5,
    F6,
    F7,
    F8,
    F9,
    F10,
    F11,
    F12,
    AltBackspace,
    AltUp,
    AltDown,
    AltLeft,
    AltRight,
    AltShiftUp,
    AltShiftDown,
    AltShiftLeft,
    AltShiftRight,
    Alt,
    CtrlAlt,
    Invalid,
    Fatal,
    Mouse,
    DoubleClick,
    LeftClick,
    RightClick,
    ScrollUp,
    ScrollDown,
    ShiftLeftClick,
    ShiftRightClick,
    ShiftScrollUp,
    ShiftScrollDown,
}

/// A mouse action's payload: surface coordinates, scroll magnitude, which
/// button and phase, whether this press closed a double-click pair, and the
/// shift modifier.
#[derive(Clone, Copy, Debug, PartialEq, Eq, Structural)]
pub struct MouseEvent {
    pub y: isize,
    pub x: isize,
    pub s: isize,
    pub left: bool,
    pub down: bool,
    pub double: bool,
    pub shift: bool,
}

/// One decoded input event. The character is meaningful only for the
/// `Rune`, `Alt` and `CtrlAlt` kinds; the mouse payload is present exactly
/// when the kind is a mouse kind.
#[derive(Clone, Copy, Debug, PartialEq, Eq, Structural)]
pub struct Event {
    pub typ: EventType,
    pub character: char,
    pub mouse_event: Option<MouseEvent>,
}

/// True for the kinds that carry a mouse payload.
pub open spec fn is_mouse_kind(t: EventType) -> bool {
    match t {
        EventType::Mouse
        | EventType::DoubleClick
        | EventType::LeftClick
        | EventType::RightClick
        | EventType::ScrollUp
        | EventType::ScrollDown
        | EventType::ShiftLeftClick
        | EventType::ShiftRightClick
        | EventType::ShiftScrollUp
        | EventType::ShiftScrollDown => true,
        _ => false,
    }
}

/// A well-formed event carries a mouse payload exactly when its kind is a
/// mouse kind.
pub open spec fn event_wf(e: Event) -> bool {
    e.mouse_event is Some <==> is_mouse_kind(e.typ)
}

/// Wrap a bare kind as an event with no character and no mouse payload.
pub fn as_event(t: EventType) -> (e: Event)
    ensures
        e.typ == t,
        e.character == '\0',
        e.mouse_event is None,
{
    Event { typ: t, character: '\0', mouse_event: None }
}

/// The projection of an event used when matching against configured
/// keybindings: the kind and character are kept, the mouse payload is
/// stripped.
pub open spec fn spec_comparable(e: Event) -> Event {
    Event { typ: e.typ, character: e.character, mouse_event: None }
}

/// Strip the mouse payload so two events compare by kind and character
/// alone.
pub fn comparable(e: Event) -> (r: Event)
    ensures
        r == spec_comparable(e),
{
    Event { typ: e.typ, character: e.character, mouse_event: None }
}

/// Two events with the same kind and the same character have equal
/// comparable projections, whatever their mouse payloads were.
pub proof fn lemma_comparable_ignores_mouse(e1: Event, e2: Event)
    requires
        e1.typ == e2.typ,
        e1.character == e2.character,
    ensures
        spec_comparable(e1) == spec_comparable(e2),
{
}

/// The CamelCase tag of each kind, as it appears in configuration and
/// diagnostics before kebab-case formatting.
pub open spec fn spec_tag_name(t: EventType) -> Seq<char> {
    match t {
        EventType::Rune => "Rune"@,
        EventType::CtrlA => "CtrlA"@,
        EventType::CtrlB => "CtrlB"@,
        EventType::CtrlC => "CtrlC"@,
        EventType::CtrlD => "CtrlD"@,
        EventType::CtrlE => "CtrlE"@,
        EventType::CtrlF => "CtrlF"@,
        EventType::CtrlG => "CtrlG"@,
        EventType::CtrlH => "CtrlH"@,
        EventType::Tab => "Tab"@,
        EventType::CtrlJ => "CtrlJ"@,
        EventType::CtrlK => "CtrlK"@,
        EventType::CtrlL => "CtrlL"@,
        EventType::CtrlM => "CtrlM"@,
        EventType::CtrlN => "CtrlN"@,
        EventType::CtrlO => "CtrlO"@,
        EventType::CtrlP => "CtrlP"@,
        EventType::CtrlQ => "CtrlQ"@,
        EventType::CtrlR => "CtrlR"@,
        EventType::CtrlS => "CtrlS"@,
        EventType::CtrlT => "CtrlT"@,
        EventType::CtrlU => "CtrlU"@,
        EventType::CtrlV => "CtrlV"@,
        EventType::CtrlW => "CtrlW"@,
        EventType::CtrlX => "CtrlX"@,
        EventType::CtrlY => "CtrlY"@,
        EventType::CtrlZ => "CtrlZ"@,
        EventType::Esc => "Esc"@,
        EventType::CtrlSpace => "CtrlSpace"@,
        EventType::CtrlDel => "CtrlDel"@,
        EventType::CtrlBackslash => "CtrlBackslash"@,
        EventType::CtrlCaret => "CtrlCaret"@,
        EventType::CtrlSlash => "CtrlSlash"@,
        EventType::CtrlRightbracket => "CtrlRightbracket"@,
        EventType::ShiftTab => "ShiftTab"@,
        EventType::Backspace => "Backspace"@,
        EventType::Del => "Del"@,
        EventType::PageUp => "PageUp"@,
        EventType::PageDown => "PageDown"@,
        EventType::Up => "Up"@,
        EventType::Down => "Down"@,
        EventType::Left => "Left"@,
        EventType::Right => "Right"@,
        EventType::Home => "Home"@,
        EventType::End => "End"@,
        EventType::Ins => "Ins"@,
        EventType::ShiftUp => "ShiftUp"@,
        EventType::ShiftDown => "ShiftDown"@,
        EventType::ShiftLeft => "ShiftLeft"@,
        EventType::ShiftRight => "ShiftRight"@,
        EventType::ShiftDelete => "ShiftDelete"@,
        EventType::F1 => "F1"@,
        EventType::F2 => "F2"@,
        EventType::F3 => "F3"@,
        EventType::F4 => "F4"@,
        EventType::F5 => "F5"@,
        EventType::F6 => "F6"@,
        EventType::F7 => "F7"@,
        EventType::F8 => "F8"@,
        EventType::F9 => "F9"@,
        EventType::F10 => "F10"@,
        EventType::F11 => "F11"@,
        EventType::F12 => "F12"@,
        EventType::AltBackspace => "AltBackspace"@,
        EventType::AltUp => "AltUp"@,
        EventType::AltDown => "AltDown"@,
        EventType::AltLeft => "AltLeft"@,
        EventType::AltRight => "AltRight"@,
        EventType::AltShiftUp => "AltShiftUp"@,
        EventType::AltShiftDown => "AltShiftDown"@,
        EventType::AltShiftLeft => "AltShiftLeft"@,
        EventType::AltShiftRight => "AltShiftRight"@,
        EventType::Alt => "Alt"@,
        EventType::CtrlAlt => "CtrlAlt"@,
        EventType::Invalid => "Invalid"@,
        EventType::Fatal => "Fatal"@,
        EventType::Mouse => "Mouse"@,
        EventType::DoubleClick => "DoubleClick"@,
        EventType::LeftClick => "LeftClick"@,
        EventType::RightClick => "RightClick"@,
        EventType::ScrollUp => "ScrollUp"@,
        EventType::ScrollDown => "ScrollDown"@,
        EventType::ShiftLeftClick => "ShiftLeftClick"@,
        EventType::ShiftRightClick => "ShiftRightClick"@,
        EventType::ShiftScrollUp => "ShiftScrollUp"@,
        EventType::ShiftScrollDown => "ShiftScrollDown"@,
    }
}

/// The CamelCase tag of a kind, as a string.
pub fn tag_name(t: EventType) -> (r: String)
    ensures
        r@ == spec_tag_name(t),
{
    match t {
        EventType::Rune => String::from_str("Rune"),
        EventType::CtrlA => String::from_str("CtrlA"),
        EventType::CtrlB => String::from_str("CtrlB"),
        EventType::CtrlC => String::from_str("CtrlC"),
        EventType::CtrlD => String::from_str("CtrlD"),
        EventType::CtrlE => String::from_str("CtrlE"),
        EventType::CtrlF => String::from_str("CtrlF"),
        EventType::CtrlG => String::from_str("CtrlG"),
        EventType::CtrlH => String::from_str("CtrlH"),
        EventType::Tab => String::from_str("Tab"),
        EventType::CtrlJ => String::from_str("CtrlJ"),
        EventType::CtrlK => String::from_str("CtrlK"),
        EventType::CtrlL => String::from_str("CtrlL"),
        EventType::CtrlM => String::from_str("CtrlM"),
        EventType::CtrlN => String::from_str("CtrlN"),
        EventType::CtrlO => String::from_str("CtrlO"),
        EventType::CtrlP => String::from_str("CtrlP"),
        EventType::CtrlQ => String::from_str("CtrlQ"),
        EventType::CtrlR => String::from_str("CtrlR"),
        EventType::CtrlS => String::from_str("CtrlS"),
        EventType::CtrlT => String::from_str("CtrlT"),
        EventType::CtrlU => String::from_str("CtrlU"),
        EventType::CtrlV => String::from_str("CtrlV"),
        EventType::CtrlW => String::from_str("CtrlW"),
        EventType::CtrlX => String::from_str("CtrlX"),
        EventType::CtrlY => String::from_str("CtrlY"),
        EventType::CtrlZ => String::from_str("CtrlZ"),
        EventType::Esc => String::from_str("Esc"),
        EventType::CtrlSpace => String::from_str("CtrlSpace"),
        EventType::CtrlDel => String::from_str("CtrlDel"),
        EventType::CtrlBackslash => String::from_str("CtrlBackslash"),
        EventType::CtrlCaret => String::from_str("CtrlCaret"),
        EventType::CtrlSlash => String::from_str("CtrlSlash"),
        EventType::CtrlRightbracket => String::from_str("CtrlRightbracket"),
        EventType::ShiftTab => String::from_str("ShiftTab"),
        EventType::Backspace => String::from_str("Backspace"),
        EventType::Del => String::from_str("Del"),
        EventType::PageUp => String::from_str("PageUp"),
        EventType::PageDown => String::from_str("PageDown"),
        EventType::Up => String::from_str("Up"),
        EventType::Down => String::from_str("Down"),
        EventType::Left => String::from_str("Left"),
        EventType::Right => String::from_str("Right"),
        EventType::Home => String::from_str("Home"),
        EventType::End => String::from_str("End"),
        EventType::Ins => String::from_str("Ins"),
        EventType::ShiftUp => String::from_str("ShiftUp"),
        EventType::ShiftDown => String::from_str("ShiftDown"),
        EventType::ShiftLeft => String::from_str("ShiftLeft"),
        EventType::ShiftRight => String::from_str("ShiftRight"),
        EventType::ShiftDelete => String::from_str("ShiftDelete"),
        EventType::F1 => String::from_str("F1"),
        EventType::F2 => String::from_str("F2"),
        EventType::F3 => String::from_str("F3"),
        EventType::F4 => String::from_str("F4"),
        EventType::F5 => String::from_str("F5"),
        EventType::F6 => String::from_str("F6"),
        EventType::F7 => String::from_str("F7"),
        EventType::F8 => String::from_str("F8"),
        EventType::F9 => String::from_str("F9"),
        EventType::F10 => String::from_str("F10"),
        EventType::F11 => String::from_str("F11"),
        EventType::F12 => String::from_str("F12"),
        EventType::AltBackspace => String::from_str("AltBackspace"),
        EventType::AltUp => String::from_str("AltUp"),
        EventType::AltDown => String::from_str("AltDown"),
        EventType::AltLeft => String::from_str("AltLeft"),
        EventType::AltRight => String::from_str("AltRight"),
        EventType::AltShiftUp => String::from_str("AltShiftUp"),
        EventType::AltShiftDown => String::from_str("AltShiftDown"),
        EventType::AltShiftLeft => String::from_str("AltShiftLeft"),
        EventType::AltShiftRight => String::from_str("AltShiftRight"),
        EventType::Alt => String::from_str("Alt"),
        EventType::CtrlAlt => String::from_str("CtrlAlt"),
        EventType::Invalid => String::from_str("Invalid"),
        EventType::Fatal => String::from_str("Fatal"),
        EventType::Mouse => String::from_str("Mouse"),
        EventType::DoubleClick => String::from_str("DoubleClick"),
        EventType::LeftClick => String::from_str("LeftClick"),
        EventType::RightClick => String::from_str("RightClick"),
        EventType::ScrollUp => String::from_str("ScrollUp"),
        EventType::ScrollDown => String::from_str("ScrollDown"),
        EventType::ShiftLeftClick => String::from_str("ShiftLeftClick"),
        EventType::ShiftRightClick => String::from_str("ShiftRightClick"),
        EventType::ShiftScrollUp => String::from_str("ShiftScrollUp"),
        EventType::ShiftScrollDown => String::from_str("ShiftScrollDown"),
    }
}

/// The canonical textual name of an event: the literal character for
/// `Rune`, `alt-`/`ctrl-alt-` prefixes for the modifier wrappers, fixed
/// text for the four punctuation control keys, and the lowercased
/// hyphenated tag for everything else.
pub open spec fn spec_keyname(e: Event) -> Seq<char> {
    match e.typ {
        EventType::Rune => seq![e.character],
        EventType::Alt => "alt-"@ + seq![e.character],
        EventType::CtrlAlt => "ctrl-alt-"@ + seq![e.character],
        EventType::CtrlBackslash => "ctrl-\\"@,
        EventType::CtrlRightbracket => "ctrl-]"@,
        EventType::CtrlCaret => "ctrl-^"@,
        EventType::CtrlSlash => "ctrl-/"@,
        _ => kebab_seq(spec_tag_name(e.typ)),
    }
}

/// Format an event's canonical name, used for exact-match comparison
/// against user-configured keybinding strings.
pub fn keyname(e: Event) -> (r: String)
    ensures
        r@ == spec_keyname(e),
{
    match e.typ {
        EventType::Rune => {
            let mut s = String::new();
            push_char(&mut s, e.character);
            proof {
                assert(s@ =~= seq![e.character]);
            }
            s
        },
        EventType::Alt => {
            let mut s = String::from_str("alt-");
            push_char(&mut s, e.character);
            proof {
                assert(s@ =~= "alt-"@ + seq![e.character]);
            }
            s
        },
        EventType::CtrlAlt => {
            let mut s = String::from_str("ctrl-alt-");
            push_char(&mut s, e.character);
            proof {
                assert(s@ =~= "ctrl-alt-"@ + seq![e.character]);
            }
            s
        },
        EventType::CtrlBackslash => String::from_str("ctrl-\\"),
        EventType::CtrlRightbracket => String::from_str("ctrl-]"),
        EventType::CtrlCaret => String::from_str("ctrl-^"),
        EventType::CtrlSlash => String::from_str("ctrl-/"),
        _ => to_kebab_case(tag_name(e.typ)),
    }
}

} // verus!
