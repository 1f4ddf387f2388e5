use tui_core::event::{as_event, comparable, keyname, Event, EventType, MouseEvent};
use tui_core::util::to_kebab_case;

#[test]
fn rune_name_is_the_character() {
    let e = Event { typ: EventType::Rune, character: 'a', mouse_event: None };
    assert_eq!(keyname(e), "a");
}

#[test]
fn alt_name_has_the_alt_prefix() {
    let e = Event { typ: EventType::Alt, character: 'j', mouse_event: None };
    assert_eq!(keyname(e), "alt-j");
}

#[test]
fn ctrl_alt_name_has_both_prefixes() {
    let e = Event { typ: EventType::CtrlAlt, character: 'x', mouse_event: None };
    assert_eq!(keyname(e), "ctrl-alt-x");
}

#[test]
fn punctuation_control_names_are_fixed_text() {
    assert_eq!(keyname(as_event(EventType::CtrlBackslash)), "ctrl-\\");
    assert_eq!(keyname(as_event(EventType::CtrlRightbracket)), "ctrl-]");
    assert_eq!(keyname(as_event(EventType::CtrlCaret)), "ctrl-^");
    assert_eq!(keyname(as_event(EventType::CtrlSlash)), "ctrl-/");
}

#[test]
fn tag_names_are_kebab_cased() {
    assert_eq!(keyname(as_event(EventType::PageUp)), "page-up");
    assert_eq!(keyname(as_event(EventType::PageDown)), "page-down");
    assert_eq!(keyname(as_event(EventType::CtrlA)), "ctrl-a");
    assert_eq!(keyname(as_event(EventType::ShiftLeftClick)), "shift-left-click");
    assert_eq!(keyname(as_event(EventType::AltShiftUp)), "alt-shift-up");
    assert_eq!(keyname(as_event(EventType::Up)), "up");
    assert_eq!(keyname(as_event(EventType::F1)), "f1");
    assert_eq!(keyname(as_event(EventType::F12)), "f12");
    assert_eq!(keyname(as_event(EventType::Tab)), "tab");
    assert_eq!(keyname(as_event(EventType::ShiftTab)), "shift-tab");
    assert_eq!(keyname(as_event(EventType::DoubleClick)), "double-click");
    assert_eq!(keyname(as_event(EventType::Esc)), "esc");
}

#[test]
fn keyname_is_deterministic() {
    let e = as_event(EventType::Home);
    assert_eq!(keyname(e), keyname(e));
}

#[test]
fn to_kebab_case_inserts_hyphens_at_case_boundaries() {
    assert_eq!(to_kebab_case(String::from("PageUp")), "page-up");
    assert_eq!(to_kebab_case(String::from("ShiftLeftClick")), "shift-left-click");
    assert_eq!(to_kebab_case(String::from("Tab")), "tab");
    assert_eq!(to_kebab_case(String::from("F1")), "f1");
    assert_eq!(to_kebab_case(String::from("")), "");
    assert_eq!(to_kebab_case(String::from("already-lower")), "already-lower");
}

#[test]
fn as_event_carries_no_payload() {
    let e = as_event(EventType::Del);
    assert_eq!(e.typ, EventType::Del);
    assert_eq!(e.character, '\0');
    assert_eq!(e.mouse_event, None);
}

#[test]
fn comparable_keeps_kind_and_character() {
    let m = MouseEvent { y: 3, x: 4, s: 0, left: true, down: true, double: false, shift: false };
    let e = Event { typ: EventType::LeftClick, character: '\0', mouse_event: Some(m) };
    let c = comparable(e);
    assert_eq!(c.typ, EventType::LeftClick);
    assert_eq!(c.character, '\0');
    assert_eq!(c.mouse_event, None);
}
