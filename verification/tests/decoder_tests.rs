use tui_core::decoder::{FullscreenRenderer, DEFAULT_DOUBLE_CLICK_THRESHOLD_MS};
use tui_core::event::{comparable, keyname, EventType};
use tui_core::tui::ColorTheme;

fn fresh_decoder() -> FullscreenRenderer {
    let theme = ColorTheme::construct(false, &vec![]);
    FullscreenRenderer::new(theme, true, false)
}

fn packet(cb: u8, cx: u8, cy: u8) -> Vec<u8> {
    vec![0x1b, b'[', b'M', cb, cx, cy]
}

#[test]
fn ctrl_bytes_decode_to_ctrl_letters() {
    let mut d = fresh_decoder();
    assert_eq!(d.decode(&vec![0x01], 0).typ, EventType::CtrlA);
    assert_eq!(d.decode(&vec![0x02], 0).typ, EventType::CtrlB);
    assert_eq!(d.decode(&vec![0x07], 0).typ, EventType::CtrlG);
    assert_eq!(d.decode(&vec![0x08], 0).typ, EventType::CtrlH);
    assert_eq!(d.decode(&vec![0x0a], 0).typ, EventType::CtrlJ);
    assert_eq!(d.decode(&vec![0x0d], 0).typ, EventType::CtrlM);
    assert_eq!(d.decode(&vec![0x1a], 0).typ, EventType::CtrlZ);
}

#[test]
fn ctrl_byte_names_follow_alphabetic_offset() {
    let mut d = fresh_decoder();
    assert_eq!(keyname(d.decode(&vec![0x01], 0)), "ctrl-a");
    assert_eq!(keyname(d.decode(&vec![0x05], 0)), "ctrl-e");
    assert_eq!(keyname(d.decode(&vec![0x1a], 0)), "ctrl-z");
}

#[test]
fn tab_byte_decodes_to_tab() {
    let mut d = fresh_decoder();
    let e = d.decode(&vec![0x09], 0);
    assert_eq!(e.typ, EventType::Tab);
    assert_eq!(keyname(e), "tab");
}

#[test]
fn other_single_control_bytes() {
    let mut d = fresh_decoder();
    assert_eq!(d.decode(&vec![0x00], 0).typ, EventType::CtrlSpace);
    assert_eq!(d.decode(&vec![0x1b], 0).typ, EventType::Esc);
    assert_eq!(d.decode(&vec![0x1c], 0).typ, EventType::CtrlBackslash);
    assert_eq!(d.decode(&vec![0x1d], 0).typ, EventType::CtrlRightbracket);
    assert_eq!(d.decode(&vec![0x1e], 0).typ, EventType::CtrlCaret);
    assert_eq!(d.decode(&vec![0x1f], 0).typ, EventType::CtrlSlash);
    assert_eq!(d.decode(&vec![0x7f], 0).typ, EventType::Backspace);
}

#[test]
fn printable_byte_is_a_rune() {
    let mut d = fresh_decoder();
    let e = d.decode(&vec![b'a'], 0);
    assert_eq!(e.typ, EventType::Rune);
    assert_eq!(e.character, 'a');
    assert_eq!(e.mouse_event, None);
}

#[test]
fn empty_input_is_fatal() {
    let mut d = fresh_decoder();
    assert_eq!(d.decode(&vec![], 0).typ, EventType::Fatal);
}

#[test]
fn truncated_mouse_packet_is_fatal() {
    let mut d = fresh_decoder();
    assert_eq!(d.decode(&vec![0x1b, b'[', b'M', 32], 0).typ, EventType::Fatal);
}

#[test]
fn arrow_and_navigation_sequences() {
    let mut d = fresh_decoder();
    assert_eq!(d.decode(&vec![0x1b, b'[', b'A'], 0).typ, EventType::Up);
    assert_eq!(d.decode(&vec![0x1b, b'[', b'B'], 0).typ, EventType::Down);
    assert_eq!(d.decode(&vec![0x1b, b'[', b'C'], 0).typ, EventType::Right);
    assert_eq!(d.decode(&vec![0x1b, b'[', b'D'], 0).typ, EventType::Left);
    assert_eq!(d.decode(&vec![0x1b, b'[', b'H'], 0).typ, EventType::Home);
    assert_eq!(d.decode(&vec![0x1b, b'[', b'F'], 0).typ, EventType::End);
    assert_eq!(d.decode(&vec![0x1b, b'[', b'Z'], 0).typ, EventType::ShiftTab);
    assert_eq!(d.decode(&vec![0x1b, b'[', b'3', b'~'], 0).typ, EventType::Del);
    assert_eq!(d.decode(&vec![0x1b, b'[', b'5', b'~'], 0).typ, EventType::PageUp);
    assert_eq!(d.decode(&vec![0x1b, b'[', b'6', b'~'], 0).typ, EventType::PageDown);
    assert_eq!(d.decode(&vec![0x1b, b'[', b'2', b'~'], 0).typ, EventType::Ins);
}

#[test]
fn modified_arrow_sequences() {
    let mut d = fresh_decoder();
    assert_eq!(
        d.decode(&vec![0x1b, b'[', b'1', b';', b'2', b'A'], 0).typ,
        EventType::ShiftUp
    );
    assert_eq!(
        d.decode(&vec![0x1b, b'[', b'1', b';', b'3', b'D'], 0).typ,
        EventType::AltLeft
    );
    assert_eq!(
        d.decode(&vec![0x1b, b'[', b'1', b';', b'4', b'B'], 0).typ,
        EventType::AltShiftDown
    );
    assert_eq!(
        d.decode(&vec![0x1b, b'[', b'3', b';', b'2', b'~'], 0).typ,
        EventType::ShiftDelete
    );
    assert_eq!(
        d.decode(&vec![0x1b, b'[', b'3', b';', b'5', b'~'], 0).typ,
        EventType::CtrlDel
    );
}

#[test]
fn function_key_sequences() {
    let mut d = fresh_decoder();
    assert_eq!(d.decode(&vec![0x1b, b'O', b'P'], 0).typ, EventType::F1);
    assert_eq!(d.decode(&vec![0x1b, b'O', b'S'], 0).typ, EventType::F4);
    assert_eq!(d.decode(&vec![0x1b, b'[', b'1', b'1', b'~'], 0).typ, EventType::F1);
    assert_eq!(d.decode(&vec![0x1b, b'[', b'1', b'5', b'~'], 0).typ, EventType::F5);
    assert_eq!(d.decode(&vec![0x1b, b'[', b'1', b'7', b'~'], 0).typ, EventType::F6);
    assert_eq!(d.decode(&vec![0x1b, b'[', b'2', b'0', b'~'], 0).typ, EventType::F9);
    assert_eq!(d.decode(&vec![0x1b, b'[', b'2', b'4', b'~'], 0).typ, EventType::F12);
}

#[test]
fn escape_then_printable_is_alt() {
    let mut d = fresh_decoder();
    let e = d.decode(&vec![0x1b, b'j'], 0);
    assert_eq!(e.typ, EventType::Alt);
    assert_eq!(e.character, 'j');
    assert_eq!(keyname(e), "alt-j");
}

#[test]
fn escape_then_control_is_ctrl_alt() {
    let mut d = fresh_decoder();
    let e = d.decode(&vec![0x1b, 0x01], 0);
    assert_eq!(e.typ, EventType::CtrlAlt);
    assert_eq!(e.character, 'a');
    assert_eq!(keyname(e), "ctrl-alt-a");
}

#[test]
fn escape_then_delete_is_alt_backspace() {
    let mut d = fresh_decoder();
    assert_eq!(d.decode(&vec![0x1b, 0x7f], 0).typ, EventType::AltBackspace);
}

#[test]
fn lone_csi_prefix_falls_back_to_alt() {
    let mut d = fresh_decoder();
    let e = d.decode(&vec![0x1b, b'['], 0);
    assert_eq!(e.typ, EventType::Alt);
    assert_eq!(e.character, '[');
}

#[test]
fn unknown_sequences_are_invalid() {
    let mut d = fresh_decoder();
    assert_eq!(d.decode(&vec![0x1b, b'[', b'Q'], 0).typ, EventType::Invalid);
    assert_eq!(d.decode(&vec![0x1b, b'O', b'Z'], 0).typ, EventType::Invalid);
    assert_eq!(d.decode(&vec![0x1b, b'X', b'Y'], 0).typ, EventType::Invalid);
    assert_eq!(d.decode(&vec![0x80], 0).typ, EventType::Invalid);
    assert_eq!(d.decode(&vec![b'a', b'b'], 0).typ, EventType::Invalid);
}

#[test]
fn utf8_runes_decode() {
    let mut d = fresh_decoder();
    let e = d.decode(&vec![0xc3, 0xa9], 0);
    assert_eq!(e.typ, EventType::Rune);
    assert_eq!(e.character, 'é');
    let e = d.decode(&vec![0xe2, 0x82, 0xac], 0);
    assert_eq!(e.typ, EventType::Rune);
    assert_eq!(e.character, '€');
    let e = d.decode(&vec![0xf0, 0x9f, 0x98, 0x80], 0);
    assert_eq!(e.typ, EventType::Rune);
    assert_eq!(e.character, '😀');
}

#[test]
fn malformed_utf8_is_invalid() {
    let mut d = fresh_decoder();
    assert_eq!(d.decode(&vec![0xc0, 0xaf], 0).typ, EventType::Invalid);
    assert_eq!(d.decode(&vec![0xed, 0xa0, 0x80], 0).typ, EventType::Invalid);
    assert_eq!(d.decode(&vec![0xc3], 0).typ, EventType::Invalid);
    assert_eq!(d.decode(&vec![0xc3, 0x28], 0).typ, EventType::Invalid);
    assert_eq!(d.decode(&vec![0xf8, 0x80, 0x80, 0x80], 0).typ, EventType::Invalid);
}

#[test]
fn left_press_packet() {
    let mut d = fresh_decoder();
    let e = d.decode(&packet(32, 33 + 5, 33 + 2), 0);
    assert_eq!(e.typ, EventType::LeftClick);
    let m = e.mouse_event.unwrap();
    assert_eq!(m.x, 5);
    assert_eq!(m.y, 2);
    assert!(m.left);
    assert!(m.down);
    assert!(!m.double);
    assert!(!m.shift);
}

#[test]
fn right_press_and_release_packets() {
    let mut d = fresh_decoder();
    let e = d.decode(&packet(34, 40, 40), 0);
    assert_eq!(e.typ, EventType::RightClick);
    let e = d.decode(&packet(35, 40, 40), 0);
    assert_eq!(e.typ, EventType::Mouse);
    assert!(!e.mouse_event.unwrap().down);
}

#[test]
fn shifted_press_packets() {
    let mut d = fresh_decoder();
    assert_eq!(d.decode(&packet(36, 40, 40), 0).typ, EventType::ShiftLeftClick);
    assert_eq!(d.decode(&packet(38, 41, 41), 0).typ, EventType::ShiftRightClick);
}

#[test]
fn scroll_packets() {
    let mut d = fresh_decoder();
    let e = d.decode(&packet(96, 40, 40), 0);
    assert_eq!(e.typ, EventType::ScrollUp);
    assert_eq!(e.mouse_event.unwrap().s, 1);
    let e = d.decode(&packet(97, 40, 40), 0);
    assert_eq!(e.typ, EventType::ScrollDown);
    assert_eq!(e.mouse_event.unwrap().s, -1);
    assert_eq!(d.decode(&packet(100, 40, 40), 0).typ, EventType::ShiftScrollUp);
    assert_eq!(d.decode(&packet(101, 40, 40), 0).typ, EventType::ShiftScrollDown);
}

#[test]
fn drag_packet_is_mouse() {
    let mut d = fresh_decoder();
    let e = d.decode(&packet(64, 40, 40), 0);
    assert_eq!(e.typ, EventType::Mouse);
    assert!(e.mouse_event.unwrap().down);
}

#[test]
fn malformed_packet_is_invalid() {
    let mut d = fresh_decoder();
    assert_eq!(d.decode(&packet(10, 40, 40), 0).typ, EventType::Invalid);
    assert_eq!(d.decode(&packet(32, 10, 40), 0).typ, EventType::Invalid);
}

#[test]
fn mouse_disabled_makes_packets_invalid() {
    let theme = ColorTheme::construct(false, &vec![]);
    let mut d = FullscreenRenderer::new(theme, false, false);
    assert_eq!(d.decode(&packet(32, 40, 40), 0).typ, EventType::Invalid);
}

#[test]
fn fast_same_spot_second_press_is_double_click() {
    let mut d = fresh_decoder();
    let first = d.decode(&packet(32, 40, 50), 1000);
    assert_eq!(first.typ, EventType::LeftClick);
    let second = d.decode(&packet(32, 40, 50), 1000 + 100);
    assert_eq!(second.typ, EventType::DoubleClick);
    assert!(second.mouse_event.unwrap().double);
}

#[test]
fn slow_second_press_is_a_plain_click() {
    let mut d = fresh_decoder();
    assert_eq!(d.decode(&packet(32, 40, 50), 1000).typ, EventType::LeftClick);
    let second = d.decode(&packet(32, 40, 50), 1000 + DEFAULT_DOUBLE_CLICK_THRESHOLD_MS);
    assert_eq!(second.typ, EventType::LeftClick);
}

#[test]
fn second_press_elsewhere_is_a_plain_click_however_fast() {
    let mut d = fresh_decoder();
    assert_eq!(d.decode(&packet(32, 40, 50), 1000).typ, EventType::LeftClick);
    let second = d.decode(&packet(32, 41, 50), 1001);
    assert_eq!(second.typ, EventType::LeftClick);
}

#[test]
fn promotion_consumes_the_remembered_press() {
    let mut d = fresh_decoder();
    assert_eq!(d.decode(&packet(32, 40, 50), 0).typ, EventType::LeftClick);
    assert_eq!(d.decode(&packet(32, 40, 50), 100).typ, EventType::DoubleClick);
    // The pair was consumed: a third fast press starts a new pair.
    assert_eq!(d.decode(&packet(32, 40, 50), 200).typ, EventType::LeftClick);
    assert_eq!(d.decode(&packet(32, 40, 50), 300).typ, EventType::DoubleClick);
}

#[test]
fn release_between_presses_does_not_break_the_pair() {
    let mut d = fresh_decoder();
    assert_eq!(d.decode(&packet(32, 40, 50), 0).typ, EventType::LeftClick);
    assert_eq!(d.decode(&packet(35, 40, 50), 50).typ, EventType::Mouse);
    assert_eq!(d.decode(&packet(32, 40, 50), 100).typ, EventType::DoubleClick);
}

#[test]
fn buttons_are_tracked_separately() {
    let mut d = fresh_decoder();
    assert_eq!(d.decode(&packet(32, 40, 50), 0).typ, EventType::LeftClick);
    assert_eq!(d.decode(&packet(34, 40, 50), 50).typ, EventType::RightClick);
    assert_eq!(d.decode(&packet(34, 40, 50), 100).typ, EventType::DoubleClick);
}

#[test]
fn configured_threshold_is_honored() {
    let mut d = fresh_decoder();
    d.set_click_threshold(50);
    assert_eq!(d.decode(&packet(32, 40, 50), 0).typ, EventType::LeftClick);
    assert_eq!(d.decode(&packet(32, 40, 50), 60).typ, EventType::LeftClick);
}

#[test]
fn disable_mouse_resets_history_and_reporting() {
    let mut d = fresh_decoder();
    assert_eq!(d.decode(&packet(32, 40, 50), 0).typ, EventType::LeftClick);
    d.disable_mouse();
    assert!(!d.mouse);
    assert_eq!(d.last_left_click, None);
    assert_eq!(d.decode(&packet(32, 40, 50), 10).typ, EventType::Invalid);
}

#[test]
fn keyboard_decoding_ignores_time_and_history() {
    let mut d1 = fresh_decoder();
    let mut d2 = fresh_decoder();
    assert_eq!(d2.decode(&packet(32, 40, 50), 0).typ, EventType::LeftClick);
    let e1 = d1.decode(&vec![0x10], 123);
    let e2 = d2.decode(&vec![0x10], 456_789);
    assert_eq!(e1, e2);
    assert_eq!(keyname(e1), keyname(e2));
}

#[test]
fn comparable_strips_differing_mouse_payloads() {
    let mut d1 = fresh_decoder();
    let mut d2 = fresh_decoder();
    let e1 = d1.decode(&packet(32, 40, 50), 0);
    let e2 = d2.decode(&packet(32, 60, 70), 0);
    assert_eq!(e1.typ, e2.typ);
    assert_ne!(e1.mouse_event, e2.mouse_event);
    assert_eq!(comparable(e1), comparable(e2));
}

#[test]
fn new_decoder_state() {
    let theme = ColorTheme::construct(true, &vec![]);
    let d = FullscreenRenderer::new(theme, true, true);
    assert!(d.mouse);
    assert!(d.force_black);
    assert_eq!(d.click_threshold_ms, DEFAULT_DOUBLE_CLICK_THRESHOLD_MS);
    assert_eq!(d.last_left_click, None);
    assert_eq!(d.last_right_click, None);
}
