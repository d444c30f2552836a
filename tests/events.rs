use termbox::{
    decode_char, nil_raw_event, tb_error, tb_event, tb_event_type, unpack_event, Event, Key,
};

fn record(key: u16, ch: u32, w: i32, h: i32) -> tb_event {
    tb_event { etype: 0, emod: 0, key, ch, w, h }
}

#[test]
fn each_status_code_gives_one_kind_of_event() {
    let ev = tb_event { etype: 1, emod: 1, key: 65535, ch: 0, w: 7, h: 9 };
    assert_eq!(unpack_event(-1, &ev), Event::NoEvent);
    assert_eq!(unpack_event(0, &ev), Event::NoEvent);
    assert_eq!(unpack_event(1, &ev), Event::KeyEvent(1, Some(Key::F1), None));
    assert_eq!(unpack_event(2, &ev), Event::ResizeEvent(7, 9));
}

#[test]
fn other_status_codes_give_no_event() {
    let ev = record(13, 0x71, 1, 1);
    assert_eq!(unpack_event(-7, &ev), Event::NoEvent);
    assert_eq!(unpack_event(3, &ev), Event::NoEvent);
    assert_eq!(unpack_event(i32::MIN, &ev), Event::NoEvent);
    assert_eq!(unpack_event(i32::MAX, &ev), Event::NoEvent);
}

#[test]
fn enter_key_has_no_character() {
    let ev = tb_event { etype: 1, emod: 0, key: 13, ch: 0, w: 0, h: 0 };
    assert_eq!(unpack_event(1, &ev), Event::KeyEvent(0, Some(Key::Enter), None));
}

#[test]
fn plain_letter_has_character_and_no_key() {
    let ev = tb_event { etype: 1, emod: 0, key: 0x71, ch: 0x71, w: 0, h: 0 };
    assert_eq!(unpack_event(1, &ev), Event::KeyEvent(0, None, Some('q')));
}

#[test]
fn modifier_passes_through() {
    let ev = tb_event { etype: 1, emod: 1, key: 0x71, ch: 0x71, w: 0, h: 0 };
    assert_eq!(unpack_event(1, &ev), Event::KeyEvent(1, None, Some('q')));
}

#[test]
fn key_and_character_together() {
    let ev = tb_event { etype: 1, emod: 0, key: 32, ch: 32, w: 0, h: 0 };
    assert_eq!(unpack_event(1, &ev), Event::KeyEvent(0, Some(Key::Space), Some(' ')));
}

#[test]
fn resize_passes_through() {
    let ev = record(0, 0, 120, 40);
    assert_eq!(unpack_event(2, &ev), Event::ResizeEvent(120, 40));
    let neg = record(0, 0, -3, i32::MIN);
    assert_eq!(unpack_event(2, &neg), Event::ResizeEvent(-3, i32::MIN));
}

#[test]
fn invalid_code_points_give_no_character() {
    assert_eq!(decode_char(0), None);
    assert_eq!(decode_char(0xD800), None);
    assert_eq!(decode_char(0xDFFF), None);
    assert_eq!(decode_char(0x110000), None);
    assert_eq!(decode_char(u32::MAX), None);
    assert_eq!(decode_char(0x41), Some('A'));
    assert_eq!(decode_char(0x10FFFF), Some('\u{10FFFF}'));
    assert_eq!(decode_char(0xE000), Some('\u{E000}'));
    let ev = record(0xD800, 0xD800, 0, 0);
    assert_eq!(unpack_event(1, &ev), Event::KeyEvent(0, None, None));
}

#[test]
fn empty_record_is_zero() {
    let ev = nil_raw_event();
    assert_eq!(ev, tb_event { etype: 0, emod: 0, key: 0, ch: 0, w: 0, h: 0 });
    assert_eq!(unpack_event(0, &ev), Event::NoEvent);
}

#[test]
fn status_codes_name_kinds_and_errors() {
    assert_eq!(tb_event_type::from_code(-1), Some(tb_event_type::TB_EVENT_ERROR));
    assert_eq!(tb_event_type::from_code(-9), Some(tb_event_type::TB_EVENT_ERROR));
    assert_eq!(tb_event_type::from_code(0), Some(tb_event_type::TB_EVENT_NONE));
    assert_eq!(tb_event_type::from_code(1), Some(tb_event_type::TB_EVENT_KEY));
    assert_eq!(tb_event_type::from_code(2), Some(tb_event_type::TB_EVENT_RESIZE));
    assert_eq!(tb_event_type::from_code(3), None);
    assert_eq!(tb_error::from_code(-1), Some(tb_error::TB_EUNSUPPORTED_TERMINAL));
    assert_eq!(tb_error::from_code(-2), Some(tb_error::TB_EFAILED_TO_OPEN_TTY));
    assert_eq!(tb_error::from_code(-3), Some(tb_error::TB_EPIPE_TRAP_ERROR));
    assert_eq!(tb_error::from_code(-4), None);
    assert_eq!(tb_error::from_code(0), None);
}
