use termbox::{reverse_convert_key, Key};

const TABLE: [(u16, Key); 56] = [
    (65535, Key::F1),
    (65534, Key::F2),
    (65533, Key::F3),
    (65532, Key::F4),
    (65531, Key::F5),
    (65530, Key::F6),
    (65529, Key::F7),
    (65528, Key::F8),
    (65527, Key::F9),
    (65526, Key::F10),
    (65525, Key::F11),
    (65524, Key::F12),
    (65523, Key::Insert),
    (65522, Key::Delete),
    (65521, Key::Home),
    (65520, Key::End),
    (65519, Key::Pgup),
    (65518, Key::Pgdn),
    (65517, Key::ArrowUp),
    (65516, Key::ArrowDown),
    (65515, Key::ArrowLeft),
    (65514, Key::ArrowRight),
    (0, Key::CtrlTilde),
    (1, Key::CtrlA),
    (2, Key::CtrlB),
    (3, Key::CtrlC),
    (4, Key::CtrlD),
    (5, Key::CtrlE),
    (6, Key::CtrlF),
    (7, Key::CtrlG),
    (8, Key::Backspace),
    (9, Key::Tab),
    (10, Key::CtrlJ),
    (11, Key::CtrlK),
    (12, Key::CtrlL),
    (13, Key::Enter),
    (14, Key::CtrlN),
    (15, Key::CtrlO),
    (16, Key::CtrlP),
    (17, Key::CtrlQ),
    (18, Key::CtrlR),
    (19, Key::CtrlS),
    (20, Key::CtrlT),
    (21, Key::CtrlU),
    (22, Key::CtrlV),
    (23, Key::CtrlW),
    (24, Key::CtrlX),
    (25, Key::CtrlY),
    (26, Key::CtrlZ),
    (27, Key::Esc),
    (28, Key::Ctrl4),
    (29, Key::Ctrl5),
    (30, Key::Ctrl6),
    (31, Key::Ctrl7),
    (32, Key::Space),
    (127, Key::Backspace2),
];

#[test]
fn every_table_code_maps_to_its_key() {
    for (code, key) in TABLE.iter() {
        assert_eq!(reverse_convert_key(*code), Some(*key));
        assert_eq!(key.code(), *code);
    }
}

#[test]
fn codes_outside_the_table_map_to_none() {
    assert_eq!(reverse_convert_key(1000), None);
    assert_eq!(reverse_convert_key(0x71), None);
    assert_eq!(reverse_convert_key(33), None);
    assert_eq!(reverse_convert_key(126), None);
    assert_eq!(reverse_convert_key(128), None);
    assert_eq!(reverse_convert_key(65513), None);
}

#[test]
fn lookup_is_exact_over_all_codes() {
    for code in 0..=u16::MAX {
        match reverse_convert_key(code) {
            Some(key) => assert_eq!(key.code(), code),
            None => assert!(TABLE.iter().all(|(c, _)| *c != code)),
        }
    }
}
