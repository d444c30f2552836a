use vstd::prelude::*;

verus! {

/// A named key. Function and navigation keys have codes at the top of the
/// 16-bit range; control combinations have the codes 0 to 32 and 127.
#[derive(Clone, Copy, Debug, PartialEq, Eq, Structural)]
pub enum Key {
    F1,
    F2,
    F3,
    F4,
    F5,
    F6,
    F7,
    F8,
    F9,
    F10,
    F11,
    F12,
    Insert,
    Delete,
    Home,
    End,
    Pgup,
    Pgdn,
    ArrowUp,
    ArrowDown,
    ArrowLeft,
    ArrowRight,
    CtrlTilde,
    CtrlA,
    CtrlB,
    CtrlC,
    CtrlD,
    CtrlE,
    CtrlF,
    CtrlG,
    Backspace,
    Tab,
    CtrlJ,
    CtrlK,
    CtrlL,
    Enter,
    CtrlN,
    CtrlO,
    CtrlP,
    CtrlQ,
    CtrlR,
    CtrlS,
    CtrlT,
    CtrlU,
    CtrlV,
    CtrlW,
    CtrlX,
    CtrlY,
    CtrlZ,
    Esc,
    Ctrl4,
    Ctrl5,
    Ctrl6,
    Ctrl7,
    Space,
    Backspace2,
}

/// The backend's numeric code of a key.
pub open spec fn key_code(k: Key) -> u16 {
    match k {
        Key::F1 => 65535,
        Key::F2 => 65534,
        Key::F3 => 65533,
        Key::F4 => 65532,
        Key::F5 => 65531,
        Key::F6 => 65530,
        Key::F7 => 65529,
        Key::F8 => 65528,
        Key::F9 => 65527,
        Key::F10 => 65526,
        Key::F11 => 65525,
        Key::F12 => 65524,
        Key::Insert => 65523,
        Key::Delete => 65522,
        Key::Home => 65521,
        Key::End => 65520,
        Key::Pgup => 65519,
        Key::Pgdn => 65518,
        Key::ArrowUp => 65517,
        Key::ArrowDown => 65516,
        Key::ArrowLeft => 65515,
        Key::ArrowRight => 65514,
        Key::CtrlTilde => 0,
        Key::CtrlA => 1,
        Key::CtrlB => 2,
        Key::CtrlC => 3,
        Key::CtrlD => 4,
        Key::CtrlE => 5,
        Key::CtrlF => 6,
        Key::CtrlG => 7,
        Key::Backspace => 8,
        Key::Tab => 9,
        Key::CtrlJ => 10,
        Key::CtrlK => 11,
        Key::CtrlL => 12,
        Key::Enter => 13,
        Key::CtrlN => 14,
        Key::CtrlO => 15,
        Key::CtrlP => 16,
        Key::CtrlQ => 17,
        Key::CtrlR => 18,
        Key::CtrlS => 19,
        Key::CtrlT => 20,
        Key::CtrlU => 21,
        Key::CtrlV => 22,
        Key::CtrlW => 23,
        Key::CtrlX => 24,
        Key::CtrlY => 25,
        Key::CtrlZ => 26,
        Key::Esc => 27,
        Key::Ctrl4 => 28,
        Key::Ctrl5 => 29,
        Key::Ctrl6 => 30,
        Key::Ctrl7 => 31,
        Key::Space => 32,
        Key::Backspace2 => 127,
    }
}

impl Key {
    /// The backend's numeric code of this key.
    pub fn code(&self) -> (r: u16)
        ensures
            r == key_code(*self),
    {
        match *self {
            Key::F1 => 65535,
            Key::F2 => 65534,
            Key::F3 => 65533,
            Key::F4 => 65532,
            Key::F5 => 65531,
            Key::F6 => 65530,
            Key::F7 => 65529,
            Key::F8 => 65528,
            Key::F9 => 65527,
            Key::F10 => 65526,
            Key::F11 => 65525,
            Key::F12 => 65524,
            Key::Insert => 65523,
            Key::Delete => 65522,
            Key::Home => 65521,
            Key::End => 65520,
            Key::Pgup => 65519,
            Key::Pgdn => 65518,
            Key::ArrowUp => 65517,
            Key::ArrowDown => 65516,
            Key::ArrowLeft => 65515,
            Key::ArrowRight => 65514,
            Key::CtrlTilde => 0,
            Key::CtrlA => 1,
            Key::CtrlB => 2,
            Key::CtrlC => 3,
            Key::CtrlD => 4,
            Key::CtrlE => 5,
            Key::CtrlF => 6,
            Key::CtrlG => 7,
            Key::Backspace => 8,
            Key::Tab => 9,
            Key::CtrlJ => 10,
            Key::CtrlK => 11,
            Key::CtrlL => 12,
            Key::Enter => 13,
            Key::CtrlN => 14,
            Key::CtrlO => 15,
            Key::CtrlP => 16,
            Key::CtrlQ => 17,
            Key::CtrlR => 18,
            Key::CtrlS => 19,
            Key::CtrlT => 20,
            Key::CtrlU => 21,
            Key::CtrlV => 22,
            Key::CtrlW => 23,
            Key::CtrlX => 24,
            Key::CtrlY => 25,
            Key::CtrlZ => 26,
            Key::Esc => 27,
            Key::Ctrl4 => 28,
            Key::Ctrl5 => 29,
            Key::Ctrl6 => 30,
            Key::Ctrl7 => 31,
            Key::Space => 32,
            Key::Backspace2 => 127,
        }
    }
}

/// Whether `k` is the code of a key: the control codes 0 to 32, 127, and
/// the codes from 65514 up.
pub open spec fn is_key_code(k: u16) -> bool {
    k <= 32 || k == 127 || k >= 65514
}

/// The key whose code is `k`, if any: exactly one key has each code of the
/// table, and no key has any other code.
pub fn reverse_convert_key(k: u16) -> (r: Option<Key>)
    ensures
        forall|key: Key| (r == Some(key)) <==> key_code(key) == k,
        r is Some <==> is_key_code(k),
{
    match k {
        65535 => Some(Key::F1),
        65534 => Some(Key::F2),
        65533 => Some(Key::F3),
        65532 => Some(Key::F4),
        65531 => Some(Key::F5),
        65530 => Some(Key::F6),
        65529 => Some(Key::F7),
        65528 => Some(Key::F8),
        65527 => Some(Key::F9),
        65526 => Some(Key::F10),
        65525 => Some(Key::F11),
        65524 => Some(Key::F12),
        65523 => Some(Key::Insert),
        65522 => Some(Key::Delete),
        65521 => Some(Key::Home),
        65520 => Some(Key::End),
        65519 => Some(Key::Pgup),
        65518 => Some(Key::Pgdn),
        65517 => Some(Key::ArrowUp),
        65516 => Some(Key::ArrowDown),
        65515 => Some(Key::ArrowLeft),
        65514 => Some(Key::ArrowRight),
        0 => Some(Key::CtrlTilde),
        1 => Some(Key::CtrlA),
        2 => Some(Key::CtrlB),
        3 => Some(Key::CtrlC),
        4 => Some(Key::CtrlD),
        5 => Some(Key::CtrlE),
        6 => Some(Key::CtrlF),
        7 => Some(Key::CtrlG),
        8 => Some(Key::Backspace),
        9 => Some(Key::Tab),
        10 => Some(Key::CtrlJ),
        11 => Some(Key::CtrlK),
        12 => Some(Key::CtrlL),
        13 => Some(Key::Enter),
        14 => Some(Key::CtrlN),
        15 => Some(Key::CtrlO),
        16 => Some(Key::CtrlP),
        17 => Some(Key::CtrlQ),
        18 => Some(Key::CtrlR),
        19 => Some(Key::CtrlS),
        20 => Some(Key::CtrlT),
        21 => Some(Key::CtrlU),
        22 => Some(Key::CtrlV),
        23 => Some(Key::CtrlW),
        24 => Some(Key::CtrlX),
        25 => Some(Key::CtrlY),
        26 => Some(Key::CtrlZ),
        27 => Some(Key::Esc),
        28 => Some(Key::Ctrl4),
        29 => Some(Key::Ctrl5),
        30 => Some(Key::Ctrl6),
        31 => Some(Key::Ctrl7),
        32 => Some(Key::Space),
        127 => Some(Key::Backspace2),
        _ => None,
    }
}

} // verus!
