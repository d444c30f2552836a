use crate::key::{key_code, reverse_convert_key, Key};
use crate::raw::{event_type_of, tb_event, tb_event_type};
use vstd::prelude::*;

verus! {

/// An input event.
#[derive(Clone, Copy, Debug, PartialEq, Eq, Structural)]
pub enum Event {
    /// Modifier flags, the named key if the code is in the key table, and the
    /// character if the code point is one.
    KeyEvent(u8, Option<Key>, Option<char>),
    /// New width and height of the terminal.
    ResizeEvent(i32, i32),
    /// No event came, or the backend reported an error or an unknown kind.
    NoEvent,
}

/// Whether `v` is a Unicode scalar value other than 0: not a surrogate and
/// not above 0x10FFFF.
pub open spec fn is_char_code(v: u32) -> bool {
    v != 0 && (v < 0xD800 || (0xE000 <= v && v <= 0x10FFFF))
}

/// Relies on `char::from_u32`: `Some` exactly for Unicode scalar values,
/// holding the character of that code point.
pub assume_specification[ core::char::from_u32 ](i: u32) -> (r: Option<char>)
    ensures
        r is Some <==> (i < 0xD800 || (0xE000 <= i && i <= 0x10FFFF)),
        r matches Some(c) ==> c as int == i as int,
;

/// The character with code point `v`; `None` for 0, which the backend
/// reports when a key has no character, and for what is no scalar value.
pub fn decode_char(v: u32) -> (r: Option<char>)
    ensures
        is_char_of(v, r),
{
    if v == 0 {
        None
    } else {
        core::char::from_u32(v)
    }
}

/// Whether `k` is what the key table gives for `code`: the one key with
/// that code, or `None` where no key has it.
pub open spec fn is_key_of(code: u16, k: Option<Key>) -> bool {
    forall|key: Key| (k == Some(key)) <==> key_code(key) == code
}

/// Whether `c` is the character with code point `v`, or `None` where `v` is
/// no character code.
pub open spec fn is_char_of(v: u32, c: Option<char>) -> bool {
    &&& c is Some <==> is_char_code(v)
    &&& c matches Some(ch) ==> ch as int == v as int
}

/// Whether `e` is the event that the raw record `ev` stands for, given the
/// backend's status code: a key record carries the modifier flags, the named
/// key and the character, each decoded on its own; a resize record carries
/// its width and height; anything else is no event.
pub open spec fn decodes_to(code: i32, ev: tb_event, e: Event) -> bool {
    match event_type_of(code) {
        Some(tb_event_type::TB_EVENT_KEY) => e matches Event::KeyEvent(m, k, c) && m == ev.emod
            && is_key_of(ev.key, k) && is_char_of(ev.ch, c),
        Some(tb_event_type::TB_EVENT_RESIZE) => e == Event::ResizeEvent(ev.w, ev.h),
        _ => e == Event::NoEvent,
    }
}

/// Decodes a raw record, filled by the backend with status code `ev_type`.
pub fn unpack_event(ev_type: i32, ev: &tb_event) -> (r: Event)
    ensures
        decodes_to(ev_type, *ev, r),
{
    match tb_event_type::from_code(ev_type) {
        Some(tb_event_type::TB_EVENT_KEY) => {
            Event::KeyEvent(ev.emod, reverse_convert_key(ev.key), decode_char(ev.ch))
        },
        Some(tb_event_type::TB_EVENT_RESIZE) => Event::ResizeEvent(ev.w, ev.h),
        _ => Event::NoEvent,
    }
}

/// Decoding is a function of the record: two events that the same status
/// code and record decode to are equal. With the contract of `unpack_event`
/// this pins its result down for every status code and every record.
pub proof fn lemma_decoding_deterministic(code: i32, ev: tb_event, e1: Event, e2: Event)
    requires
        decodes_to(code, ev, e1),
        decodes_to(code, ev, e2),
    ensures
        e1 == e2,
{
    if let (Event::KeyEvent(m1, k1, c1), Event::KeyEvent(m2, k2, c2)) = (e1, e2) {
        if let Some(key) = k1 {
            assert(key_code(key) == ev.key);
            assert(k2 == Some(key));
        } else if let Some(key) = k2 {
            assert(key_code(key) == ev.key);
            assert(k1 == Some(key));
        }
        if let (Some(a), Some(b)) = (c1, c2) {
            assert(a as int == b as int);
        }
    }
}

} // verus!
