//! The records and codes exchanged with the terminal backend, laid out as
//! the backend lays them out.
use vstd::prelude::*;

verus! {

/// Cursor coordinate that tells the backend to hide the cursor.
pub const TB_HIDE_CURSOR: i32 = -1;

/// Modifier flag set in a key record when Alt was held.
pub const TB_MOD_ALT: i32 = 1;

/// Style flag for bold text, in the high byte of an attribute word.
pub const TB_BOLD: u16 = 0x0100;

/// Style flag for underlined text.
pub const TB_UNDERLINE: u16 = 0x0200;

/// Style flag for reverse video.
pub const TB_REVERSE: u16 = 0x0400;

/// The backend's color numbers.
#[allow(non_camel_case_types)]
#[derive(Clone, Copy, Debug, PartialEq, Eq, Structural)]
pub enum tb_color {
    TB_DEFAULT,
    TB_BLACK,
    TB_RED,
    TB_GREEN,
    TB_YELLOW,
    TB_BLUE,
    TB_MAGENTA,
    TB_CYAN,
    TB_WHITE,
}

/// The number the backend uses for a color.
pub open spec fn color_number(c: tb_color) -> u16 {
    match c {
        tb_color::TB_DEFAULT => 0,
        tb_color::TB_BLACK => 1,
        tb_color::TB_RED => 2,
        tb_color::TB_GREEN => 3,
        tb_color::TB_YELLOW => 4,
        tb_color::TB_BLUE => 5,
        tb_color::TB_MAGENTA => 6,
        tb_color::TB_CYAN => 7,
        tb_color::TB_WHITE => 8,
    }
}

impl tb_color {
    /// The number the backend uses for this color.
    pub fn code(self) -> (r: u16)
        ensures
            r == color_number(self),
    {
        match self {
            tb_color::TB_DEFAULT => 0,
            tb_color::TB_BLACK => 1,
            tb_color::TB_RED => 2,
            tb_color::TB_GREEN => 3,
            tb_color::TB_YELLOW => 4,
            tb_color::TB_BLUE => 5,
            tb_color::TB_MAGENTA => 6,
            tb_color::TB_CYAN => 7,
            tb_color::TB_WHITE => 8,
        }
    }
}

/// Kind of a raw event record.
#[allow(non_camel_case_types)]
#[derive(Clone, Copy, Debug, PartialEq, Eq, Structural)]
pub enum tb_event_type {
    TB_EVENT_ERROR,
    TB_EVENT_NONE,
    TB_EVENT_KEY,
    TB_EVENT_RESIZE,
}

/// The kind that the backend's status code `code` stands for: every negative
/// code is an error, 0 is no event, 1 a key and 2 a resize.
pub open spec fn event_type_of(code: i32) -> Option<tb_event_type> {
    if code < 0 {
        Some(tb_event_type::TB_EVENT_ERROR)
    } else if code == 0 {
        Some(tb_event_type::TB_EVENT_NONE)
    } else if code == 1 {
        Some(tb_event_type::TB_EVENT_KEY)
    } else if code == 2 {
        Some(tb_event_type::TB_EVENT_RESIZE)
    } else {
        None
    }
}

impl tb_event_type {
    /// The kind of event that the backend's status code stands for; `None`
    /// for a code the backend does not define.
    pub fn from_code(code: i32) -> (r: Option<tb_event_type>)
        ensures
            r == event_type_of(code),
    {
        if code < 0 {
            Some(tb_event_type::TB_EVENT_ERROR)
        } else if code == 0 {
            Some(tb_event_type::TB_EVENT_NONE)
        } else if code == 1 {
            Some(tb_event_type::TB_EVENT_KEY)
        } else if code == 2 {
            Some(tb_event_type::TB_EVENT_RESIZE)
        } else {
            None
        }
    }
}

/// Why the backend could not claim the terminal.
#[allow(non_camel_case_types)]
#[derive(Clone, Copy, Debug, PartialEq, Eq, Structural)]
pub enum tb_error {
    TB_EUNSUPPORTED_TERMINAL,
    TB_EFAILED_TO_OPEN_TTY,
    TB_EPIPE_TRAP_ERROR,
}

/// The error that an initialization status code names: -1, -2 and -3.
pub open spec fn error_of(code: i32) -> Option<tb_error> {
    if code == -1 {
        Some(tb_error::TB_EUNSUPPORTED_TERMINAL)
    } else if code == -2 {
        Some(tb_error::TB_EFAILED_TO_OPEN_TTY)
    } else if code == -3 {
        Some(tb_error::TB_EPIPE_TRAP_ERROR)
    } else {
        None
    }
}

impl tb_error {
    /// The error that an initialization status code names, if any.
    pub fn from_code(code: i32) -> (r: Option<tb_error>)
        ensures
            r == error_of(code),
    {
        if code == -1 {
            Some(tb_error::TB_EUNSUPPORTED_TERMINAL)
        } else if code == -2 {
            Some(tb_error::TB_EFAILED_TO_OPEN_TTY)
        } else if code == -3 {
            Some(tb_error::TB_EPIPE_TRAP_ERROR)
        } else {
            None
        }
    }
}

/// How the backend reads Esc and Alt in its input.
#[allow(non_camel_case_types)]
#[derive(Clone, Copy, Debug, PartialEq, Eq, Structural)]
pub enum tb_input_mode {
    TB_INPUT_CURRENT,
    TB_INPUT_ESC,
    TB_INPUT_ALT,
}

impl tb_input_mode {
    /// The number the backend uses for this mode.
    pub fn code(self) -> (r: i32)
        ensures
            r == (match self {
                tb_input_mode::TB_INPUT_CURRENT => 0i32,
                tb_input_mode::TB_INPUT_ESC => 1i32,
                tb_input_mode::TB_INPUT_ALT => 2i32,
            }),
    {
        match self {
            tb_input_mode::TB_INPUT_CURRENT => 0,
            tb_input_mode::TB_INPUT_ESC => 1,
            tb_input_mode::TB_INPUT_ALT => 2,
        }
    }
}

/// Which colors the backend emits.
#[allow(non_camel_case_types)]
#[derive(Clone, Copy, Debug, PartialEq, Eq, Structural)]
pub enum tb_output_mode {
    TB_OUTPUT_CURRENT,
    TB_OUTPUT_NORMAL,
    TB_OUTPUT_256,
    TB_OUTPUT_216,
    TB_OUTPUT_GRAYSCALE,
}

impl tb_output_mode {
    /// The number the backend uses for this mode.
    pub fn code(self) -> (r: i32)
        ensures
            r == (match self {
                tb_output_mode::TB_OUTPUT_CURRENT => 0i32,
                tb_output_mode::TB_OUTPUT_NORMAL => 1i32,
                tb_output_mode::TB_OUTPUT_256 => 2i32,
                tb_output_mode::TB_OUTPUT_216 => 3i32,
                tb_output_mode::TB_OUTPUT_GRAYSCALE => 4i32,
            }),
    {
        match self {
            tb_output_mode::TB_OUTPUT_CURRENT => 0,
            tb_output_mode::TB_OUTPUT_NORMAL => 1,
            tb_output_mode::TB_OUTPUT_256 => 2,
            tb_output_mode::TB_OUTPUT_216 => 3,
            tb_output_mode::TB_OUTPUT_GRAYSCALE => 4,
        }
    }
}

/// A raw event record as the backend fills it.
#[allow(non_camel_case_types)]
#[derive(Clone, Copy, Debug, PartialEq, Eq, Structural)]
pub struct tb_event {
    pub etype: u8,
    pub emod: u8,
    pub key: u16,
    pub ch: u32,
    pub w: i32,
    pub h: i32,
}

/// A raw cell record: code point, foreground word, background word.
#[allow(non_camel_case_types)]
#[derive(Clone, Copy, Debug, PartialEq, Eq, Structural)]
pub struct tb_cell {
    pub ch: u32,
    pub fg: u16,
    pub bg: u16,
}

/// An all-zero event record, to be filled by the backend.
pub fn nil_raw_event() -> (r: tb_event)
    ensures
        r == (tb_event { etype: 0, emod: 0, key: 0, ch: 0, w: 0, h: 0 }),
{
    tb_event { etype: 0, emod: 0, key: 0, ch: 0, w: 0, h: 0 }
}

} // verus!
