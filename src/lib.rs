//! A small terminal rendering library: a double-buffered grid of cells that
//! is flushed as a list of changed cells, the packed attribute encoding, the
//! key table, the decoding of raw input records reported by a terminal
//! backend, and the lifecycle of a terminal session.

mod attr;
mod buffer;
mod event;
mod key;
mod raw;

pub use attr::{
    attr_word, color_ordinal, convert_color, convert_style, is_bold, is_reverse, is_underline,
    lemma_attr_word_injective, style_mask, Attribute, Color, Style,
};
pub use buffer::{
    blank_cell, blank_grid, cell_at, clear, cursor, default_attr, default_attribute, diff_prefix,
    dimension, follow_event, is_followed_resize, started,
    grids_sized, height, hide_cursor, index_of, init, init_error_of, is_active,
    lemma_present_idempotent, pending_updates, present, print_cells, print_ch, print_string,
    print_string_styled, put, put_run, put_text, raw_of, set_cell, set_cursor, shutdown,
    update_at, width, with_term, Cell, CellUpdate, InitError, Terminal, TerminalView,
};
pub use event::{
    decode_char, decodes_to, is_char_code, is_char_of, is_key_of, lemma_decoding_deterministic,
    unpack_event, Event,
};
pub use key::{is_key_code, key_code, reverse_convert_key, Key};
pub use raw::{
    color_number, error_of, event_type_of, nil_raw_event, tb_cell, tb_color, tb_error, tb_event,
    tb_event_type, tb_input_mode, tb_output_mode, TB_BOLD, TB_HIDE_CURSOR, TB_MOD_ALT, TB_REVERSE,
    TB_UNDERLINE,
};
