use termbox::{
    cell_at, clear, cursor, default_attribute, height, hide_cursor, init, present, print_cells,
    print_ch, print_string, print_string_styled, set_cell, set_cursor, tb_cell, width, Attribute,
    Cell, CellUpdate, Color, Style, Terminal,
};

fn started(w: usize, h: usize) -> Terminal {
    let mut t = Terminal::new();
    assert_eq!(init(&mut t, 0, w, h), Ok(()));
    t
}

fn plain(ch: char) -> Cell {
    Cell { ch, fg: default_attribute(), bg: default_attribute() }
}

fn raw(ch: char, fg: u16, bg: u16) -> tb_cell {
    tb_cell { ch: ch as u32, fg, bg }
}

#[test]
fn fresh_grid_is_blank_and_sized() {
    let t = started(4, 3);
    assert_eq!(width(&t), 4);
    assert_eq!(height(&t), 3);
    for y in 0..3 {
        for x in 0..4 {
            assert_eq!(cell_at(&t, x, y), Some(plain(' ')));
        }
    }
    assert_eq!(cell_at(&t, 4, 0), None);
    assert_eq!(cell_at(&t, 0, 3), None);
    assert_eq!(cursor(&t), None);
}

#[test]
fn fresh_grid_presents_nothing() {
    let mut t = started(5, 2);
    assert!(present(&mut t).is_empty());
}

#[test]
fn present_emits_changed_cells_in_grid_order() {
    let mut t = started(4, 3);
    let red = Attribute { color: Color::Red, style: Style::Bold };
    set_cell(&mut t, 2, 1, &Cell { ch: 'b', fg: red, bg: default_attribute() });
    set_cell(&mut t, 3, 0, &plain('a'));
    set_cell(&mut t, 0, 2, &plain('c'));
    let updates = present(&mut t);
    assert_eq!(
        updates,
        vec![
            CellUpdate { x: 3, y: 0, cell: raw('a', 0, 0) },
            CellUpdate { x: 2, y: 1, cell: raw('b', 0x0102, 0) },
            CellUpdate { x: 0, y: 2, cell: raw('c', 0, 0) },
        ]
    );
}

#[test]
fn second_present_emits_nothing() {
    let mut t = started(6, 2);
    print_string(&mut t, 1, 1, "hello");
    assert_eq!(present(&mut t).len(), 5);
    assert!(present(&mut t).is_empty());
}

#[test]
fn rewriting_the_same_value_emits_nothing() {
    let mut t = started(3, 1);
    set_cell(&mut t, 1, 0, &plain('z'));
    assert_eq!(present(&mut t).len(), 1);
    set_cell(&mut t, 1, 0, &plain('z'));
    assert!(present(&mut t).is_empty());
}

#[test]
fn clear_blanks_pending_cells_and_present_erases() {
    let mut t = started(3, 1);
    print_string(&mut t, 0, 0, "abc");
    present(&mut t);
    clear(&mut t);
    assert_eq!(cell_at(&t, 1, 0), Some(plain(' ')));
    let updates = present(&mut t);
    assert_eq!(
        updates,
        vec![
            CellUpdate { x: 0, y: 0, cell: raw(' ', 0, 0) },
            CellUpdate { x: 1, y: 0, cell: raw(' ', 0, 0) },
            CellUpdate { x: 2, y: 0, cell: raw(' ', 0, 0) },
        ]
    );
}

#[test]
fn writes_outside_the_grid_are_dropped() {
    let mut t = started(2, 2);
    set_cell(&mut t, 2, 0, &plain('x'));
    set_cell(&mut t, 0, 2, &plain('x'));
    set_cell(&mut t, usize::MAX, usize::MAX, &plain('x'));
    assert!(present(&mut t).is_empty());
}

#[test]
fn print_string_advances_one_cell_per_character() {
    let mut t = started(5, 1);
    print_string(&mut t, 1, 0, "héllo");
    assert_eq!(cell_at(&t, 0, 0), Some(plain(' ')));
    assert_eq!(cell_at(&t, 1, 0), Some(plain('h')));
    assert_eq!(cell_at(&t, 2, 0), Some(plain('é')));
    assert_eq!(cell_at(&t, 3, 0), Some(plain('l')));
    assert_eq!(cell_at(&t, 4, 0), Some(plain('l')));
    assert_eq!(present(&mut t).len(), 4);
}

#[test]
fn print_string_does_not_wrap() {
    let mut t = started(3, 2);
    print_string(&mut t, 1, 0, "abcdef");
    assert_eq!(cell_at(&t, 2, 0), Some(plain('b')));
    assert_eq!(cell_at(&t, 0, 1), Some(plain(' ')));
    let updates = present(&mut t);
    assert_eq!(updates.len(), 2);
}

#[test]
fn print_string_near_the_largest_column_is_dropped() {
    let mut t = started(3, 1);
    print_string(&mut t, usize::MAX - 1, 0, "abcd");
    print_string(&mut t, 0, 0, "");
    assert!(present(&mut t).is_empty());
}

#[test]
fn styled_string_carries_its_attributes() {
    let mut t = started(4, 1);
    let fg = Attribute { color: Color::White, style: Style::Underline };
    let bg = Attribute { color: Color::Black, style: Style::Normal };
    print_string_styled(&mut t, 0, 0, fg, bg, "ok");
    assert_eq!(cell_at(&t, 1, 0), Some(Cell { ch: 'k', fg, bg }));
    assert_eq!(
        present(&mut t),
        vec![
            CellUpdate { x: 0, y: 0, cell: raw('o', 0x0208, 0x0001) },
            CellUpdate { x: 1, y: 0, cell: raw('k', 0x0208, 0x0001) },
        ]
    );
}

#[test]
fn print_ch_writes_one_cell() {
    let mut t = started(2, 2);
    let fg = Attribute { color: Color::Green, style: Style::Reverse };
    print_ch(&mut t, 1, 1, fg, default_attribute(), '#');
    assert_eq!(
        present(&mut t),
        vec![CellUpdate { x: 1, y: 1, cell: raw('#', 0x0403, 0) }]
    );
}

#[test]
fn print_cells_writes_a_run() {
    let mut t = started(4, 2);
    let cells = [plain('x'), plain('y'), plain('z')];
    print_cells(&mut t, 2, 1, &cells);
    assert_eq!(cell_at(&t, 2, 1), Some(plain('x')));
    assert_eq!(cell_at(&t, 3, 1), Some(plain('y')));
    assert_eq!(present(&mut t).len(), 2);
    print_cells(&mut t, usize::MAX, 0, &cells);
    assert!(present(&mut t).is_empty());
}

#[test]
fn cursor_is_set_and_hidden() {
    let mut t = started(2, 2);
    set_cursor(&mut t, 1, 0);
    assert_eq!(cursor(&t), Some((1, 0)));
    hide_cursor(&mut t);
    assert_eq!(cursor(&t), None);
}

#[test]
fn resize_gives_blank_grids_of_the_new_size() {
    let mut t = started(2, 2);
    print_string(&mut t, 0, 0, "ab");
    t.resize(3, 1);
    assert_eq!(width(&t), 3);
    assert_eq!(height(&t), 1);
    assert_eq!(cell_at(&t, 0, 0), Some(plain(' ')));
    assert!(present(&mut t).is_empty());
}
