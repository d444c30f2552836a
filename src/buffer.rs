//! The double-buffered grid of cells and the lifecycle of a terminal session.
use crate::attr::{attr_word, Attribute, Color, Style};
use crate::event::Event;
use crate::raw::{error_of, tb_cell, tb_error};
use vstd::prelude::*;

verus! {

/// One character position of the grid, with its attributes.
#[derive(Clone, Copy, Debug, PartialEq, Eq, Structural)]
pub struct Cell {
    pub ch: char,
    pub fg: Attribute,
    pub bg: Attribute,
}

/// The raw record of a cell: its code point and the words of its attributes.
pub open spec fn raw_of(c: Cell) -> tb_cell {
    tb_cell { ch: c.ch as u32, fg: attr_word(c.fg), bg: attr_word(c.bg) }
}

impl Cell {
    /// The raw record that the backend takes for this cell.
    pub fn as_raw(&self) -> (r: tb_cell)
        ensures
            r == raw_of(*self),
    {
        tb_cell { ch: self.ch as u32, fg: self.fg.as_u16(), bg: self.bg.as_u16() }
    }
}

/// The default attribute: default color, no style.
pub open spec fn default_attr() -> Attribute {
    Attribute { color: Color::Default, style: Style::Normal }
}

/// The cell that a cleared grid holds: a blank with default attributes.
pub open spec fn blank_cell() -> Cell {
    Cell { ch: ' ', fg: default_attr(), bg: default_attr() }
}

/// A grid of `n` blank cells.
pub open spec fn blank_grid(n: nat) -> Seq<Cell> {
    Seq::new(n, |i: int| blank_cell())
}

/// A cell that changed since the last flush, with its position.
#[derive(Clone, Copy, Debug, PartialEq, Eq, Structural)]
pub struct CellUpdate {
    pub x: usize,
    pub y: usize,
    pub cell: tb_cell,
}

/// Why a session could not start.
#[derive(Clone, Copy, Debug, PartialEq, Eq, Structural)]
pub enum InitError {
    /// The session was active already.
    AlreadyActive,
    /// The terminal's grid has more cells than memory can index.
    TooLarge,
    /// The backend could not claim the terminal, for the reason given.
    Backend(tb_error),
    /// The backend returned a negative status that names no known reason.
    Unknown(i32),
}

/// The state of a terminal session as a mathematical value.
pub ghost struct TerminalView {
    pub width: nat,
    pub height: nat,
    /// Pending cells, row after row.
    pub back: Seq<Cell>,
    /// The cells as last flushed to the terminal, row after row.
    pub front: Seq<Cell>,
    /// Cursor position; `None` when hidden.
    pub cursor: Option<(usize, usize)>,
    /// Whether the session holds the terminal.
    pub active: bool,
}

/// A terminal session: the back and front grids, the cursor, and whether the
/// session holds the terminal. The grids are `width * height` cells, row after row.
pub struct Terminal {
    width: usize,
    height: usize,
    back: Vec<Cell>,
    front: Vec<Cell>,
    cursor: Option<(usize, usize)>,
    active: bool,
}

impl View for Terminal {
    type V = TerminalView;

    closed spec fn view(&self) -> TerminalView {
        TerminalView {
            width: self.width as nat,
            height: self.height as nat,
            back: self.back@,
            front: self.front@,
            cursor: self.cursor,
            active: self.active,
        }
    }
}

/// Both grids hold `width * height` cells.
pub open spec fn grids_sized(v: TerminalView) -> bool {
    &&& v.back.len() == v.width * v.height
    &&& v.front.len() == v.width * v.height
}

/// Index of position (`x`, `y`) in a grid `w` cells wide.
pub open spec fn index_of(w: nat, x: int, y: int) -> int {
    y * w + x
}

/// `grid` with the cell at (`x`, `y`) replaced by `c`; unchanged where the
/// position is outside the `w` by `h` grid.
pub open spec fn put(grid: Seq<Cell>, w: nat, h: nat, x: int, y: int, c: Cell) -> Seq<Cell> {
    if 0 <= x < w && 0 <= y < h {
        grid.update(index_of(w, x, y), c)
    } else {
        grid
    }
}

/// `grid` after `cells` are written one by one into row `y` from column `x`
/// on, one column further for each cell.
pub open spec fn put_run(grid: Seq<Cell>, w: nat, h: nat, x: int, y: int, cells: Seq<Cell>) -> Seq<
    Cell,
>
    decreases cells.len(),
{
    if cells.len() == 0 {
        grid
    } else {
        put(
            put_run(grid, w, h, x, y, cells.drop_last()),
            w,
            h,
            x + cells.len() - 1,
            y,
            cells.last(),
        )
    }
}

proof fn lemma_index_in_grid(w: nat, h: nat, x: nat, y: nat)
    requires
        x < w,
        y < h,
    ensures
        0 <= index_of(w, x as int, y as int) < w * h,
{
    assert(y * w + x < w * h) by (nonlinear_arith)
        requires
            x < w,
            y < h,
    ;
}

proof fn lemma_put_len(grid: Seq<Cell>, w: nat, h: nat, x: int, y: int, c: Cell)
    requires
        grid.len() == w * h,
    ensures
        put(grid, w, h, x, y, c).len() == grid.len(),
{
    if 0 <= x < w && 0 <= y < h {
        lemma_index_in_grid(w, h, x as nat, y as nat);
    }
}

/// A vector of `n` blank cells.
fn new_blank_grid(n: usize) -> (r: Vec<Cell>)
    ensures
        r@ == blank_grid(n as nat),
{
    let blank = Cell { ch: ' ', fg: default_attribute(), bg: default_attribute() };
    let mut r: Vec<Cell> = Vec::new();
    let mut i: usize = 0;
    while i < n
        invariant
            i <= n,
            blank == blank_cell(),
            r@ == blank_grid(i as nat),
        decreases n - i,
    {
        r.push(blank);
        i = i + 1;
        assert(r@ =~= blank_grid(i as nat));
    }
    r
}

/// The default attribute: default color, no style.
pub fn default_attribute() -> (r: Attribute)
    ensures
        r == default_attr(),
{
    Attribute { color: Color::Default, style: Style::Normal }
}

impl Terminal {
    /// A session that does not hold the terminal yet, with empty grids and
    /// the cursor hidden.
    pub fn new() -> (r: Terminal)
        ensures
            r@.width == 0,
            r@.height == 0,
            r@.back.len() == 0,
            r@.front.len() == 0,
            r@.cursor is None,
            !r@.active,
            grids_sized(r@),
    {
        Terminal {
            width: 0,
            height: 0,
            back: Vec::new(),
            front: Vec::new(),
            cursor: None,
            active: false,
        }
    }

    /// Gives the session grids of `w` by `h` blank cells: both the pending
    /// cells and the flushed ones.
    pub fn resize(&mut self, w: usize, h: usize)
        requires
            w * h <= usize::MAX,
        ensures
            grids_sized(final(self)@),
            final(self)@ == (TerminalView {
                width: w as nat,
                height: h as nat,
                back: blank_grid(w as nat * h as nat),
                front: blank_grid(w as nat * h as nat),
                ..old(self)@
            }),
    {
        let n = w * h;
        self.width = w;
        self.height = h;
        self.back = new_blank_grid(n);
        self.front = new_blank_grid(n);
    }
}

/// Width of the grid, in cells.
pub fn width(t: &Terminal) -> (r: usize)
    ensures
        r == t@.width,
{
    t.width
}

/// Height of the grid, in cells.
pub fn height(t: &Terminal) -> (r: usize)
    ensures
        r == t@.height,
{
    t.height
}

/// Resets every pending cell to the blank cell. Nothing reaches the terminal
/// before the next flush.
pub fn clear(t: &mut Terminal)
    requires
        grids_sized(old(t)@),
    ensures
        grids_sized(final(t)@),
        final(t)@ == (TerminalView { back: blank_grid(old(t)@.back.len()), ..old(t)@ }),
{
    let n = t.back.len();
    t.back = new_blank_grid(n);
}

/// Writes `cell` at (`x`, `y`) into the pending grid; a position outside
/// the grid leaves it unchanged.
pub fn set_cell(t: &mut Terminal, x: usize, y: usize, cell: &Cell)
    requires
        grids_sized(old(t)@),
    ensures
        grids_sized(final(t)@),
        final(t)@ == (TerminalView {
            back: put(old(t)@.back, old(t)@.width, old(t)@.height, x as int, y as int, *cell),
            ..old(t)@
        }),
{
    if x < t.width && y < t.height {
        proof {
            lemma_index_in_grid(t.width as nat, t.height as nat, x as nat, y as nat);
            assert(y * t.width + x < t.back.len());
        }
        let i = y * t.width + x;
        t.back.set(i, *cell);
    }
}

/// The update that flushes cell `i` of `back`, in a grid `w` cells wide.
pub open spec fn update_at(back: Seq<Cell>, w: nat, i: int) -> CellUpdate {
    CellUpdate { x: (i % (w as int)) as usize, y: (i / (w as int)) as usize, cell: raw_of(back[i]) }
}

/// The updates for the cells among the first `n` where `back` differs from
/// `front`, in grid order.
pub open spec fn diff_prefix(back: Seq<Cell>, front: Seq<Cell>, w: nat, n: nat) -> Seq<CellUpdate>
    decreases n,
{
    if n == 0 {
        seq![]
    } else {
        let done = diff_prefix(back, front, w, (n - 1) as nat);
        if back[n - 1] != front[n - 1] {
            done.push(update_at(back, w, n - 1))
        } else {
            done
        }
    }
}

/// The updates that a flush of the session emits: one for each cell whose
/// pending value differs from the flushed one, in grid order.
pub open spec fn pending_updates(v: TerminalView) -> Seq<CellUpdate> {
    diff_prefix(v.back, v.front, v.width, v.back.len())
}

/// Flushes the pending grid: returns the cells that changed since the last
/// flush, in grid order, for the backend to draw, and records the pending
/// grid as the flushed one.
pub fn present(t: &mut Terminal) -> (r: Vec<CellUpdate>)
    requires
        grids_sized(old(t)@),
    ensures
        grids_sized(final(t)@),
        r@ == pending_updates(old(t)@),
        final(t)@ == (TerminalView { front: old(t)@.back, ..old(t)@ }),
{
    let n = t.back.len();
    let mut updates: Vec<CellUpdate> = Vec::new();
    let mut i: usize = 0;
    while i < n
        invariant
            n == old(t)@.back.len(),
            grids_sized(old(t)@),
            i <= n,
            t@.width == old(t)@.width,
            t@.height == old(t)@.height,
            t@.back == old(t)@.back,
            t@.cursor == old(t)@.cursor,
            t@.active == old(t)@.active,
            t@.front.len() == n,
            forall|j: int| 0 <= j < i ==> t@.front[j] == old(t)@.back[j],
            forall|j: int| i <= j < n ==> t@.front[j] == old(t)@.front[j],
            updates@ == diff_prefix(old(t)@.back, old(t)@.front, old(t)@.width, i as nat),
        decreases n - i,
    {
        if t.back[i] != t.front[i] {
            let c = t.back[i];
            let w = t.width;
            assert(w > 0) by (nonlinear_arith)
                requires
                    i < n,
                    n == w * t.height,
            ;
            t.front.set(i, c);
            updates.push(CellUpdate { x: i % w, y: i / w, cell: c.as_raw() });
        }
        i = i + 1;
    }
    assert(t@.front =~= old(t)@.back);
    updates
}

proof fn lemma_diff_of_equal_grids(g: Seq<Cell>, w: nat, n: nat)
    requires
        n <= g.len(),
    ensures
        diff_prefix(g, g, w, n) == Seq::<CellUpdate>::empty(),
    decreases n,
{
    if n > 0 {
        lemma_diff_of_equal_grids(g, w, (n - 1) as nat);
    }
}

/// A second flush with no writes in between emits no updates: the state
/// that a flush leaves has nothing pending.
pub proof fn lemma_present_idempotent(before: TerminalView, after: TerminalView)
    requires
        after == (TerminalView { front: before.back, ..before }),
    ensures
        pending_updates(after) == Seq::<CellUpdate>::empty(),
{
    lemma_diff_of_equal_grids(after.back, after.width, after.back.len());
}

/// Writes a cell of character `ch` with attributes `fg` and `bg` at
/// (`x`, `y`) into the pending grid; a position outside the grid leaves it
/// unchanged.
pub fn print_ch(t: &mut Terminal, x: usize, y: usize, fg: Attribute, bg: Attribute, ch: char)
    requires
        grids_sized(old(t)@),
    ensures
        grids_sized(final(t)@),
        final(t)@ == (TerminalView {
            back: put(
                old(t)@.back,
                old(t)@.width,
                old(t)@.height,
                x as int,
                y as int,
                Cell { ch, fg, bg },
            ),
            ..old(t)@
        }),
{
    set_cell(t, x, y, &Cell { ch, fg, bg });
}

/// Writes `cells` into row `y` of the pending grid, the first at column `x`
/// and each next one a column further; cells that fall outside the grid are
/// dropped.
pub fn print_cells(t: &mut Terminal, x: usize, y: usize, cells: &[Cell])
    requires
        grids_sized(old(t)@),
    ensures
        grids_sized(final(t)@),
        final(t)@ == (TerminalView {
            back: put_run(old(t)@.back, old(t)@.width, old(t)@.height, x as int, y as int, cells@),
            ..old(t)@
        }),
{
    let mut i: usize = 0;
    while i < cells.len()
        invariant
            i <= cells@.len(),
            grids_sized(t@),
            t@ == (TerminalView {
                back: put_run(
                    old(t)@.back,
                    old(t)@.width,
                    old(t)@.height,
                    x as int,
                    y as int,
                    cells@.subrange(0, i as int),
                ),
                ..old(t)@
            }),
        decreases cells@.len() - i,
    {
        proof {
            lemma_put_len(t@.back, t@.width, t@.height, x + i, y as int, cells@[i as int]);
        }
        match x.checked_add(i) {
            Some(cx) => set_cell(t, cx, y, &cells[i]),
            None => {},
        }
        assert(cells@.subrange(0, i + 1).drop_last() =~= cells@.subrange(0, i as int));
        i = i + 1;
    }
    assert(cells@.subrange(0, cells@.len() as int) =~= cells@);
}

/// `grid` after the characters of `text` are written one by one into row
/// `y` from column `x` on, one column further for each, all with attributes
/// `fg` and `bg`.
pub open spec fn put_text(
    grid: Seq<Cell>,
    w: nat,
    h: nat,
    x: int,
    y: int,
    text: Seq<char>,
    fg: Attribute,
    bg: Attribute,
) -> Seq<Cell>
    decreases text.len(),
{
    if text.len() == 0 {
        grid
    } else {
        put(
            put_text(grid, w, h, x, y, text.drop_last(), fg, bg),
            w,
            h,
            x + text.len() - 1,
            y,
            Cell { ch: text.last(), fg, bg },
        )
    }
}

/// Writes the characters of `s` into row `y` of the pending grid, the first
/// at column `x` and each next one a column further, all with attributes
/// `fg` and `bg`; characters that fall outside the grid are dropped.
pub fn print_string_styled(
    t: &mut Terminal,
    x: usize,
    y: usize,
    fg: Attribute,
    bg: Attribute,
    s: &str,
)
    requires
        grids_sized(old(t)@),
    ensures
        grids_sized(final(t)@),
        final(t)@ == (TerminalView {
            back: put_text(
                old(t)@.back,
                old(t)@.width,
                old(t)@.height,
                x as int,
                y as int,
                s@,
                fg,
                bg,
            ),
            ..old(t)@
        }),
{
    // The column of the next character, while it is representable.
    let mut col: Option<usize> = Some(x);
    for ch in it: s.chars()
        invariant
            it.seq() == s@,
            col == (if x + it.index() <= usize::MAX {
                Some((x + it.index()) as usize)
            } else {
                None::<usize>
            }),
            grids_sized(t@),
            t@ == (TerminalView {
                back: put_text(
                    old(t)@.back,
                    old(t)@.width,
                    old(t)@.height,
                    x as int,
                    y as int,
                    s@.subrange(0, it.index() as int),
                    fg,
                    bg,
                ),
                ..old(t)@
            }),
    {
        let ghost i = it.index();
        let cell = Cell { ch, fg, bg };
        proof {
            lemma_put_len(t@.back, t@.width, t@.height, x + i, y as int, cell);
        }
        match col {
            Some(c) => {
                set_cell(t, c, y, &cell);
                col = c.checked_add(1);
            },
            None => {},
        }
        assert(s@.subrange(0, i + 1).drop_last() =~= s@.subrange(0, i as int));
    }
    assert(s@.subrange(0, s@.len() as int) =~= s@);
}

/// Writes the characters of `s` into row `y` of the pending grid as
/// `print_string_styled` does, with the default attribute for both colors.
pub fn print_string(t: &mut Terminal, x: usize, y: usize, s: &str)
    requires
        grids_sized(old(t)@),
    ensures
        grids_sized(final(t)@),
        final(t)@ == (TerminalView {
            back: put_text(
                old(t)@.back,
                old(t)@.width,
                old(t)@.height,
                x as int,
                y as int,
                s@,
                default_attr(),
                default_attr(),
            ),
            ..old(t)@
        }),
{
    let default = default_attribute();
    print_string_styled(t, x, y, default, default, s);
}

/// Places the cursor at (`x`, `y`).
pub fn set_cursor(t: &mut Terminal, x: usize, y: usize)
    ensures
        grids_sized(old(t)@) ==> grids_sized(final(t)@),
        final(t)@ == (TerminalView { cursor: Some((x, y)), ..old(t)@ }),
{
    t.cursor = Some((x, y));
}

/// Hides the cursor; the backend is told with `TB_HIDE_CURSOR` for both
/// coordinates.
pub fn hide_cursor(t: &mut Terminal)
    ensures
        grids_sized(old(t)@) ==> grids_sized(final(t)@),
        final(t)@ == (TerminalView { cursor: None, ..old(t)@ }),
{
    t.cursor = None;
}

/// The cursor position, or `None` when hidden.
pub fn cursor(t: &Terminal) -> (r: Option<(usize, usize)>)
    ensures
        r == t@.cursor,
{
    t.cursor
}

/// The pending cell at (`x`, `y`), or `None` outside the grid.
pub fn cell_at(t: &Terminal, x: usize, y: usize) -> (r: Option<Cell>)
    requires
        grids_sized(t@),
    ensures
        r == (if x < t@.width && y < t@.height {
            Some(t@.back[index_of(t@.width, x as int, y as int)])
        } else {
            None::<Cell>
        }),
{
    if x < t.width && y < t.height {
        proof {
            lemma_index_in_grid(t.width as nat, t.height as nat, x as nat, y as nat);
            assert(y * t.width + x < t.back.len());
        }
        Some(t.back[y * t.width + x])
    } else {
        None
    }
}

/// Whether the session holds the terminal.
pub fn is_active(t: &Terminal) -> (r: bool)
    ensures
        r == t@.active,
{
    t.active
}

/// The error that a failed start reports for the backend's status `status`.
pub open spec fn init_error_of(status: i32) -> InitError {
    match error_of(status) {
        Some(e) => InitError::Backend(e),
        None => InitError::Unknown(status),
    }
}

/// The state of a session just started on a terminal of `w` by `h` cells:
/// active, both grids blank, the cursor hidden.
pub open spec fn started(w: nat, h: nat) -> TerminalView {
    TerminalView {
        width: w,
        height: h,
        back: blank_grid(w * h),
        front: blank_grid(w * h),
        cursor: None,
        active: true,
    }
}

/// Starts the session, given the status that the backend returned when asked
/// to claim the terminal and the terminal's size. A session that is active
/// already is refused; a negative status is an error, and so is a size whose
/// grid has more cells than memory can index. On success both grids are `w`
/// by `h` blank cells and the cursor is hidden.
pub fn init(t: &mut Terminal, status: i32, w: usize, h: usize) -> (r: Result<(), InitError>)
    ensures
        old(t)@.active ==> r == Err::<(), InitError>(InitError::AlreadyActive) && final(t)@ == old(
            t,
        )@,
        !old(t)@.active && status < 0 ==> r == Err::<(), InitError>(init_error_of(status))
            && final(t)@ == old(t)@,
        !old(t)@.active && status >= 0 && w * h > usize::MAX ==> r == Err::<(), InitError>(
            InitError::TooLarge,
        ) && final(t)@ == old(t)@,
        !old(t)@.active && status >= 0 && w * h <= usize::MAX ==> r is Ok && final(t)@ == started(
            w as nat,
            h as nat,
        ),
        grids_sized(old(t)@) ==> grids_sized(final(t)@),
{
    if t.active {
        return Err(InitError::AlreadyActive);
    }
    if status < 0 {
        return match tb_error::from_code(status) {
            Some(e) => Err(InitError::Backend(e)),
            None => Err(InitError::Unknown(status)),
        };
    }
    if w.checked_mul(h).is_none() {
        return Err(InitError::TooLarge);
    }
    t.resize(w, h);
    t.cursor = None;
    t.active = true;
    Ok(())
}

/// Ends the session; the grids and the cursor are kept. A session that is
/// not active is left as it is.
pub fn shutdown(t: &mut Terminal)
    ensures
        grids_sized(old(t)@) ==> grids_sized(final(t)@),
        final(t)@ == (TerminalView { active: false, ..old(t)@ }),
{
    t.active = false;
}

/// A dimension reported by the backend, with a negative value read as 0.
pub open spec fn dimension(v: i32) -> nat {
    if v < 0 {
        0
    } else {
        v as nat
    }
}

/// Whether `e` reports a terminal size whose grid memory can index.
pub open spec fn is_followed_resize(e: Event) -> bool {
    e matches Event::ResizeEvent(w, h) && dimension(w) * dimension(h) <= usize::MAX
}

/// Keeps the session in step with an input event: a resize gives it blank
/// grids of the new size, a negative dimension read as 0. A resize whose
/// grid memory cannot index, and every other event, leave it as it is.
pub fn follow_event(t: &mut Terminal, e: Event)
    ensures
        grids_sized(old(t)@) ==> grids_sized(final(t)@),
        is_followed_resize(e) ==> final(t)@ == (TerminalView {
            width: dimension(e->ResizeEvent_0),
            height: dimension(e->ResizeEvent_1),
            back: blank_grid(dimension(e->ResizeEvent_0) * dimension(e->ResizeEvent_1)),
            front: blank_grid(dimension(e->ResizeEvent_0) * dimension(e->ResizeEvent_1)),
            ..old(t)@
        }),
        !is_followed_resize(e) ==> final(t)@ == old(t)@,
{
    if let Event::ResizeEvent(w, h) = e {
        let w: usize = if w < 0 {
            0
        } else {
            w as usize
        };
        let h: usize = if h < 0 {
            0
        } else {
            h as usize
        };
        if w.checked_mul(h).is_some() {
            t.resize(w, h);
        }
    }
}

/// Runs `f` inside a session: starts it as `init` does and, if that
/// succeeds, runs `f` once on the started session and then ends the session,
/// whatever `f` returned. `f` returns whether it completed normally; the
/// result is `Ok` of that answer, and the session is left as `f` left it, made
/// inactive. If the start fails, `f` does not run and the error is returned.
pub fn with_term<F: FnOnce(&mut Terminal) -> bool>(
    t: &mut Terminal,
    status: i32,
    w: usize,
    h: usize,
    f: F,
) -> (r: Result<bool, InitError>)
    requires
        forall|s: &mut Terminal| (*s)@.active && grids_sized((*s)@) ==> f.requires((s,)),
    ensures
        old(t)@.active ==> r == Err::<bool, InitError>(InitError::AlreadyActive) && final(t)@ == old(
            t,
        )@,
        !old(t)@.active && status < 0 ==> r == Err::<bool, InitError>(init_error_of(status))
            && final(t)@ == old(t)@,
        !old(t)@.active && status >= 0 && w * h > usize::MAX ==> r == Err::<bool, InitError>(
            InitError::TooLarge,
        ) && final(t)@ == old(t)@,
        !old(t)@.active && status >= 0 && w * h <= usize::MAX ==> exists|s: &mut Terminal, c: bool|
            {
                &&& (*s)@ == started(w as nat, h as nat)
                &&& f.ensures((s,), c)
                &&& r == Ok::<bool, InitError>(c)
                &&& final(t)@ == (TerminalView { active: false, ..(*final(s))@ })
            },
{
    match init(t, status, w, h) {
        Err(e) => Err(e),
        Ok(()) => {
            let completed = f(t);
            shutdown(t);
            Ok(completed)
        },
    }
}

} // verus!
