//! A cursor over the fixed text grid, with wrap and clamp rules.
use vstd::prelude::*;

verus! {

/// Number of character columns in the text grid.
pub const COLS: i32 = 40;

/// Number of character rows in the text grid.
pub const ROWS: i32 = 15;

/// Width of a character cell in pixels.
pub const CELL_WIDTH: i32 = 8;

/// Height of a character cell in pixels.
pub const CELL_HEIGHT: i32 = 16;

/// A position `(column, row)` lies on the text grid.
pub open spec fn in_grid(p: (int, int)) -> bool {
    0 <= p.0 < COLS as int && 0 <= p.1 < ROWS as int
}

/// One row up, clamped at the first row.
pub open spec fn step_up(p: (int, int)) -> (int, int) {
    (p.0, if p.1 - 1 < 0 { 0 } else { p.1 - 1 })
}

/// One row down, clamped at the last row.
pub open spec fn step_down(p: (int, int)) -> (int, int) {
    (p.0, if p.1 + 1 >= ROWS as int { ROWS as int - 1 } else { p.1 + 1 })
}

/// One column left; from the first column, the end of the previous row,
/// or nowhere at the very start of the grid.
pub open spec fn step_left(p: (int, int)) -> (int, int) {
    if p.0 - 1 < 0 {
        if p.1 != 0 {
            step_up((COLS as int - 1, p.1))
        } else {
            (0, p.1)
        }
    } else {
        (p.0 - 1, p.1)
    }
}

/// One column right; past the last column, the start of the next row
/// (the row clamps as `step_down` does).
pub open spec fn step_right(p: (int, int)) -> (int, int) {
    if p.0 + 1 >= COLS as int {
        step_down((0, p.1))
    } else {
        (p.0 + 1, p.1)
    }
}

/// Start of the next row; nothing on the last row.
pub open spec fn step_enter(p: (int, int)) -> (int, int) {
    if p.1 != ROWS as int - 1 {
        step_down((0, p.1))
    } else {
        p
    }
}

/// `n` moves to the right from `p`.
pub open spec fn steps_right(p: (int, int), n: nat) -> (int, int)
    decreases n,
{
    if n == 0 {
        p
    } else {
        step_right(steps_right(p, (n - 1) as nat))
    }
}

/// A point in pixel coordinates.
#[derive(Clone, Copy, Debug, PartialEq, Eq, Structural)]
pub struct Point {
    pub x: i32,
    pub y: i32,
}

/// The cursor: a column and a row of the text grid.
#[derive(Clone, Copy, Debug, PartialEq, Eq, Structural)]
pub struct Cursor {
    x: i32,
    y: i32,
}

impl View for Cursor {
    type V = (int, int);

    closed spec fn view(&self) -> (int, int) {
        (self.x as int, self.y as int)
    }
}

impl Cursor {
    /// The cursor lies on the grid.
    pub open spec fn wf(&self) -> bool {
        in_grid(self@)
    }

    /// The cursor at the top-left cell.
    pub fn new() -> (r: Cursor)
        ensures
            r@ == (0int, 0int),
            r.wf(),
    {
        Cursor { x: 0, y: 0 }
    }

    /// The cursor at column `x`, row `y`, or `None` where that cell is off the grid.
    pub fn at(x: i32, y: i32) -> (r: Option<Cursor>)
        ensures
            in_grid((x as int, y as int)) <==> r is Some,
            r is Some ==> r->0@ == (x as int, y as int) && r->0.wf(),
    {
        if 0 <= x && x < COLS && 0 <= y && y < ROWS {
            Some(Cursor { x, y })
        } else {
            None
        }
    }

    /// The column.
    pub fn x(&self) -> (r: i32)
        ensures
            r as int == self@.0,
    {
        self.x
    }

    /// The row.
    pub fn y(&self) -> (r: i32)
        ensures
            r as int == self@.1,
    {
        self.y
    }

    /// Moves one row up, staying on the first row.
    pub fn up(&mut self)
        requires
            old(self).wf(),
        ensures
            final(self)@ == step_up(old(self)@),
            final(self).wf(),
    {
        if self.y > 0 {
            self.y = self.y - 1;
        }
    }

    /// Moves one row down, staying on the last row.
    pub fn down(&mut self)
        requires
            old(self).wf(),
        ensures
            final(self)@ == step_down(old(self)@),
            final(self).wf(),
    {
        if self.y + 1 < ROWS {
            self.y = self.y + 1;
        }
    }

    /// Moves one column left, wrapping to the end of the previous row;
    /// at the top-left cell it stays put.
    pub fn left(&mut self)
        requires
            old(self).wf(),
        ensures
            final(self)@ == step_left(old(self)@),
            final(self).wf(),
    {
        if self.x > 0 {
            self.x = self.x - 1;
        } else if self.y != 0 {
            self.x = COLS - 1;
            self.up();
        } else {
            self.x = 0;
        }
    }

    /// Moves one column right, wrapping to the start of the next row; the
    /// row stays on the last row.
    pub fn right(&mut self)
        requires
            old(self).wf(),
        ensures
            final(self)@ == step_right(old(self)@),
            final(self).wf(),
    {
        if self.x + 1 < COLS {
            self.x = self.x + 1;
        } else {
            self.x = 0;
            self.down();
        }
    }

    /// Moves to the start of the next row; on the last row, does nothing.
    pub fn enter(&mut self)
        requires
            old(self).wf(),
        ensures
            final(self)@ == step_enter(old(self)@),
            final(self).wf(),
    {
        if self.y != ROWS - 1 {
            self.x = 0;
            self.down();
        }
    }

    /// The top-left pixel of the cursor's cell.
    pub fn pos(&self) -> (r: Point)
        requires
            self.wf(),
        ensures
            r.x as int == self@.0 * CELL_WIDTH as int,
            r.y as int == self@.1 * CELL_HEIGHT as int,
    {
        Point { x: self.x * CELL_WIDTH, y: self.y * CELL_HEIGHT }
    }
}

/// Every move keeps a position on the grid, so the cursor never leaves it.
pub proof fn lemma_moves_stay_in_grid(p: (int, int))
    requires
        in_grid(p),
    ensures
        in_grid(step_up(p)),
        in_grid(step_down(p)),
        in_grid(step_left(p)),
        in_grid(step_right(p)),
        in_grid(step_enter(p)),
{
}

/// Within a row, `k` moves right from its start land on column `k`.
proof fn lemma_moves_along_row(y: int, k: nat)
    requires
        0 <= y < ROWS as int,
        k < COLS as nat,
    ensures
        steps_right((0, y), k) == (k as int, y),
    decreases k,
{
    if k > 0 {
        lemma_moves_along_row(y, (k - 1) as nat);
    }
}

/// From the start of any row but the last, a full row of moves right lands
/// at the start of the next row.
pub proof fn lemma_full_row_wrap(y: int)
    requires
        0 <= y < ROWS as int - 1,
    ensures
        steps_right((0, y), COLS as nat) == (0int, y + 1),
{
    lemma_moves_along_row(y, (COLS - 1) as nat);
}

/// A move right from the last cell of the grid goes back to the start of
/// the last row.
pub proof fn lemma_right_at_last_cell()
    ensures
        step_right((COLS as int - 1, ROWS as int - 1)) == (0int, ROWS as int - 1),
{
}

/// On the last row, enter leaves the cursor where it is.
pub proof fn lemma_enter_on_last_row(x: int)
    requires
        0 <= x < COLS as int,
    ensures
        step_enter((x, ROWS as int - 1)) == (x, ROWS as int - 1),
{
}

/// On any other row, enter goes to the start of the next row.
pub proof fn lemma_enter_elsewhere(x: int, y: int)
    requires
        in_grid((x, y)),
        y != ROWS as int - 1,
    ensures
        step_enter((x, y)) == (0int, y + 1),
{
}

} // verus!
