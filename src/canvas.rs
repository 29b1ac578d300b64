//! The frame buffer: a fixed grid of 16-bit 5/6/5 RGB samples with a single
//! dirty flag for the whole buffer.
use vstd::prelude::*;
use embedded_graphics::fonts::{Font, Font8x16};

verus! {

/// Width of the pixel grid.
pub const WIDTH: usize = 320;

/// Height of the pixel grid.
pub const HEIGHT: usize = 240;

/// Number of samples in the pixel grid.
pub const GRID_LEN: usize = 76800;

/// Width of a glyph in pixels.
pub const GLYPH_WIDTH: usize = 8;

/// Height of a glyph in pixels.
pub const GLYPH_HEIGHT: usize = 16;

/// Black, as a 5/6/5 sample.
pub const BLACK: u16 = 0x0000;

/// White, as a 5/6/5 sample.
pub const WHITE: u16 = 0xffff;

/// Full red, as a 5/6/5 sample.
pub const RED: u16 = 0xf800;

/// Full green, as a 5/6/5 sample.
pub const GREEN: u16 = 0x07e0;

/// Full blue, as a 5/6/5 sample.
pub const BLUE: u16 = 0x001f;

/// Whether pixel `(x, y)` of the 8x16 font's glyph for the character `c` is lit.
pub uninterp spec fn font_pixel(c: u8, x: u32, y: u32) -> bool;

/// Relies on embedded-graphics' `Font::character_pixel` for `Font8x16`: whether
/// pixel `(x, y)` of the glyph for `c` is lit, which depends on the arguments alone.
#[verifier::external_body]
fn glyph_pixel(c: u8, x: u32, y: u32) -> (r: bool)
    requires
        x < 8,
        y < 16,
    ensures
        r == font_pixel(c, x, y),
{
    Font8x16::character_pixel(c as char, x, y)
}

/// The colours that text is drawn with.
#[derive(Clone, Copy, Debug, PartialEq, Eq, Structural)]
pub struct Style {
    pub fg: u16,
    pub bg: u16,
}

/// A drawing fell outside the pixel grid.
#[derive(Clone, Copy, Debug, PartialEq, Eq, Structural)]
pub enum RenderError {
    OutOfBounds,
}

/// What a canvas holds: its samples, row-major, and whether they have
/// changed since they were last handed out.
pub struct CanvasState {
    pub grid: Seq<u16>,
    pub dirty: bool,
}

/// A grid with every sample set to `color`.
pub open spec fn filled(color: u16) -> Seq<u16> {
    Seq::new(GRID_LEN as nat, |i: int| color)
}

/// A glyph cell with its top-left pixel at `(x, y)` lies wholly on the grid.
pub open spec fn cell_fits(x: int, y: int) -> bool {
    0 <= x && x + GLYPH_WIDTH as int <= WIDTH as int && 0 <= y && y + GLYPH_HEIGHT as int
        <= HEIGHT as int
}

/// Pixel `(x, y)` lies in the glyph cell whose top-left pixel is `(cx, cy)`.
pub open spec fn in_cell(x: int, y: int, cx: int, cy: int) -> bool {
    cx <= x < cx + GLYPH_WIDTH as int && cy <= y < cy + GLYPH_HEIGHT as int
}

/// The colour of pixel `(dx, dy)` of the glyph for `c` drawn in `style`.
pub open spec fn glyph_color(c: u8, dx: int, dy: int, style: Style) -> u16 {
    if font_pixel(c, dx as u32, dy as u32) {
        style.fg
    } else {
        style.bg
    }
}

/// The sample of `grid` at pixel `(x, y)`.
pub open spec fn sample(grid: Seq<u16>, x: int, y: int) -> u16 {
    grid[y * WIDTH as int + x]
}

/// Every sample overwritten with `color`; the canvas becomes dirty.
pub open spec fn clear_op(s: CanvasState, color: u16) -> CanvasState {
    CanvasState { grid: filled(color), dirty: true }
}

/// The glyph for `c` drawn in `style` with its top-left pixel at `(x, y)`:
/// the cell takes the glyph's colours, the rest keeps its samples, and the
/// canvas becomes dirty.
pub open spec fn glyph_op(s: CanvasState, c: u8, x: int, y: int, style: Style) -> CanvasState {
    CanvasState {
        grid: Seq::new(
            s.grid.len(),
            |i: int|
                if in_cell(i % WIDTH as int, i / WIDTH as int, x, y) {
                    glyph_color(c, i % WIDTH as int - x, i / WIDTH as int - y, style)
                } else {
                    s.grid[i]
                },
        ),
        dirty: true,
    }
}

/// Taking the pending transfer: the whole grid if the canvas is dirty,
/// nothing otherwise; the canvas is clean afterwards.
pub open spec fn take_op(s: CanvasState) -> (CanvasState, Option<Seq<u16>>) {
    (CanvasState { grid: s.grid, dirty: false }, if s.dirty {
        Some(s.grid)
    } else {
        None
    })
}

/// The frame buffer.
pub struct PixelCanvas {
    pixels: Vec<u16>,
    dirty: bool,
}

impl View for PixelCanvas {
    type V = CanvasState;

    closed spec fn view(&self) -> CanvasState {
        CanvasState { grid: self.pixels@, dirty: self.dirty }
    }
}

impl PixelCanvas {
    /// The grid has its fixed size.
    pub open spec fn wf(&self) -> bool {
        self@.grid.len() == GRID_LEN
    }

    /// What a new canvas holds.
    pub open spec fn new_state() -> CanvasState {
        CanvasState { grid: filled(BLACK), dirty: false }
    }

    /// A black, clean canvas.
    pub fn new() -> (r: PixelCanvas)
        ensures
            r.wf(),
            r@ == Self::new_state(),
    {
        let mut pixels: Vec<u16> = Vec::new();
        let mut i: usize = 0;
        while i < GRID_LEN
            invariant
                i <= GRID_LEN,
                pixels@.len() == i,
                forall|j: int| 0 <= j < i ==> pixels@[j] == BLACK,
            decreases GRID_LEN - i,
        {
            pixels.push(BLACK);
            i = i + 1;
        }
        assert(pixels@ =~= filled(BLACK));
        PixelCanvas { pixels, dirty: false }
    }

    /// Whether the grid changed since it was last handed out.
    pub fn is_dirty(&self) -> (r: bool)
        ensures
            r == self@.dirty,
    {
        self.dirty
    }

    /// The sample at pixel `(x, y)`.
    pub fn pixel(&self, x: usize, y: usize) -> (r: u16)
        requires
            self.wf(),
            x < WIDTH,
            y < HEIGHT,
        ensures
            r == sample(self@.grid, x as int, y as int),
    {
        self.pixels[y * WIDTH + x]
    }

    /// All samples, row-major.
    pub fn pixels(&self) -> (r: &[u16])
        ensures
            r@ == self@.grid,
    {
        self.pixels.as_slice()
    }

    /// Overwrites every sample with `color` and marks the canvas dirty.
    pub fn clear(&mut self, color: u16)
        requires
            old(self).wf(),
        ensures
            final(self).wf(),
            final(self)@ == clear_op(old(self)@, color),
    {
        let mut i: usize = 0;
        while i < self.pixels.len()
            invariant
                self.pixels@.len() == GRID_LEN,
                i <= GRID_LEN,
                forall|j: int| 0 <= j < i ==> self.pixels@[j] == color,
            decreases GRID_LEN - i,
        {
            self.pixels.set(i, color);
            i = i + 1;
        }
        assert(self.pixels@ =~= filled(color));
        self.dirty = true;
    }

    /// Draws the glyph for `c` in `style` with its top-left pixel at `(x, y)`,
    /// overwriting the whole cell, and marks the canvas dirty. Fails, changing
    /// nothing, where the cell does not lie wholly on the grid.
    pub fn draw_glyph(&mut self, c: u8, x: i32, y: i32, style: Style) -> (r: Result<
        (),
        RenderError,
    >)
        requires
            old(self).wf(),
        ensures
            final(self).wf(),
            r is Ok <==> cell_fits(x as int, y as int),
            r is Ok ==> final(self)@ == glyph_op(old(self)@, c, x as int, y as int, style),
            r is Err ==> final(self)@ == old(self)@,
    {
        if x < 0 || y < 0 || x > (WIDTH - GLYPH_WIDTH) as i32 || y > (HEIGHT - GLYPH_HEIGHT) as i32 {
            return Err(RenderError::OutOfBounds);
        }
        let cx = x as usize;
        let cy = y as usize;
        let ghost before = self.pixels@;
        let mut dy: usize = 0;
        while dy < GLYPH_HEIGHT
            invariant
                self.pixels@.len() == GRID_LEN,
                before.len() == GRID_LEN,
                cell_fits(cx as int, cy as int),
                cx == x,
                cy == y,
                dy <= GLYPH_HEIGHT,
                forall|px: int, py: int|
                    0 <= px < WIDTH && 0 <= py < HEIGHT ==> #[trigger] sample(self.pixels@, px, py)
                        == if in_cell(px, py, cx as int, cy as int) && py < cy + dy {
                        glyph_color(c, px - cx, py - cy, style)
                    } else {
                        sample(before, px, py)
                    },
            decreases GLYPH_HEIGHT - dy,
        {
            let mut dx: usize = 0;
            while dx < GLYPH_WIDTH
                invariant
                    self.pixels@.len() == GRID_LEN,
                    before.len() == GRID_LEN,
                    cell_fits(cx as int, cy as int),
                    dy < GLYPH_HEIGHT,
                    dx <= GLYPH_WIDTH,
                    forall|px: int, py: int|
                        0 <= px < WIDTH && 0 <= py < HEIGHT ==> #[trigger] sample(
                            self.pixels@,
                            px,
                            py,
                        ) == if in_cell(px, py, cx as int, cy as int) && (py < cy + dy || (py
                            == cy + dy && px < cx + dx)) {
                            glyph_color(c, px - cx, py - cy, style)
                        } else {
                            sample(before, px, py)
                        },
                decreases GLYPH_WIDTH - dx,
            {
                let lit = glyph_pixel(c, dx as u32, dy as u32);
                let color = if lit {
                    style.fg
                } else {
                    style.bg
                };
                let ghost prev = self.pixels@;
                let idx = (cy + dy) * WIDTH + (cx + dx);
                self.pixels.set(idx, color);
                assert forall|px: int, py: int|
                    0 <= px < WIDTH && 0 <= py < HEIGHT implies #[trigger] sample(
                        self.pixels@,
                        px,
                        py,
                    ) == if px == cx + dx && py == cy + dy {
                        color
                    } else {
                        sample(prev, px, py)
                    } by {
                    assert(py * WIDTH as int + px < GRID_LEN);
                    assert(py * WIDTH as int + px >= 0);
                    if px == cx + dx && py == cy + dy {
                    } else {
                        assert(py * WIDTH as int + px != idx as int);
                    }
                    let _ = sample(prev, px, py);
                }
                dx = dx + 1;
            }
            dy = dy + 1;
        }
        proof {
            let expect = glyph_op(CanvasState { grid: before, dirty: false }, c, x as int, y as int, style).grid;
            assert forall|i: int| 0 <= i < GRID_LEN implies self.pixels@[i] == expect[i] by {
                let px = i % WIDTH as int;
                let py = i / WIDTH as int;
                assert(i == py * WIDTH as int + px);
                assert(0 <= px < WIDTH && 0 <= py < HEIGHT);
                let _ = sample(self.pixels@, px, py);
            }
            assert(self.pixels@ =~= expect);
        }
        self.dirty = true;
        Ok(())
    }

    /// Hands out the whole grid and marks the canvas clean if it was dirty;
    /// hands out nothing otherwise.
    pub fn take_pending_transfer(&mut self) -> (r: Option<&[u16]>)
        requires
            old(self).wf(),
        ensures
            final(self).wf(),
            final(self)@ == take_op(old(self)@).0,
            r is Some <==> take_op(old(self)@).1 is Some,
            r is Some ==> r->0@ == old(self)@.grid,
    {
        if self.dirty {
            self.dirty = false;
            Some(self.pixels.as_slice())
        } else {
            None
        }
    }
}

/// After a clear, the next take hands out the cleared grid, and an
/// immediate second take hands out nothing.
pub proof fn lemma_take_after_clear(s: CanvasState, color: u16)
    ensures
        take_op(clear_op(s, color)).1 == Some(filled(color)),
        take_op(take_op(clear_op(s, color)).0).1 is None,
{
}

/// Once a take has handed out nothing, any clear or glyph drawing makes the
/// next take hand out the grid again.
pub proof fn lemma_mutation_rearms(s: CanvasState, color: u16, c: u8, x: int, y: int, style: Style)
    requires
        take_op(s).1 is None,
    ensures
        take_op(clear_op(take_op(s).0, color)).1 is Some,
        take_op(glyph_op(take_op(s).0, c, x, y, style)).1 is Some,
{
}

} // verus!
