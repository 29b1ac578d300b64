//! The key dispatcher: maps raw key codes to cursor moves, canvas drawing,
//! style changes and transfers of the frame buffer.
use vstd::prelude::*;
use crate::canvas::{
    clear_op, glyph_op, take_op, CanvasState, PixelCanvas, RenderError, Style, BLACK, BLUE,
    GREEN, GRID_LEN, RED, WHITE,
};
use crate::cursor::{
    in_grid, step_down, step_enter, step_left, step_right, step_up, Cursor, CELL_HEIGHT,
    CELL_WIDTH,
};

verus! {

/// Key code of the left-hand left soft key: white text.
pub const KEY_WHITE: u8 = 6;

/// Key code of the left-hand right soft key: red text.
pub const KEY_RED: u8 = 17;

/// Key code of the right-hand left soft key: green text.
pub const KEY_GREEN: u8 = 7;

/// Key code of the right-hand right soft key: blue text.
pub const KEY_BLUE: u8 = 18;

/// Key code of the up direction.
pub const KEY_UP: u8 = 1;

/// Key code of the down direction.
pub const KEY_DOWN: u8 = 2;

/// Key code of the left direction.
pub const KEY_LEFT: u8 = 3;

/// Key code of the right direction.
pub const KEY_RIGHT: u8 = 4;

/// Key code of the center key, which resets the document.
pub const KEY_RESET: u8 = 5;

/// Key code of backspace.
pub const KEY_BACKSPACE: u8 = 8;

/// Key code of enter.
pub const KEY_ENTER: u8 = 10;

/// One event read from the keyboard.
#[derive(Clone, Copy, Debug, PartialEq, Eq, Structural)]
pub enum KeyEvent {
    Pressed(u8),
    Held(u8),
    Released(u8),
    NoEvent,
}

/// What a pressed key asks for.
#[derive(Clone, Copy, Debug, PartialEq, Eq, Structural)]
pub enum Command {
    /// Draw further text in this colour, on black.
    SetColor(u16),
    Up,
    Down,
    Left,
    Right,
    Reset,
    Backspace,
    Enter,
    /// Draw this character and advance.
    Insert(u8),
    Ignore,
}

/// What the caller has to do after a step.
#[derive(Clone, Copy, Debug, PartialEq, Eq, Structural)]
pub enum Outcome {
    /// Nothing.
    Done,
    /// Send the keyboard its soft-reset command.
    SoftReset,
    /// Send the whole frame buffer to the display.
    Transfer,
    /// Nothing was pending: wait a little before polling again.
    Idle,
}

/// A single byte is valid text on its own exactly when it is ASCII.
pub open spec fn is_text_byte(code: u8) -> bool {
    code < 0x80
}

/// The command that a pressed key code stands for.
pub open spec fn command_of(code: u8) -> Command {
    if code == KEY_WHITE {
        Command::SetColor(WHITE)
    } else if code == KEY_RED {
        Command::SetColor(RED)
    } else if code == KEY_GREEN {
        Command::SetColor(GREEN)
    } else if code == KEY_BLUE {
        Command::SetColor(BLUE)
    } else if code == KEY_UP {
        Command::Up
    } else if code == KEY_DOWN {
        Command::Down
    } else if code == KEY_LEFT {
        Command::Left
    } else if code == KEY_RIGHT {
        Command::Right
    } else if code == KEY_RESET {
        Command::Reset
    } else if code == KEY_BACKSPACE {
        Command::Backspace
    } else if code == KEY_ENTER {
        Command::Enter
    } else if is_text_byte(code) {
        Command::Insert(code)
    } else {
        Command::Ignore
    }
}

/// Classifies a pressed key code.
pub fn classify(code: u8) -> (r: Command)
    ensures
        r == command_of(code),
{
    if code == KEY_WHITE {
        Command::SetColor(WHITE)
    } else if code == KEY_RED {
        Command::SetColor(RED)
    } else if code == KEY_GREEN {
        Command::SetColor(GREEN)
    } else if code == KEY_BLUE {
        Command::SetColor(BLUE)
    } else if code == KEY_UP {
        Command::Up
    } else if code == KEY_DOWN {
        Command::Down
    } else if code == KEY_LEFT {
        Command::Left
    } else if code == KEY_RIGHT {
        Command::Right
    } else if code == KEY_RESET {
        Command::Reset
    } else if code == KEY_BACKSPACE {
        Command::Backspace
    } else if code == KEY_ENTER {
        Command::Enter
    } else if code < 0x80 {
        Command::Insert(code)
    } else {
        Command::Ignore
    }
}

/// What a dispatcher holds: the cursor's cell, the canvas and the style.
pub struct DispatcherState {
    pub cursor: (int, int),
    pub canvas: CanvasState,
    pub style: Style,
}

/// The top-left pixel of the cell at `p`.
pub open spec fn cell_origin(p: (int, int)) -> (int, int) {
    (p.0 * CELL_WIDTH as int, p.1 * CELL_HEIGHT as int)
}

/// The glyph for `c` drawn in the current style at the cell of `p`.
pub open spec fn draw_at(d: DispatcherState, p: (int, int), c: u8) -> CanvasState {
    glyph_op(d.canvas, c, cell_origin(p).0, cell_origin(p).1, d.style)
}

/// The state after a pressed key.
pub open spec fn after_command(d: DispatcherState, cmd: Command) -> DispatcherState {
    match cmd {
        Command::SetColor(fg) => DispatcherState { style: Style { fg, bg: BLACK }, ..d },
        Command::Up => DispatcherState { cursor: step_up(d.cursor), ..d },
        Command::Down => DispatcherState { cursor: step_down(d.cursor), ..d },
        Command::Left => DispatcherState { cursor: step_left(d.cursor), ..d },
        Command::Right => DispatcherState { cursor: step_right(d.cursor), ..d },
        Command::Reset => DispatcherState {
            cursor: (0, 0),
            canvas: clear_op(d.canvas, BLACK),
            ..d
        },
        Command::Backspace => DispatcherState {
            cursor: step_left(d.cursor),
            canvas: draw_at(d, step_left(d.cursor), 0x20),
            ..d
        },
        Command::Enter => DispatcherState { cursor: step_enter(d.cursor), ..d },
        Command::Insert(c) => DispatcherState {
            cursor: step_right(d.cursor),
            canvas: draw_at(d, d.cursor, c),
            ..d
        },
        Command::Ignore => d,
    }
}

/// The state after an event.
pub open spec fn next_state(d: DispatcherState, ev: KeyEvent) -> DispatcherState {
    match ev {
        KeyEvent::Pressed(code) => after_command(d, command_of(code)),
        KeyEvent::NoEvent => DispatcherState { canvas: take_op(d.canvas).0, ..d },
        _ => d,
    }
}

/// What the caller has to do after an event.
pub open spec fn outcome_of(d: DispatcherState, ev: KeyEvent) -> Outcome {
    match ev {
        KeyEvent::Pressed(code) => if command_of(code) == Command::Reset {
            Outcome::SoftReset
        } else {
            Outcome::Done
        },
        KeyEvent::NoEvent => if take_op(d.canvas).1 is Some {
            Outcome::Transfer
        } else {
            Outcome::Idle
        },
        _ => Outcome::Done,
    }
}

/// The event loop's state: the cursor, the canvas and the current style.
pub struct Dispatcher {
    cursor: Cursor,
    canvas: PixelCanvas,
    style: Style,
}

impl View for Dispatcher {
    type V = DispatcherState;

    closed spec fn view(&self) -> DispatcherState {
        DispatcherState { cursor: self.cursor@, canvas: self.canvas@, style: self.style }
    }
}

impl Dispatcher {
    /// The cursor lies on the grid and the canvas has its fixed size.
    pub open spec fn wf(&self) -> bool {
        in_grid(self@.cursor) && self@.canvas.grid.len() == GRID_LEN
    }

    /// The cursor at the top-left cell, white text on black, and a canvas
    /// cleared to black that is waiting to be transferred.
    pub fn new() -> (r: Dispatcher)
        ensures
            r.wf(),
            r@.cursor == (0int, 0int),
            r@.canvas == clear_op(PixelCanvas::new_state(), BLACK),
            r@.style == (Style { fg: WHITE, bg: BLACK }),
    {
        let mut canvas = PixelCanvas::new();
        canvas.clear(BLACK);
        Dispatcher { cursor: Cursor::new(), canvas, style: Style { fg: WHITE, bg: BLACK } }
    }

    /// The cursor.
    pub fn cursor(&self) -> (r: Cursor)
        ensures
            r@ == self@.cursor,
    {
        self.cursor
    }

    /// The current style.
    pub fn style(&self) -> (r: Style)
        ensures
            r == self@.style,
    {
        self.style
    }

    /// The canvas.
    pub fn canvas(&self) -> (r: &PixelCanvas)
        ensures
            r@ == self@.canvas,
    {
        &self.canvas
    }

    /// Reacts to one keyboard event and says what the caller has to do next.
    pub fn step(&mut self, ev: KeyEvent) -> (r: Result<Outcome, RenderError>)
        requires
            old(self).wf(),
        ensures
            final(self).wf(),
            final(self)@ == next_state(old(self)@, ev),
            r == Ok::<Outcome, RenderError>(outcome_of(old(self)@, ev)),
    {
        match ev {
            KeyEvent::Pressed(code) => {
                match classify(code) {
                    Command::SetColor(fg) => {
                        self.style = Style { fg, bg: BLACK };
                        Ok(Outcome::Done)
                    },
                    Command::Up => {
                        self.cursor.up();
                        Ok(Outcome::Done)
                    },
                    Command::Down => {
                        self.cursor.down();
                        Ok(Outcome::Done)
                    },
                    Command::Left => {
                        self.cursor.left();
                        Ok(Outcome::Done)
                    },
                    Command::Right => {
                        self.cursor.right();
                        Ok(Outcome::Done)
                    },
                    Command::Reset => {
                        self.cursor = Cursor::new();
                        self.canvas.clear(BLACK);
                        Ok(Outcome::SoftReset)
                    },
                    Command::Backspace => {
                        self.cursor.left();
                        let p = self.cursor.pos();
                        match self.canvas.draw_glyph(0x20, p.x, p.y, self.style) {
                            Ok(()) => Ok(Outcome::Done),
                            Err(e) => Err(e),
                        }
                    },
                    Command::Enter => {
                        self.cursor.enter();
                        Ok(Outcome::Done)
                    },
                    Command::Insert(c) => {
                        let p = self.cursor.pos();
                        match self.canvas.draw_glyph(c, p.x, p.y, self.style) {
                            Ok(()) => {
                                self.cursor.right();
                                Ok(Outcome::Done)
                            },
                            Err(e) => Err(e),
                        }
                    },
                    Command::Ignore => Ok(Outcome::Done),
                }
            },
            KeyEvent::NoEvent => {
                if self.canvas.take_pending_transfer().is_some() {
                    Ok(Outcome::Transfer)
                } else {
                    Ok(Outcome::Idle)
                }
            },
            _ => Ok(Outcome::Done),
        }
    }
}

/// The reset key brings the cursor back to the top-left cell and clears the
/// canvas to black, leaving it dirty, whatever the state before.
pub proof fn lemma_reset(d: DispatcherState)
    ensures
        next_state(d, KeyEvent::Pressed(KEY_RESET)).cursor == (0int, 0int),
        next_state(d, KeyEvent::Pressed(KEY_RESET)).canvas.grid == crate::canvas::filled(BLACK),
        next_state(d, KeyEvent::Pressed(KEY_RESET)).canvas.dirty,
{
}

} // verus!
