use keywing::canvas::{PixelCanvas, RenderError, Style, BLACK, GRID_LEN, HEIGHT, RED, WHITE, WIDTH};

fn white_on_black() -> Style {
    Style { fg: WHITE, bg: BLACK }
}

fn cell(canvas: &PixelCanvas, x: usize, y: usize) -> Vec<u16> {
    let mut v = Vec::new();
    for dy in 0..16 {
        for dx in 0..8 {
            v.push(canvas.pixel(x + dx, y + dy));
        }
    }
    v
}

#[test]
fn new_canvas_is_black_and_clean() {
    let mut c = PixelCanvas::new();
    assert!(!c.is_dirty());
    assert_eq!(c.pixels().len(), GRID_LEN);
    assert!(c.pixels().iter().all(|&p| p == BLACK));
    assert!(c.take_pending_transfer().is_none());
}

#[test]
fn clear_then_take_once() {
    let mut c = PixelCanvas::new();
    c.clear(RED);
    assert!(c.is_dirty());
    {
        let grid = c.take_pending_transfer().unwrap();
        assert_eq!(grid.len(), WIDTH * HEIGHT);
        assert!(grid.iter().all(|&p| p == RED));
    }
    assert!(!c.is_dirty());
    assert!(c.take_pending_transfer().is_none());
    assert!(c.take_pending_transfer().is_none());
}

#[test]
fn clear_rearms_dirty_flag() {
    let mut c = PixelCanvas::new();
    assert!(c.take_pending_transfer().is_none());
    c.clear(BLACK);
    assert!(c.take_pending_transfer().is_some());
}

#[test]
fn draw_glyph_rearms_dirty_flag() {
    let mut c = PixelCanvas::new();
    assert!(c.take_pending_transfer().is_none());
    assert_eq!(c.draw_glyph(b'x', 16, 32, white_on_black()), Ok(()));
    assert!(c.take_pending_transfer().is_some());
    assert!(c.take_pending_transfer().is_none());
}

#[test]
fn glyph_has_both_colours_and_stays_in_its_cell() {
    let mut c = PixelCanvas::new();
    c.clear(RED);
    assert_eq!(c.draw_glyph(b'A', 8, 16, white_on_black()), Ok(()));
    let px = cell(&c, 8, 16);
    assert!(px.iter().any(|&p| p == WHITE));
    assert!(px.iter().any(|&p| p == BLACK));
    assert!(px.iter().all(|&p| p == WHITE || p == BLACK));
    assert_eq!(c.pixel(7, 16), RED);
    assert_eq!(c.pixel(16, 16), RED);
    assert_eq!(c.pixel(8, 15), RED);
    assert_eq!(c.pixel(8, 32), RED);
}

#[test]
fn glyphs_differ_by_character() {
    let mut c = PixelCanvas::new();
    assert_eq!(c.draw_glyph(b'A', 0, 0, white_on_black()), Ok(()));
    assert_eq!(c.draw_glyph(b'B', 8, 0, white_on_black()), Ok(()));
    assert_ne!(cell(&c, 0, 0), cell(&c, 8, 0));
}

#[test]
fn space_glyph_is_blank() {
    let mut c = PixelCanvas::new();
    c.clear(WHITE);
    assert_eq!(c.draw_glyph(b' ', 0, 0, Style { fg: RED, bg: BLACK }), Ok(()));
    assert!(cell(&c, 0, 0).iter().all(|&p| p == BLACK));
}

#[test]
fn glyph_at_last_cell_fits() {
    let mut c = PixelCanvas::new();
    assert_eq!(c.draw_glyph(b'Z', 312, 224, white_on_black()), Ok(()));
    assert!(cell(&c, 312, 224).iter().any(|&p| p == WHITE));
}

#[test]
fn glyph_off_the_grid_is_refused() {
    let mut c = PixelCanvas::new();
    assert_eq!(c.draw_glyph(b'A', 313, 0, white_on_black()), Err(RenderError::OutOfBounds));
    assert_eq!(c.draw_glyph(b'A', 0, 225, white_on_black()), Err(RenderError::OutOfBounds));
    assert_eq!(c.draw_glyph(b'A', -1, 0, white_on_black()), Err(RenderError::OutOfBounds));
    assert_eq!(c.draw_glyph(b'A', 0, -16, white_on_black()), Err(RenderError::OutOfBounds));
    assert!(!c.is_dirty());
    assert!(c.pixels().iter().all(|&p| p == BLACK));
}
