//! The fixed pixel geometry of the rendered image: board cell pitch, sprite
//! insets, hand-panel margins and the dense hand-slot grid.
use vstd::prelude::*;

use crate::position::Square;

verus! {

/// Width in pixels of one hand panel plus its separating column.
pub const HAND_WIDTH: u32 = 200;

/// Height in pixels of one hand panel.
pub const HAND_HEIGHT: u32 = 300;

/// Horizontal pitch in pixels between board cells.
pub const CELL_WIDTH: u32 = 57;

/// Vertical pitch in pixels between board cells.
pub const CELL_HEIGHT: u32 = 62;

/// Horizontal inset of a piece sprite within the board image.
pub const PIECE_INSET_X: u32 = 9;

/// Vertical inset of a piece sprite within the board image.
pub const PIECE_INSET_Y: u32 = 10;

/// Inset of the highlight rectangle within the board image, both axes.
pub const HIGHLIGHT_INSET: u32 = 8;

/// Width in pixels of the last-move highlight rectangle.
pub const HIGHLIGHT_WIDTH: u32 = 55;

/// Height in pixels of the last-move highlight rectangle.
pub const HIGHLIGHT_HEIGHT: u32 = 60;

/// Margin in pixels around the hand-panel slot grid.
pub const HAND_MARGIN: u32 = 20;

/// Horizontal gap in pixels between the two hand-slot columns.
pub const HAND_GUTTER_X: u32 = 30;

/// Vertical gap in pixels between hand-slot rows.
pub const HAND_GUTTER_Y: u32 = 10;

/// Pixel height of a hand-count glyph; also how far the glyph anchor is
/// raised above the sprite's bottom edge so that the digits do not clip.
pub const COUNT_TEXT_SCALE: u8 = 24;

/// The largest accepted width or height of a decoded asset. Keeps all offset
/// arithmetic well inside `u32`.
pub const MAX_DIM: u32 = 100000;

/// Horizontal pixel origin of the piece sprite for a square. File 9 is
/// leftmost: files decrease left to right.
pub open spec fn piece_x_spec(sq: Square) -> int {
    PIECE_INSET_X + CELL_WIDTH * (9 - sq.file)
}

/// Vertical pixel origin of the piece sprite for a square.
pub open spec fn piece_y_spec(sq: Square) -> int {
    PIECE_INSET_Y + CELL_HEIGHT * (sq.rank - 1)
}

/// Horizontal pixel origin of the highlight rectangle for a square.
pub open spec fn highlight_x_spec(sq: Square) -> int {
    HIGHLIGHT_INSET + CELL_WIDTH * (9 - sq.file)
}

/// Vertical pixel origin of the highlight rectangle for a square.
pub open spec fn highlight_y_spec(sq: Square) -> int {
    HIGHLIGHT_INSET + CELL_HEIGHT * (sq.rank - 1)
}

/// Pixel origin within the board image of the piece sprite for `sq`.
pub fn square_to_board_offset(sq: Square) -> (r: (u32, u32))
    requires
        sq.wf(),
    ensures
        r.0 as int == piece_x_spec(sq),
        r.1 as int == piece_y_spec(sq),
{
    (
        PIECE_INSET_X + CELL_WIDTH * (9 - sq.file as u32),
        PIECE_INSET_Y + CELL_HEIGHT * (sq.rank as u32 - 1),
    )
}

/// Pixel origin within the board image of the highlight rectangle for `sq`.
pub fn square_to_highlight_offset(sq: Square) -> (r: (u32, u32))
    requires
        sq.wf(),
    ensures
        r.0 as int == highlight_x_spec(sq),
        r.1 as int == highlight_y_spec(sq),
{
    (
        HIGHLIGHT_INSET + CELL_WIDTH * (9 - sq.file as u32),
        HIGHLIGHT_INSET + CELL_HEIGHT * (sq.rank as u32 - 1),
    )
}

/// The square whose piece sprite sits at pixel origin `(x, y)`, if any.
pub open spec fn board_offset_to_square_spec(x: int, y: int) -> Option<Square> {
    let dx = x - PIECE_INSET_X;
    let dy = y - PIECE_INSET_Y;
    if dx >= 0 && dy >= 0 && dx % (CELL_WIDTH as int) == 0 && dy % (CELL_HEIGHT as int) == 0
        && dx / (CELL_WIDTH as int) < 9 && dy / (CELL_HEIGHT as int) < 9 {
        Some(
            Square {
                file: (9 - dx / (CELL_WIDTH as int)) as u8,
                rank: (dy / (CELL_HEIGHT as int) + 1) as u8,
            },
        )
    } else {
        None
    }
}

/// Decodes a piece-sprite pixel origin back to its square: the inverse of
/// [`square_to_board_offset`] on the 81 valid squares.
pub fn board_offset_to_square(x: u32, y: u32) -> (r: Option<Square>)
    ensures
        r == board_offset_to_square_spec(x as int, y as int),
{
    if x < PIECE_INSET_X || y < PIECE_INSET_Y {
        return None;
    }
    let dx = x - PIECE_INSET_X;
    let dy = y - PIECE_INSET_Y;
    if dx % CELL_WIDTH != 0 || dy % CELL_HEIGHT != 0 {
        return None;
    }
    let fi = dx / CELL_WIDTH;
    let ri = dy / CELL_HEIGHT;
    if fi >= 9 || ri >= 9 {
        return None;
    }
    Some(Square { file: (9 - fi) as u8, rank: (ri + 1) as u8 })
}

/// Every square's piece offset decodes back to that square: encoding with
/// [`square_to_board_offset`] and decoding with [`board_offset_to_square`]
/// round-trips over the whole board.
pub proof fn lemma_board_offset_round_trip(sq: Square)
    requires
        sq.wf(),
    ensures
        board_offset_to_square_spec(piece_x_spec(sq), piece_y_spec(sq)) == Some(sq),
{
    let k = 9 - sq.file as int;
    let m = sq.rank as int - 1;
    assert((57 * k) % 57 == 0 && (57 * k) / 57 == k) by (nonlinear_arith)
        requires 0 <= k < 9;
    assert((62 * m) % 62 == 0 && (62 * m) / 62 == m) by (nonlinear_arith)
        requires 0 <= m < 9;
}

/// Horizontal pixel origin of hand slot `idx`: slots alternate between two
/// columns.
pub open spec fn slot_x_spec(idx: int, sprite_w: int) -> int {
    HAND_MARGIN + (idx % 2) * (sprite_w + HAND_GUTTER_X)
}

/// Vertical pixel origin of hand slot `idx`: each slot row holds two slots.
pub open spec fn slot_y_spec(idx: int, sprite_h: int) -> int {
    HAND_MARGIN + (idx / 2) * (sprite_h + HAND_GUTTER_Y)
}

/// Pixel origin within a hand panel of the dense slot `idx`, for a sprite of
/// the given dimensions.
pub fn hand_slot_offset(idx: u32, sprite_w: u32, sprite_h: u32) -> (r: (u32, u32))
    requires
        idx < 7,
        sprite_w <= MAX_DIM,
        sprite_h <= MAX_DIM,
    ensures
        r.0 as int == slot_x_spec(idx as int, sprite_w as int),
        r.1 as int == slot_y_spec(idx as int, sprite_h as int),
        HAND_MARGIN <= r.0 <= HAND_MARGIN + sprite_w + HAND_GUTTER_X,
        HAND_MARGIN <= r.1 <= HAND_MARGIN + 3 * (sprite_h + HAND_GUTTER_Y),
{
    let col = idx % 2;
    let row = idx / 2;
    proof {
        assert(col * (sprite_w + HAND_GUTTER_X) <= 1 * (sprite_w + HAND_GUTTER_X))
            by (nonlinear_arith)
            requires col <= 1;
        assert(row * (sprite_h + HAND_GUTTER_Y) <= 3 * (sprite_h + HAND_GUTTER_Y))
            by (nonlinear_arith)
            requires row <= 3;
    }
    (
        HAND_MARGIN + col * (sprite_w + HAND_GUTTER_X),
        HAND_MARGIN + row * (sprite_h + HAND_GUTTER_Y),
    )
}

} // verus!
