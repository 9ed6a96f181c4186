//! Asset byte blobs, PNG decoding, font loading, count-glyph drawing, and the
//! remapping from piece kind to sprite-atlas cell.
use vstd::prelude::*;

use image::{Rgba, RgbaImage};
use imageproc::drawing::draw_text_mut;
use rusttype::{Font, Scale};

use crate::img::{Img, ImgView};
use crate::pixel::Px;
use crate::position::{Color, PieceKind};
use crate::{BoardStyle, PiecesStyle};

verus! {

/// The PNG byte blobs and font bytes a generator is built from. The piece
/// sprites of one family are listed in atlas-cell order: rows top to bottom,
/// used columns left to right, the 14 cells of the first side followed by the
/// 14 cells of the second.
pub struct Assets {
    /// Board background, light-colored wood.
    pub light: Vec<u8>,
    /// Board background, warm-colored wood.
    pub warm: Vec<u8>,
    /// Board background, synthetic resin.
    pub resin: Vec<u8>,
    /// Piece sprites of the hitomoji family.
    pub hitomoji: Vec<Vec<u8>>,
    /// Piece sprites of the hitomoji gothic family.
    pub hitomoji_gothic: Vec<Vec<u8>>,
    /// Font bytes for the hand-count glyphs.
    pub font: Vec<u8>,
}

/// The mathematical content of an asset set.
pub ghost struct AssetsView {
    pub light: Seq<u8>,
    pub warm: Seq<u8>,
    pub resin: Seq<u8>,
    pub hitomoji: Seq<Seq<u8>>,
    pub hitomoji_gothic: Seq<Seq<u8>>,
    pub font: Seq<u8>,
}

impl View for Assets {
    type V = AssetsView;

    open spec fn view(&self) -> AssetsView {
        AssetsView {
            light: self.light@,
            warm: self.warm@,
            resin: self.resin@,
            hitomoji: self.hitomoji@.map_values(|b: Vec<u8>| b@),
            hitomoji_gothic: self.hitomoji_gothic@.map_values(|b: Vec<u8>| b@),
            font: self.font@,
        }
    }
}

/// The board blob selected by a board style.
pub open spec fn board_blob_spec(a: AssetsView, style: BoardStyle) -> Seq<u8> {
    match style {
        BoardStyle::Light => a.light,
        BoardStyle::Warm => a.warm,
        BoardStyle::Resin => a.resin,
    }
}

/// The piece-sprite blobs selected by a pieces style.
pub open spec fn piece_blobs_spec(a: AssetsView, style: PiecesStyle) -> Seq<Seq<u8>> {
    match style {
        PiecesStyle::Hitomoji => a.hitomoji,
        PiecesStyle::HitomojiGothic => a.hitomoji_gothic,
    }
}

/// What PNG decoding returns for a byte blob: `None` when the bytes are not a
/// well-formed PNG image, otherwise the decoded RGBA pixels. The result is a
/// function of the bytes alone.
pub uninterp spec fn png_decode_of(bytes: Seq<u8>) -> Option<ImgView>;

/// Whether a byte blob parses as a font. A function of the bytes alone.
pub uninterp spec fn font_ok(bytes: Seq<u8>) -> bool;

/// What drawing `text` onto an image returns: the rows of the image after the
/// glyphs for `text` are rasterized at `(x, y)` in the given color and scale
/// with the given font. A function of the arguments alone.
pub uninterp spec fn count_glyphs(
    data: Seq<Seq<Px>>,
    x: int,
    y: int,
    scale: u8,
    color: Px,
    text: Seq<char>,
    font: Seq<u8>,
) -> Seq<Seq<Px>>;

/// The glyph drawing restated over the input's own shape: the draw works in
/// place, so its result always has exactly the input's row count and row
/// lengths.
pub open spec fn glyphs_spec(
    data: Seq<Seq<Px>>,
    x: int,
    y: int,
    scale: u8,
    color: Px,
    text: Seq<char>,
    font: Seq<u8>,
) -> Seq<Seq<Px>> {
    let d = count_glyphs(data, x, y, scale, color, text, font);
    Seq::new(data.len(), |yi: int| Seq::new(data[yi].len(), |xi: int| d[yi][xi]))
}

/// Relies on `image`'s PNG decoding (`io::Reader::decode`, then `to_rgba8`):
/// whether the bytes decode, and to what pixels, depends on the bytes alone;
/// a decoded buffer always has exactly `height` rows of `width` pixels.
#[verifier::external_body]
pub(crate) fn decode_png(bytes: &Vec<u8>) -> (r: Option<Img>)
    ensures
        r is Some <==> png_decode_of(bytes@) is Some,
        r matches Some(img) ==> Some(img@) == png_decode_of(bytes@) && img@.wf(),
{
    let reader = image::io::Reader::with_format(
        std::io::Cursor::new(bytes.as_slice()),
        image::ImageFormat::Png,
    );
    let rgba = match reader.decode() {
        Ok(d) => d.to_rgba8(),
        Err(_) => return None,
    };
    let (width, height) = rgba.dimensions();
    let data: Vec<Vec<Px>> = rgba
        .rows()
        .map(|row| row.map(|p| Px { r: p[0], g: p[1], b: p[2], a: p[3] }).collect())
        .collect();
    Some(Img { width, height, data })
}

/// Relies on `rusttype::Font::try_from_bytes`: whether the bytes parse as a
/// font depends on the bytes alone.
#[verifier::external_body]
pub(crate) fn check_font(bytes: &Vec<u8>) -> (r: bool)
    ensures
        r == font_ok(bytes@),
{
    Font::try_from_bytes(bytes).is_some()
}

/// Relies on `imageproc::drawing::draw_text_mut` with `rusttype`'s font
/// parsing and rasterization: draws the glyphs of `text` in place at `(x, y)`
/// in the given color and scale; the pixels drawn depend on the arguments
/// alone, and, the draw being in place on a nonempty buffer, the image keeps
/// its dimensions, row count and row lengths.
#[verifier::external_body]
pub(crate) fn draw_count_text(
    img: &mut Img,
    x: i32,
    y: i32,
    scale: u8,
    color: Px,
    text: &str,
    font: &Vec<u8>,
)
    requires
        old(img)@.wf(),
        0 < old(img)@.width,
        font_ok(font@),
    ensures
        final(img)@.width == old(img)@.width,
        final(img)@.height == old(img)@.height,
        final(img)@.wf(),
        final(img)@.data == count_glyphs(
            old(img)@.data,
            x as int,
            y as int,
            scale,
            color,
            text@,
            font@,
        ),
        final(img)@.data == glyphs_spec(
            old(img)@.data,
            x as int,
            y as int,
            scale,
            color,
            text@,
            font@,
        ),
{
    let f = Font::try_from_bytes(font).unwrap();
    let raw = img.data.iter().flatten().flat_map(|p| [p.r, p.g, p.b, p.a]).collect();
    let mut buf = RgbaImage::from_raw(img.width, img.height, raw).unwrap();
    let c = Rgba([color.r, color.g, color.b, color.a]);
    draw_text_mut(&mut buf, c, x, y, Scale::uniform(scale.into()), &f, text);
    img.data = buf.rows().map(|r| r.map(|p| Px { r: p[0], g: p[1], b: p[2], a: p[3] }).collect()).collect();
}

/// The atlas cell holding the sprite for `kind`, as (row within one side's
/// half of the sheet, column). This table is an external contract with the
/// asset files and must match them exactly, or pieces render with swapped
/// artwork: row 0 holds Rook through Pawn on columns 1 through 7, row 1 holds
/// the king on column 0 and each promoted kind in its base kind's column.
/// Row 0 skips column 0 and row 1 skips column 3: those two cells per side
/// are unused padding.
pub open spec fn atlas_cell_spec(kind: PieceKind) -> (int, int) {
    match kind {
        PieceKind::Pawn => (0, 7),
        PieceKind::Lance => (0, 6),
        PieceKind::Knight => (0, 5),
        PieceKind::Silver => (0, 4),
        PieceKind::Gold => (0, 3),
        PieceKind::Bishop => (0, 2),
        PieceKind::Rook => (0, 1),
        PieceKind::King => (1, 0),
        PieceKind::ProPawn => (1, 7),
        PieceKind::ProLance => (1, 6),
        PieceKind::ProKnight => (1, 5),
        PieceKind::ProSilver => (1, 4),
        PieceKind::ProBishop => (1, 2),
        PieceKind::ProRook => (1, 1),
    }
}

/// The position of a used cell `(row, col)` in the per-side enumeration of
/// the 14 used cells: row 0 contributes columns 1 to 7, row 1 contributes
/// columns 0 to 7 except 3.
pub open spec fn cell_slot_spec(row: int, col: int) -> int {
    if row == 0 {
        col - 1
    } else if col < 3 {
        7 + col
    } else {
        6 + col
    }
}

/// The index in an asset pack of the sprite for `(color, kind)`.
pub open spec fn atlas_index_spec(color: Color, kind: PieceKind) -> int {
    let cell = atlas_cell_spec(kind);
    color.array_index_spec() * 14 + cell_slot_spec(cell.0, cell.1)
}

/// The index in an asset pack of the sprite for `(color, kind)`.
pub fn atlas_index(color: Color, kind: PieceKind) -> (r: usize)
    ensures
        r as int == atlas_index_spec(color, kind),
        r < 28,
{
    let side: usize = match color {
        Color::Black => 0,
        Color::White => 14,
    };
    let slot: usize = match kind {
        PieceKind::Pawn => 6,
        PieceKind::Lance => 5,
        PieceKind::Knight => 4,
        PieceKind::Silver => 3,
        PieceKind::Gold => 2,
        PieceKind::Bishop => 1,
        PieceKind::Rook => 0,
        PieceKind::King => 7,
        PieceKind::ProPawn => 13,
        PieceKind::ProLance => 12,
        PieceKind::ProKnight => 11,
        PieceKind::ProSilver => 10,
        PieceKind::ProBishop => 9,
        PieceKind::ProRook => 8,
    };
    side + slot
}

/// Every (color, kind) pair maps to exactly one atlas-pack index: the
/// remapping covers all 28 used cells without collisions.
pub proof fn lemma_atlas_index_injective(c1: Color, k1: PieceKind, c2: Color, k2: PieceKind)
    requires
        atlas_index_spec(c1, k1) == atlas_index_spec(c2, k2),
    ensures
        c1 == c2,
        k1 == k2,
{
}

} // verus!
