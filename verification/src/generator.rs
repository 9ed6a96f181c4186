//! The image generator: loads the board, sprite table, highlight rectangle
//! and font once, then renders any number of positions.
use vstd::prelude::*;
use vstd::string::StringExecFns;

use crate::assets::{
    atlas_index, atlas_index_spec, board_blob_spec, check_font, decode_png, draw_count_text,
    font_ok, glyphs_spec, piece_blobs_spec, png_decode_of, Assets, AssetsView,
};
use crate::img::{filled_view, lemma_filled_view_px, lemma_overlay_view_wf, overlay_view, rotate180_view, Img, ImgView};
use crate::layout::{
    hand_slot_offset, highlight_x_spec, highlight_y_spec, piece_x_spec, piece_y_spec, slot_x_spec,
    slot_y_spec, square_to_board_offset, square_to_highlight_offset, COUNT_TEXT_SCALE, HAND_HEIGHT,
    HAND_WIDTH, HIGHLIGHT_HEIGHT, HIGHLIGHT_WIDTH, MAX_DIM,
};
use crate::pixel::{blend_spec, Px};
use crate::position::{
    all_kinds, all_kinds_spec, lemma_square_index_bijective, square_of_index, AsPosition, Color,
    Hand, Piece, PieceKind, PosView, Square,
};
use crate::{BoardStyle, HighlightSquare, PiecesStyle};

verus! {

/// The fill color of a hand panel.
pub open spec fn hand_bg_px() -> Px {
    Px { r: 178, g: 147, b: 108, a: 255 }
}

/// The color of the hand-count glyphs.
pub open spec fn count_text_px() -> Px {
    Px { r: 0, g: 0, b: 0, a: 255 }
}

/// The translucent fill color of the last-move highlight rectangle.
pub open spec fn highlight_px() -> Px {
    Px { r: 255, g: 64, b: 64, a: 127 }
}

/// The blank color the output canvas starts from.
pub open spec fn transparent_px() -> Px {
    Px { r: 0, g: 0, b: 0, a: 0 }
}

/// The last-move highlight rectangle.
pub open spec fn highlight_view() -> ImgView {
    filled_view(HIGHLIGHT_WIDTH as int, HIGHLIGHT_HEIGHT as int, highlight_px())
}

/// Board dimensions the generator accepts: tall enough for a hand panel and
/// small enough for all offset arithmetic.
pub open spec fn board_dims_ok(v: ImgView) -> bool {
    v.width <= MAX_DIM && HAND_HEIGHT <= v.height && v.height <= MAX_DIM
}

/// Sprite dimensions the generator accepts: small enough for all offset
/// arithmetic and at least 4 pixels tall, so that the count-glyph anchor
/// never leaves the panel's top edge.
pub open spec fn sprite_dims_ok(v: ImgView) -> bool {
    v.width <= MAX_DIM && 4 <= v.height && v.height <= MAX_DIM
}

/// The mathematical content of a generator: the decoded board, the 28-entry
/// sprite table in (color, kind) order, the optional highlight rectangle,
/// and the font bytes.
pub ghost struct GenView {
    pub board: ImgView,
    pub sprites: Seq<ImgView>,
    pub highlight: Option<ImgView>,
    pub font: Seq<u8>,
}

impl GenView {
    /// All assets decoded, well-formed and within the accepted dimensions.
    pub open spec fn wf(self) -> bool {
        &&& self.board.wf()
        &&& board_dims_ok(self.board)
        &&& self.sprites.len() == 28
        &&& forall|i: int|
            0 <= i < 28 ==> (#[trigger] self.sprites[i]).wf() && sprite_dims_ok(self.sprites[i])
        &&& match self.highlight {
            Some(h) => h == highlight_view(),
            None => true,
        }
        &&& font_ok(self.font)
    }

    /// The sprite for a piece of the given color and kind.
    pub open spec fn sprite_of(self, color: Color, kind: PieceKind) -> ImgView {
        self.sprites[color.array_index_spec() * 14 + kind.array_index_spec()]
    }
}

/// The side whose sprites fill one half of the sprite table: the first half
/// belongs to Black, the second to White.
pub open spec fn color_of_side(side: int) -> Color {
    if side == 0 {
        Color::Black
    } else {
        Color::White
    }
}

/// Every piece-sprite blob of the pack decodes, to accepted dimensions.
pub open spec fn sprites_decodable(blobs: Seq<Seq<u8>>) -> bool {
    &&& blobs.len() == 28
    &&& forall|i: int|
        0 <= i < 28 ==> match png_decode_of(#[trigger] blobs[i]) {
            Some(v) => sprite_dims_ok(v),
            None => false,
        }
}

/// The sprite table built from a decodable pack: entry `i` holds the decoded
/// sprite of the atlas cell for side `i / 14` and kind `i % 14`.
pub open spec fn sprite_table_spec(blobs: Seq<Seq<u8>>) -> Seq<ImgView> {
    Seq::new(
        28,
        |i: int|
            match png_decode_of(
                blobs[atlas_index_spec(color_of_side(i / 14), all_kinds_spec()[i % 14])],
            ) {
                Some(v) => v,
                None => ImgView { width: 0, height: 0, data: Seq::empty() },
            },
    )
}

/// The generator a style selection and an asset set yield: `None` exactly
/// when an asset fails to decode or parse, has unaccepted dimensions, or the
/// pack does not hold 28 sprites.
pub open spec fn gen_of_assets(
    board_style: BoardStyle,
    pieces_style: PiecesStyle,
    highlight_square: HighlightSquare,
    a: AssetsView,
) -> Option<GenView> {
    let bblob = board_blob_spec(a, board_style);
    let blobs = piece_blobs_spec(a, pieces_style);
    if (match png_decode_of(bblob) {
        Some(b) => board_dims_ok(b),
        None => false,
    }) && sprites_decodable(blobs) && font_ok(a.font) {
        Some(
            GenView {
                board: match png_decode_of(bblob) {
                    Some(b) => b,
                    None => ImgView { width: 0, height: 0, data: Seq::empty() },
                },
                sprites: sprite_table_spec(blobs),
                highlight: match highlight_square {
                    HighlightSquare::LastMoveTo => Some(highlight_view()),
                    HighlightSquare::NoHighlight => None,
                },
                font: a.font,
            },
        )
    } else {
        None
    }
}

/// One square painted onto the board layer: nothing for an empty square; for
/// an occupied one, the highlight rectangle first when the square is the
/// last move's destination and highlighting is on, then the piece sprite.
pub open spec fn paint_square(img: ImgView, g: GenView, p: PosView, sq: Square) -> ImgView {
    match p.piece_at_spec(sq) {
        None => img,
        Some(pc) => {
            let based = match g.highlight {
                Some(h) => if p.last_dest() == Some(sq) {
                    overlay_view(img, h, highlight_x_spec(sq), highlight_y_spec(sq))
                } else {
                    img
                },
                None => img,
            };
            overlay_view(
                based,
                g.sprite_of(pc.color, pc.kind),
                piece_x_spec(sq),
                piece_y_spec(sq),
            )
        },
    }
}

/// The board layer after the first `n` squares of the file-major enumeration
/// are painted.
pub open spec fn board_layer_n(g: GenView, p: PosView, n: int) -> ImgView
    decreases n,
{
    if n <= 0 {
        g.board
    } else {
        paint_square(board_layer_n(g, p, n - 1), g, p, square_of_index(n - 1))
    }
}

/// The board layer: the board background with every occupied square painted.
pub open spec fn board_layer(g: GenView, p: PosView) -> ImgView {
    board_layer_n(g, p, 81)
}

/// The hand kinds in the order the panel enumerates them: highest value
/// first, the king excluded.
pub open spec fn hand_priority() -> Seq<PieceKind> {
    seq![
        PieceKind::Rook,
        PieceKind::Bishop,
        PieceKind::Gold,
        PieceKind::Silver,
        PieceKind::Knight,
        PieceKind::Lance,
        PieceKind::Pawn,
    ]
}

/// The dense hand slots for the kinds `ks`, in order: one entry per kind
/// with a nonzero count, carrying that count; kinds with zero count are
/// skipped without leaving a gap.
pub open spec fn hand_slots_of(h: Hand, ks: Seq<PieceKind>) -> Seq<(PieceKind, u8)>
    decreases ks.len(),
{
    if ks.len() == 0 {
        Seq::empty()
    } else {
        let rest = hand_slots_of(h, ks.drop_last());
        if h.count_spec(ks.last()) > 0 {
            rest.push((ks.last(), h.count_spec(ks.last())))
        } else {
            rest
        }
    }
}

/// The dense hand slots of a hand, in priority order.
pub open spec fn hand_slots(h: Hand) -> Seq<(PieceKind, u8)> {
    hand_slots_of(h, hand_priority())
}

/// The decimal digits of a nonnegative number.
pub open spec fn dec_str_spec(n: int) -> Seq<char>
    decreases n,
{
    if n < 10 {
        seq![digit_char(n)]
    } else {
        dec_str_spec(n / 10).push(digit_char(n % 10))
    }
}

/// The character for one decimal digit.
pub open spec fn digit_char(d: int) -> char {
    if d == 0 {
        '0'
    } else if d == 1 {
        '1'
    } else if d == 2 {
        '2'
    } else if d == 3 {
        '3'
    } else if d == 4 {
        '4'
    } else if d == 5 {
        '5'
    } else if d == 6 {
        '6'
    } else if d == 7 {
        '7'
    } else if d == 8 {
        '8'
    } else {
        '9'
    }
}

/// The empty hand panel: the panel background color edge to edge.
pub open spec fn panel_base() -> ImgView {
    filled_view(HAND_WIDTH - 1, HAND_HEIGHT as int, hand_bg_px())
}

/// One hand slot applied to the panel: the sprite for the kind overlaid at
/// the dense slot position, then, exactly when the count is 2 or more, the
/// decimal count drawn anchored at the sprite's bottom-right corner, raised
/// by the glyph height.
pub open spec fn slot_apply(img: ImgView, g: GenView, entry: (PieceKind, u8), idx: int) -> ImgView {
    let sp = g.sprite_of(Color::Black, entry.0);
    let x = slot_x_spec(idx, sp.width);
    let y = slot_y_spec(idx, sp.height);
    let over = overlay_view(img, sp, x, y);
    if entry.1 > 1 {
        ImgView {
            width: over.width,
            height: over.height,
            data: glyphs_spec(
                over.data,
                x + sp.width,
                y + sp.height - COUNT_TEXT_SCALE,
                COUNT_TEXT_SCALE,
                count_text_px(),
                dec_str_spec(entry.1 as int),
                g.font,
            ),
        }
    } else {
        over
    }
}

/// The hand panel after the first `n` slots are applied.
pub open spec fn panel_n(g: GenView, slots: Seq<(PieceKind, u8)>, n: int) -> ImgView
    decreases n,
{
    if n <= 0 {
        panel_base()
    } else {
        slot_apply(panel_n(g, slots, n - 1), g, slots[n - 1], n - 1)
    }
}

/// The hand panel of a hand: the background with every nonzero kind's sprite
/// and count applied at consecutive slots.
pub open spec fn hand_panel_view(g: GenView, h: Hand) -> ImgView {
    panel_n(g, hand_slots(h), hand_slots(h).len() as int)
}

/// The rendered image: a blank canvas two hand panels wider than the board;
/// the board layer composited at the horizontal center offset; the Black
/// hand panel at the right edge, bottom-aligned; and the White hand panel,
/// turned by 180 degrees, at the top-left corner.
pub open spec fn render_view(g: GenView, p: PosView) -> ImgView {
    let canvas = filled_view(g.board.width + 2 * HAND_WIDTH, g.board.height, transparent_px());
    let with_board = overlay_view(canvas, board_layer(g, p), HAND_WIDTH as int, 0);
    let with_black = overlay_view(
        with_board,
        hand_panel_view(g, p.hand_black),
        HAND_WIDTH + g.board.width + 1,
        g.board.height - HAND_HEIGHT,
    );
    overlay_view(with_black, rotate180_view(hand_panel_view(g, p.hand_white)), 0, 0)
}

/// The panels a prefix decides are decided by that prefix alone.
proof fn lemma_panel_n_prefix(g: GenView, s1: Seq<(PieceKind, u8)>, s2: Seq<(PieceKind, u8)>, n: int)
    requires
        forall|i: int| 0 <= i < n ==> s1[i] == s2[i],
    ensures
        panel_n(g, s1, n) == panel_n(g, s2, n),
    decreases n,
{
    if n > 0 {
        lemma_panel_n_prefix(g, s1, s2, n - 1);
    }
}

/// The decimal string of one byte value.
fn digit_str(d: u8) -> (s: &'static str)
    requires
        d < 10,
    ensures
        s@ == seq![digit_char(d as int)],
{
    let s: &'static str = match d {
        0 => "0",
        1 => "1",
        2 => "2",
        3 => "3",
        4 => "4",
        5 => "5",
        6 => "6",
        7 => "7",
        8 => "8",
        _ => "9",
    };
    proof {
        reveal_strlit("0");
        reveal_strlit("1");
        reveal_strlit("2");
        reveal_strlit("3");
        reveal_strlit("4");
        reveal_strlit("5");
        reveal_strlit("6");
        reveal_strlit("7");
        reveal_strlit("8");
        reveal_strlit("9");
        assert(s@ =~= seq![digit_char(d as int)]);
    }
    s
}

/// The decimal representation of a byte value.
fn u8_to_string(n: u8) -> (s: String)
    ensures
        s@ == dec_str_spec(n as int),
{
    let mut s = String::new();
    if n >= 100 {
        s.append(digit_str(n / 100));
    }
    if n >= 10 {
        s.append(digit_str((n / 10) % 10));
    }
    s.append(digit_str(n % 10));
    proof {
        let m = n as int;
        if n < 10 {
            assert(m % 10 == m);
            assert(dec_str_spec(m) == seq![digit_char(m)]);
        } else if n < 100 {
            assert(dec_str_spec(m) == dec_str_spec(m / 10).push(digit_char(m % 10)));
            assert(m / 10 < 10);
            assert(dec_str_spec(m / 10) == seq![digit_char(m / 10)]);
            assert(m / 10 % 10 == m / 10);
        } else {
            assert(dec_str_spec(m) == dec_str_spec(m / 10).push(digit_char(m % 10)));
            assert(10 <= m / 10 < 26);
            assert(dec_str_spec(m / 10) == dec_str_spec(m / 10 / 10).push(digit_char(m / 10 % 10)));
            assert(m / 10 / 10 == m / 100) by (nonlinear_arith);
            assert(m / 100 < 10);
            assert(dec_str_spec(m / 100) == seq![digit_char(m / 100)]);
        }
        assert(s@ =~= dec_str_spec(m));
    }
    s
}

/// Image generator.
///
/// It decodes the board, the 28 piece sprites and the highlight rectangle
/// once, at construction, and is immutable afterwards: every call of
/// [`Generator::generate`] reads the shared assets and writes only to a
/// freshly allocated canvas.
pub struct Generator {
    board: Img,
    pieces: Vec<Img>,
    highlight: Option<Img>,
    font: Vec<u8>,
}

impl View for Generator {
    type V = GenView;

    closed spec fn view(&self) -> GenView {
        GenView {
            board: self.board@,
            sprites: self.pieces@.map_values(|im: Img| im@),
            highlight: match self.highlight {
                Some(h) => Some(h@),
                None => None,
            },
            font: self.font@,
        }
    }
}

/// An exact copy of a byte vector.
fn copy_bytes(v: &Vec<u8>) -> (r: Vec<u8>)
    ensures
        r@ == v@,
{
    let mut r: Vec<u8> = Vec::new();
    let mut i: usize = 0;
    while i < v.len()
        invariant
            i <= v@.len(),
            r@ =~= v@.take(i as int),
        decreases v@.len() - i,
    {
        r.push(v[i]);
        i = i + 1;
    }
    proof {
        assert(r@ =~= v@);
    }
    r
}

impl Generator {
    /// Creates a new `Generator` with the specified styles from the given
    /// asset bytes. Returns `None` exactly when an asset fails to decode or
    /// parse, a decoded asset has unaccepted dimensions, or the selected
    /// sprite pack does not hold 28 blobs: assets are build-time-fixed, so
    /// this signals a packaging defect and no degraded mode is offered.
    pub fn new(
        board_style: BoardStyle,
        pieces_style: PiecesStyle,
        highlight_square: HighlightSquare,
        assets: &Assets,
    ) -> (r: Option<Generator>)
        ensures
            r is Some <==> gen_of_assets(board_style, pieces_style, highlight_square, assets@)
                is Some,
            r matches Some(g) ==> {
                &&& Some(g@) == gen_of_assets(board_style, pieces_style, highlight_square, assets@)
                &&& g@.wf()
            },
    {
        let blobs: &Vec<Vec<u8>> = match pieces_style {
            PiecesStyle::Hitomoji => &assets.hitomoji,
            PiecesStyle::HitomojiGothic => &assets.hitomoji_gothic,
        };
        let ghost blobsv = piece_blobs_spec(assets@, pieces_style);
        proof {
            assert(blobsv.len() == blobs@.len());
            assert(forall|i: int|
                0 <= i < blobs@.len() ==> blobsv[i] == #[trigger] (blobs@[i]@));
        }
        if blobs.len() != 28 {
            return None;
        }
        let mut decoded: Vec<Img> = Vec::new();
        let mut v: usize = 0;
        while v < 28
            invariant
                blobsv == piece_blobs_spec(assets@, pieces_style),
                blobs@.len() == 28,
                blobsv.len() == 28,
                forall|i: int| 0 <= i < 28 ==> blobsv[i] == #[trigger] (blobs@[i]@),
                v <= 28,
                decoded@.len() == v as int,
                forall|i: int|
                    0 <= i < v as int ==> {
                        &&& png_decode_of(blobsv[i]) == Some(#[trigger] (decoded@[i]@))
                        &&& decoded@[i]@.wf()
                        &&& sprite_dims_ok(decoded@[i]@)
                    },
            decreases 28 - v,
        {
            match decode_png(&blobs[v]) {
                Some(im) => {
                    if im.width() > MAX_DIM || im.height() > MAX_DIM || im.height() < 4 {
                        proof {
                            assert(png_decode_of(blobsv[v as int]) == Some(im@));
                            assert(!sprite_dims_ok(im@));
                            assert(!sprites_decodable(blobsv));
                        }
                        return None;
                    }
                    decoded.push(im);
                },
                None => {
                    proof {
                        assert(png_decode_of(blobsv[v as int]) is None);
                        assert(!sprites_decodable(blobsv));
                    }
                    return None;
                },
            }
            v = v + 1;
        }
        proof {
            assert forall|i: int|
                0 <= i < 28 implies match png_decode_of(#[trigger] blobsv[i]) {
                Some(w) => sprite_dims_ok(w),
                None => false,
            } by {
                assert(png_decode_of(blobsv[i]) == Some(decoded@[i]@));
            }
            assert(sprites_decodable(blobsv));
        }
        let bblob: &Vec<u8> = match board_style {
            BoardStyle::Light => &assets.light,
            BoardStyle::Warm => &assets.warm,
            BoardStyle::Resin => &assets.resin,
        };
        proof {
            assert(bblob@ == board_blob_spec(assets@, board_style));
        }
        let board = match decode_png(bblob) {
            Some(b) => b,
            None => {
                return None;
            },
        };
        if board.width() > MAX_DIM || board.height() > MAX_DIM || board.height() < HAND_HEIGHT {
            return None;
        }
        if !check_font(&assets.font) {
            return None;
        }
        let kinds = all_kinds();
        let mut pieces: Vec<Img> = Vec::new();
        let mut t: usize = 0;
        while t < 28
            invariant
                blobsv.len() == 28,
                sprites_decodable(blobsv),
                kinds@ == all_kinds_spec(),
                forall|i: int|
                    0 <= i < 28 ==> {
                        &&& png_decode_of(blobsv[i]) == Some(#[trigger] (decoded@[i]@))
                        &&& decoded@[i]@.wf()
                        &&& sprite_dims_ok(decoded@[i]@)
                    },
                decoded@.len() == 28,
                t <= 28,
                pieces@.len() == t as int,
                forall|i: int|
                    0 <= i < t as int ==> {
                        &&& #[trigger] (pieces@[i]@) == sprite_table_spec(blobsv)[i]
                        &&& pieces@[i]@.wf()
                        &&& sprite_dims_ok(pieces@[i]@)
                    },
            decreases 28 - t,
        {
            let color = if t < 14 {
                Color::Black
            } else {
                Color::White
            };
            let k = kinds[t % 14];
            proof {
                assert(t as int / 14 == if t < 14 { 0int } else { 1int });
                assert(color == color_of_side(t as int / 14));
                assert(k == all_kinds_spec()[t as int % 14]);
            }
            let idx = atlas_index(color, k);
            let sp = (&decoded[idx]).duplicate();
            proof {
                assert(decoded@[idx as int]@ == sprite_table_spec(blobsv)[t as int]);
            }
            pieces.push(sp);
            t = t + 1;
        }
        let highlight = match highlight_square {
            HighlightSquare::LastMoveTo => Some(
                Img::filled(
                    HIGHLIGHT_WIDTH,
                    HIGHLIGHT_HEIGHT,
                    Px { r: 255, g: 64, b: 64, a: 127 },
                ),
            ),
            HighlightSquare::NoHighlight => None,
        };
        let g = Generator { board, pieces, highlight, font: copy_bytes(&assets.font) };
        proof {
            assert(g@.sprites =~= sprite_table_spec(blobsv));
            assert(g@ =~= gen_of_assets(board_style, pieces_style, highlight_square, assets@)
                ->Some_0);
        }
        Some(g)
    }

    /// The board layer of a position: a copy of the board background with,
    /// for every occupied square, the optional last-move highlight and then
    /// the piece sprite overlaid at that square's offsets.
    fn generate_board<T: AsPosition>(&self, position: &T) -> (r: Img)
        requires
            self@.wf(),
        ensures
            r@ == board_layer(self@, position.pos_view()),
            r@.wf(),
    {
        let ghost p = position.pos_view();
        let mut img = self.board.duplicate();
        let last_to: Option<Square> = match position.last_move() {
            Some(m) => Some(m.to()),
            None => None,
        };
        let mut i: u32 = 0;
        while i < 81
            invariant
                self@.wf(),
                p == position.pos_view(),
                last_to == p.last_dest(),
                i <= 81,
                img@ == board_layer_n(self@, p, i as int),
                img@.wf(),
            decreases 81 - i,
        {
            let file = (i / 9 + 1) as u8;
            let rank = (i % 9 + 1) as u8;
            let sq = Square { file, rank };
            proof {
                assert(1 <= file <= 9 && 1 <= rank <= 9);
                assert(sq == square_of_index(i as int));
            }
            let ghost before = img@;
            match position.piece_at(sq) {
                Some(piece) => {
                    match &self.highlight {
                        Some(hl) => {
                            let hit = match last_to {
                                Some(t) => t == sq,
                                None => false,
                            };
                            if hit {
                                let off = square_to_highlight_offset(sq);
                                img.overlay(hl, off.0, off.1);
                            }
                        },
                        None => {},
                    }
                    let idx = piece.color().array_index() * 14 + piece.piece_kind().array_index();
                    proof {
                        assert(idx < 28);
                        assert(self@.sprites[idx as int] == self.pieces@[idx as int]@);
                        assert(self@.sprite_of(piece.color, piece.kind) == self.pieces@[idx as int]@);
                    }
                    let off = square_to_board_offset(sq);
                    img.overlay(&self.pieces[idx], off.0, off.1);
                },
                None => {},
            }
            proof {
                assert(img@ == paint_square(before, self@, p, sq));
            }
            i = i + 1;
        }
        img
    }

    /// The panel for one hand: the panel background with the sprite of every
    /// kind held in nonzero count overlaid at consecutive dense slots, in
    /// priority order, and the decimal count drawn beside any sprite whose
    /// count is 2 or more.
    fn generate_hand(&self, hand: &Hand) -> (r: Img)
        requires
            self@.wf(),
        ensures
            r@ == hand_panel_view(self@, *hand),
            r@.wf(),
    {
        let ghost h = *hand;
        let kinds = hand_priority_kinds();
        let mut ret = Img::filled(
            HAND_WIDTH - 1,
            HAND_HEIGHT,
            Px { r: 178, g: 147, b: 108, a: 255 },
        );
        proof {
            assert(ret@ == panel_base());
        }
        let mut index: u32 = 0;
        let mut j: usize = 0;
        while j < 7
            invariant
                self@.wf(),
                h == *hand,
                kinds@ == hand_priority(),
                j <= 7,
                index <= j,
                index as int == hand_slots_of(h, hand_priority().take(j as int)).len(),
                ret@ == panel_n(self@, hand_slots_of(h, hand_priority().take(j as int)), index as int),
                ret@.wf(),
                ret@.width == HAND_WIDTH - 1,
                ret@.height == HAND_HEIGHT,
            decreases 7 - j,
        {
            let pk = kinds[j];
            let ghost ks0 = hand_priority().take(j as int);
            let ghost ks1 = hand_priority().take(j as int + 1);
            let ghost slots0 = hand_slots_of(h, ks0);
            let ghost slots1 = hand_slots_of(h, ks1);
            proof {
                assert(ks1.drop_last() =~= ks0);
                assert(ks1.last() == hand_priority()[j as int]);
                assert(slots1 == if h.count_spec(pk) > 0 {
                    slots0.push((pk, h.count_spec(pk)))
                } else {
                    slots0
                });
            }
            match hand.count(pk) {
                Some(count) => {
                    if count > 0 {
                        let spi = pk.array_index();
                        proof {
                            assert(self@.sprites[spi as int] == self.pieces@[spi as int]@);
                            assert(self@.sprite_of(Color::Black, pk) == self.pieces@[spi as int]@);
                        }
                        let sprite = &self.pieces[spi];
                        let off = hand_slot_offset(index, sprite.width(), sprite.height());
                        ret.overlay(sprite, off.0, off.1);
                        if count > 1 {
                            let text = u8_to_string(count);
                            let gx = off.0 + sprite.width();
                            let gy = off.1 + sprite.height() - COUNT_TEXT_SCALE as u32;
                            proof {
                                assert(gx <= 0x7fffffff && gy <= 0x7fffffff);
                            }
                            draw_count_text(
                                &mut ret,
                                gx as i32,
                                gy as i32,
                                COUNT_TEXT_SCALE,
                                Px { r: 0, g: 0, b: 0, a: 255 },
                                text.as_str(),
                                &self.font,
                            );
                        }
                        proof {
                            assert(slots1[index as int] == (pk, count));
                            lemma_panel_n_prefix(self@, slots1, slots0, index as int);
                            assert(ret@ == slot_apply(
                                panel_n(self@, slots1, index as int),
                                self@,
                                slots1[index as int],
                                index as int,
                            ));
                            assert(ret@ == panel_n(self@, slots1, index as int + 1));
                        }
                        index = index + 1;
                    }
                },
                None => {},
            }
            proof {
                if !(h.count_spec(pk) > 0) {
                    assert(slots1 == slots0);
                }
            }
            j = j + 1;
        }
        proof {
            assert(hand_priority().take(7) =~= hand_priority());
            assert(ret@ == hand_panel_view(self@, h));
        }
        ret
    }

    /// Generates an image from the specified position: the board layer at
    /// the horizontal center, the Black hand panel at the bottom right, and
    /// the White hand panel turned by 180 degrees at the top left, all
    /// source-over composited onto a blank canvas two hand panels wider than
    /// the board.
    pub fn generate<T: AsPosition>(&self, position: &T) -> (r: Img)
        requires
            self@.wf(),
        ensures
            r@ == render_view(self@, position.pos_view()),
            r@.wf(),
            r@.width == self@.board.width + 2 * HAND_WIDTH,
            r@.height == self@.board.height,
    {
        let mut image = Img::filled(
            self.board.width() + HAND_WIDTH * 2,
            self.board.height(),
            Px { r: 0, g: 0, b: 0, a: 0 },
        );
        let board_pane = self.generate_board(position);
        image.overlay(&board_pane, HAND_WIDTH, 0);
        let black_hand = position.hand_of_a_player(Color::Black);
        let black_panel = self.generate_hand(&black_hand);
        image.overlay(
            &black_panel,
            HAND_WIDTH + self.board.width() + 1,
            self.board.height() - HAND_HEIGHT,
        );
        let white_hand = position.hand_of_a_player(Color::White);
        let white_panel = self.generate_hand(&white_hand);
        let rotated = white_panel.rotate180();
        image.overlay(&rotated, 0, 0);
        image
    }
}

/// An unoccupied prefix of the enumeration paints nothing.
proof fn lemma_board_layer_unoccupied(g: GenView, p: PosView, n: int)
    requires
        0 <= n <= 81,
        forall|i: int| 0 <= i < 81 ==> p.occ[i] is None,
    ensures
        board_layer_n(g, p, n) == g.board,
    decreases n,
{
    if n > 0 {
        lemma_board_layer_unoccupied(g, p, n - 1);
        lemma_square_index_bijective(n - 1, Square { file: 1, rank: 1 });
        assert(p.piece_at_spec(square_of_index(n - 1)) is None);
    }
}

/// A hand whose counts are all zero fills no slot.
proof fn lemma_hand_slots_zero(h: Hand, ks: Seq<PieceKind>)
    requires
        forall|k: PieceKind| h.count_spec(k) == 0,
    ensures
        hand_slots_of(h, ks) == Seq::<(PieceKind, u8)>::empty(),
    decreases ks.len(),
{
    if ks.len() > 0 {
        lemma_hand_slots_zero(h, ks.drop_last());
    }
}

/// Rendering an empty position — no piece on any square, both hands empty —
/// composites exactly the bare board canvas at the fixed center offset and
/// the two untouched panel backgrounds, the White one turned by 180 degrees:
/// no sprite overlay beyond the backgrounds.
pub proof fn lemma_render_empty(g: GenView, p: PosView)
    requires
        forall|i: int| 0 <= i < 81 ==> p.occ[i] is None,
        forall|k: PieceKind| p.hand_black.count_spec(k) == 0,
        forall|k: PieceKind| p.hand_white.count_spec(k) == 0,
    ensures
        render_view(g, p) == overlay_view(
            overlay_view(
                overlay_view(
                    filled_view(g.board.width + 2 * HAND_WIDTH, g.board.height, transparent_px()),
                    g.board,
                    HAND_WIDTH as int,
                    0,
                ),
                panel_base(),
                HAND_WIDTH + g.board.width + 1,
                g.board.height - HAND_HEIGHT,
            ),
            rotate180_view(panel_base()),
            0,
            0,
        ),
{
    lemma_board_layer_unoccupied(g, p, 81);
    lemma_hand_slots_zero(p.hand_black, hand_priority());
    lemma_hand_slots_zero(p.hand_white, hand_priority());
}

/// The observable pixels of an empty render: both hand-panel regions hold
/// exactly the untouched panel background, and the board region holds the
/// board's own pixel blended onto the blank canvas — no sprite overlay
/// reaches any of them.
pub proof fn lemma_render_empty_pixels(g: GenView, p: PosView, x: int, y: int)
    requires
        g.wf(),
        forall|i: int| 0 <= i < 81 ==> p.occ[i] is None,
        forall|k: PieceKind| p.hand_black.count_spec(k) == 0,
        forall|k: PieceKind| p.hand_white.count_spec(k) == 0,
    ensures
        0 <= x < HAND_WIDTH - 1 && 0 <= y < HAND_HEIGHT ==> render_view(g, p).px_at(x, y)
            == hand_bg_px(),
        0 <= x < HAND_WIDTH - 1 && 0 <= y < HAND_HEIGHT ==> render_view(g, p).px_at(
            HAND_WIDTH + g.board.width + 1 + x,
            g.board.height - HAND_HEIGHT + y,
        ) == hand_bg_px(),
        0 <= x < g.board.width && 0 <= y < g.board.height ==> render_view(g, p).px_at(
            HAND_WIDTH + x,
            y,
        ) == blend_spec(transparent_px(), g.board.px_at(x, y)),
{
    lemma_render_empty(g, p);
    let canvas = filled_view(g.board.width + 2 * HAND_WIDTH, g.board.height, transparent_px());
    let base = panel_base();
    let wb = overlay_view(canvas, g.board, HAND_WIDTH as int, 0);
    let bx = HAND_WIDTH + g.board.width + 1;
    let by = g.board.height - HAND_HEIGHT;
    let wblack = overlay_view(wb, base, bx, by);
    let rot = rotate180_view(base);
    lemma_filled_view_px(g.board.width + 2 * HAND_WIDTH, g.board.height, transparent_px());
    lemma_filled_view_px(HAND_WIDTH - 1, HAND_HEIGHT as int, hand_bg_px());
    lemma_overlay_view_wf(canvas, g.board, HAND_WIDTH as int, 0);
    lemma_overlay_view_wf(wb, base, bx, by);
    if 0 <= x < HAND_WIDTH - 1 && 0 <= y < HAND_HEIGHT {
        // The white panel region: the rotated panel background covers it with
        // opaque pixels.
        crate::img::lemma_rotate180_px(base, x, y);
        assert(rot.px_at(x, y) == hand_bg_px());
        assert(render_view(g, p).px_at(x, y) == blend_spec(wblack.px_at(x, y), rot.px_at(x, y)));
        // The black panel region: outside the rotated panel, covered by the
        // opaque panel background itself.
        let xx = bx + x;
        let yy = by + y;
        crate::img::lemma_overlay_opaque_px(wb, base, bx, by, x, y);
        crate::img::lemma_overlay_untouched_px(wblack, rot, 0, 0, xx, yy);
    }
    if 0 <= x < g.board.width && 0 <= y < g.board.height {
        // The board region: not covered by either panel.
        let xx = HAND_WIDTH + x;
        assert(wb.px_at(xx, y) == blend_spec(canvas.px_at(xx, y), g.board.px_at(x, y)));
        assert(canvas.px_at(xx, y) == transparent_px());
        crate::img::lemma_overlay_untouched_px(wb, base, bx, by, xx, y);
        crate::img::lemma_overlay_untouched_px(wblack, rot, 0, 0, xx, y);
    }
}

/// The square layer of a single-piece position, square by square: untouched
/// up to the occupied square's position in the enumeration, and exactly one
/// sprite overlay from there on.
proof fn lemma_single_piece_layer_n(g: GenView, p: PosView, pc: Piece, sq: Square, n: int)
    requires
        0 <= n <= 81,
        sq.wf(),
        p.occ[sq.index_spec()] == Some(pc),
        forall|i: int| 0 <= i < 81 && i != sq.index_spec() ==> p.occ[i] is None,
        p.last is None,
    ensures
        board_layer_n(g, p, n) == if n <= sq.index_spec() {
            g.board
        } else {
            overlay_view(g.board, g.sprite_of(pc.color, pc.kind), piece_x_spec(sq), piece_y_spec(sq))
        },
    decreases n,
{
    if n > 0 {
        lemma_single_piece_layer_n(g, p, pc, sq, n - 1);
        lemma_square_index_bijective(n - 1, sq);
        let s = square_of_index(n - 1);
        if n - 1 == sq.index_spec() {
            assert(s == sq);
            assert(p.last_dest() is None);
        } else {
            assert(s.index_spec() == n - 1);
            assert(p.piece_at_spec(s) is None);
        }
    }
}

/// Placing a single piece on a square of a position without a last move
/// paints exactly one sprite overlay on the board layer, at that square's
/// piece offset, whatever the piece's kind and color.
pub proof fn lemma_single_piece_layer(g: GenView, p: PosView, pc: Piece, sq: Square)
    requires
        sq.wf(),
        p.occ[sq.index_spec()] == Some(pc),
        forall|i: int| 0 <= i < 81 && i != sq.index_spec() ==> p.occ[i] is None,
        p.last is None,
    ensures
        board_layer(g, p) == overlay_view(
            g.board,
            g.sprite_of(pc.color, pc.kind),
            piece_x_spec(sq),
            piece_y_spec(sq),
        ),
{
    lemma_square_index_bijective(0, sq);
    lemma_single_piece_layer_n(g, p, pc, sq, 81);
}

/// Sampling the single piece's sprite: wherever the sprite is fully opaque,
/// the board layer of a single-piece position holds the sprite's pixel
/// exactly, at the square's piece offset.
pub proof fn lemma_single_piece_pixels(
    g: GenView,
    p: PosView,
    pc: Piece,
    sq: Square,
    tx: int,
    ty: int,
)
    requires
        g.wf(),
        sq.wf(),
        p.occ[sq.index_spec()] == Some(pc),
        forall|i: int| 0 <= i < 81 && i != sq.index_spec() ==> p.occ[i] is None,
        p.last is None,
        0 <= tx < g.sprite_of(pc.color, pc.kind).width,
        0 <= ty < g.sprite_of(pc.color, pc.kind).height,
        piece_x_spec(sq) + tx < g.board.width,
        piece_y_spec(sq) + ty < g.board.height,
        g.sprite_of(pc.color, pc.kind).px_at(tx, ty).a == 255,
    ensures
        board_layer(g, p).px_at(piece_x_spec(sq) + tx, piece_y_spec(sq) + ty) == g.sprite_of(
            pc.color,
            pc.kind,
        ).px_at(tx, ty),
{
    lemma_single_piece_layer(g, p, pc, sq);
    crate::img::lemma_overlay_opaque_px(
        g.board,
        g.sprite_of(pc.color, pc.kind),
        piece_x_spec(sq),
        piece_y_spec(sq),
        tx,
        ty,
    );
}

/// Hand-panel packing is dense: the slots are exactly the priority kinds
/// held in nonzero count, in priority order, each carrying its count — one
/// slot per nonzero kind, at consecutive indices, no gap for skipped kinds.
pub proof fn lemma_hand_slots_dense(h: Hand)
    ensures
        hand_slots(h) == hand_priority().filter(|k: PieceKind| h.count_spec(k) > 0).map_values(
            |k: PieceKind| (k, h.count_spec(k)),
        ),
        forall|i: int| 0 <= i < hand_slots(h).len() ==> (#[trigger] hand_slots(h)[i]).1 > 0,
{
    lemma_hand_slots_filter(h, hand_priority());
    lemma_hand_slots_positive(h, hand_priority());
}

/// The slots of any kind list are its filtered, counted kinds.
proof fn lemma_hand_slots_filter(h: Hand, ks: Seq<PieceKind>)
    ensures
        hand_slots_of(h, ks) == ks.filter(|k: PieceKind| h.count_spec(k) > 0).map_values(
            |k: PieceKind| (k, h.count_spec(k)),
        ),
    decreases ks.len(),
{
    reveal(Seq::filter);
    let pred = |k: PieceKind| h.count_spec(k) > 0;
    let f = |k: PieceKind| (k, h.count_spec(k));
    if ks.len() == 0 {
        assert(hand_slots_of(h, ks) =~= ks.filter(pred).map_values(f));
    } else {
        lemma_hand_slots_filter(h, ks.drop_last());
        if pred(ks.last()) {
            assert(ks.filter(pred).map_values(f) =~= ks.drop_last().filter(pred).map_values(
                f,
            ).push(f(ks.last())));
        }
    }
}

/// Every slot entry carries a nonzero count.
proof fn lemma_hand_slots_positive(h: Hand, ks: Seq<PieceKind>)
    ensures
        forall|i: int|
            0 <= i < hand_slots_of(h, ks).len() ==> (#[trigger] hand_slots_of(h, ks)[i]).1 > 0,
    decreases ks.len(),
{
    if ks.len() > 0 {
        lemma_hand_slots_positive(h, ks.drop_last());
        let rest = hand_slots_of(h, ks.drop_last());
        let s = hand_slots_of(h, ks);
        assert forall|i: int| 0 <= i < s.len() implies (#[trigger] s[i]).1 > 0 by {
            if i < rest.len() {
                assert(s[i] == rest[i]);
            }
        }
    }
}

/// Count glyphs appear on a hand slot exactly when its count is 2 or more: a
/// count of 1 leaves the panel equal to the sprite overlay alone, and a
/// count of 2 or more draws the decimal count over the sprite overlay,
/// anchored at the sprite's bottom-right corner and raised by the glyph
/// height.
pub proof fn lemma_count_glyph_iff(img: ImgView, g: GenView, entry: (PieceKind, u8), idx: int)
    ensures
        entry.1 <= 1 ==> slot_apply(img, g, entry, idx) == overlay_view(
            img,
            g.sprite_of(Color::Black, entry.0),
            slot_x_spec(idx, g.sprite_of(Color::Black, entry.0).width),
            slot_y_spec(idx, g.sprite_of(Color::Black, entry.0).height),
        ),
        entry.1 >= 2 ==> slot_apply(img, g, entry, idx).data == glyphs_spec(
            overlay_view(
                img,
                g.sprite_of(Color::Black, entry.0),
                slot_x_spec(idx, g.sprite_of(Color::Black, entry.0).width),
                slot_y_spec(idx, g.sprite_of(Color::Black, entry.0).height),
            ).data,
            slot_x_spec(idx, g.sprite_of(Color::Black, entry.0).width) + g.sprite_of(
                Color::Black,
                entry.0,
            ).width,
            slot_y_spec(idx, g.sprite_of(Color::Black, entry.0).height) + g.sprite_of(
                Color::Black,
                entry.0,
            ).height - COUNT_TEXT_SCALE,
            COUNT_TEXT_SCALE,
            count_text_px(),
            dec_str_spec(entry.1 as int),
            g.font,
        ),
{
}

/// The hand panel always keeps the fixed panel dimensions and stays
/// well-formed: sprites are overlaid in place and the glyph draw keeps the
/// row shape.
pub proof fn lemma_panel_n_wf(g: GenView, slots: Seq<(PieceKind, u8)>, n: int)
    ensures
        panel_n(g, slots, n).wf(),
        panel_n(g, slots, n).width == HAND_WIDTH - 1,
        panel_n(g, slots, n).height == HAND_HEIGHT,
    decreases n,
{
    lemma_filled_view_px(HAND_WIDTH - 1, HAND_HEIGHT as int, hand_bg_px());
    if n > 0 {
        lemma_panel_n_wf(g, slots, n - 1);
        let prev = panel_n(g, slots, n - 1);
        let entry = slots[n - 1];
        let sp = g.sprite_of(Color::Black, entry.0);
        let sx = slot_x_spec(n - 1, sp.width);
        let sy = slot_y_spec(n - 1, sp.height);
        lemma_overlay_view_wf(prev, sp, sx, sy);
        let over = overlay_view(prev, sp, sx, sy);
        let cur = slot_apply(prev, g, entry, n - 1);
        if entry.1 > 1 {
            assert(cur.data.len() == over.data.len());
            assert forall|yi: int| 0 <= yi < cur.data.len() implies #[trigger] cur.data[yi].len()
                == cur.width by {
                assert(cur.data[yi].len() == over.data[yi].len());
            }
        }
    }
}

/// The board layer keeps the board's dimensions.
proof fn lemma_board_layer_dims(g: GenView, p: PosView, n: int)
    ensures
        board_layer_n(g, p, n).width == g.board.width,
        board_layer_n(g, p, n).height == g.board.height,
    decreases n,
{
    if n > 0 {
        lemma_board_layer_dims(g, p, n - 1);
    }
}

/// The White-side hand panel equals the Black-side hand-panel layout
/// algorithm's output turned by 180 degrees, for any identical hand
/// composition: whenever one position's White hand is another's Black hand,
/// each output pixel of the first render's White panel region equals the
/// output pixel of the second render's Black panel region at the
/// 180-degree-rotated coordinates. Both regions composite the same panel
/// pixel onto the blank canvas.
pub proof fn lemma_white_panel_rotated(g: GenView, p1: PosView, p2: PosView, x: int, y: int)
    requires
        g.wf(),
        p1.hand_white == p2.hand_black,
        0 <= x < HAND_WIDTH - 1,
        0 <= y < HAND_HEIGHT,
    ensures
        render_view(g, p1).px_at(x, y) == render_view(g, p2).px_at(
            HAND_WIDTH + g.board.width + 1 + (HAND_WIDTH - 2 - x),
            g.board.height - HAND_HEIGHT + (HAND_HEIGHT - 1 - y),
        ),
{
    let h = p1.hand_white;
    let panel = hand_panel_view(g, h);
    let px = panel.px_at(HAND_WIDTH - 2 - x, HAND_HEIGHT - 1 - y);
    let canvas = filled_view(g.board.width + 2 * HAND_WIDTH, g.board.height, transparent_px());
    let bx = HAND_WIDTH + g.board.width + 1;
    let by = g.board.height - HAND_HEIGHT;
    lemma_panel_n_wf(g, hand_slots(h), hand_slots(h).len() as int);
    lemma_filled_view_px(g.board.width + 2 * HAND_WIDTH, g.board.height, transparent_px());
    // The White panel region of the first render: covered only by the
    // rotated panel; the board layer and the Black panel lie to its right.
    let wb1 = overlay_view(canvas, board_layer(g, p1), HAND_WIDTH as int, 0);
    let wblack1 = overlay_view(wb1, hand_panel_view(g, p1.hand_black), bx, by);
    lemma_board_layer_dims(g, p1, 81);
    lemma_panel_n_wf(g, hand_slots(p1.hand_black), hand_slots(p1.hand_black).len() as int);
    lemma_overlay_view_wf(canvas, board_layer(g, p1), HAND_WIDTH as int, 0);
    lemma_overlay_view_wf(wb1, hand_panel_view(g, p1.hand_black), bx, by);
    crate::img::lemma_rotate180_px(panel, x, y);
    crate::img::lemma_overlay_untouched_px(canvas, board_layer(g, p1), HAND_WIDTH as int, 0, x, y);
    crate::img::lemma_overlay_untouched_px(wb1, hand_panel_view(g, p1.hand_black), bx, by, x, y);
    assert(wblack1.px_at(x, y) == transparent_px());
    assert(render_view(g, p1).px_at(x, y) == blend_spec(transparent_px(), px));
    // The Black panel region of the second render: covered only by the same
    // panel; the board layer lies to its left and the rotated White panel at
    // the far corner.
    let xx = bx + (HAND_WIDTH - 2 - x);
    let yy = by + (HAND_HEIGHT - 1 - y);
    let wb2 = overlay_view(canvas, board_layer(g, p2), HAND_WIDTH as int, 0);
    let wblack2 = overlay_view(wb2, panel, bx, by);
    lemma_board_layer_dims(g, p2, 81);
    lemma_panel_n_wf(g, hand_slots(p2.hand_white), hand_slots(p2.hand_white).len() as int);
    lemma_overlay_view_wf(canvas, board_layer(g, p2), HAND_WIDTH as int, 0);
    lemma_overlay_view_wf(wb2, panel, bx, by);
    crate::img::lemma_overlay_untouched_px(canvas, board_layer(g, p2), HAND_WIDTH as int, 0, xx, yy);
    assert(wb2.px_at(xx, yy) == transparent_px());
    assert(wblack2.px_at(xx, yy) == blend_spec(transparent_px(), px));
    crate::img::lemma_overlay_untouched_px(
        wblack2,
        rotate180_view(hand_panel_view(g, p2.hand_white)),
        0,
        0,
        xx,
        yy,
    );
}

/// The hand kinds in panel priority order: highest value first, the king
/// excluded.
fn hand_priority_kinds() -> (r: Vec<PieceKind>)
    ensures
        r@ == hand_priority(),
{
    let mut v: Vec<PieceKind> = Vec::new();
    v.push(PieceKind::Rook);
    v.push(PieceKind::Bishop);
    v.push(PieceKind::Gold);
    v.push(PieceKind::Silver);
    v.push(PieceKind::Knight);
    v.push(PieceKind::Lance);
    v.push(PieceKind::Pawn);
    proof {
        assert(v@ =~= hand_priority());
    }
    v
}

} // verus!
