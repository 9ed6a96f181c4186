use shogi_img::assets::{atlas_index, Assets};
use shogi_img::generator::Generator;
use shogi_img::img::Img;
use shogi_img::pixel::Px;
use shogi_img::pos2img;
use shogi_img::position::{Color, Hand, Move, PartialPosition, Piece, PieceKind, Square};
use shogi_img::{BoardStyle, HighlightSquare, PiecesStyle};

fn push16(v: &mut Vec<u8>, x: u16) {
    v.extend_from_slice(&x.to_be_bytes());
}

fn push32(v: &mut Vec<u8>, x: u32) {
    v.extend_from_slice(&x.to_be_bytes());
}

fn pushi16(v: &mut Vec<u8>, x: i16) {
    v.extend_from_slice(&x.to_be_bytes());
}

/// A minimal TrueType font holding one triangle glyph mapped to the
/// character '2', enough for the count-glyph rasterizer to draw real pixels.
fn test_font() -> Vec<u8> {
    let mut cmap: Vec<u8> = Vec::new();
    push16(&mut cmap, 0); // version
    push16(&mut cmap, 1); // one encoding record
    push16(&mut cmap, 3); // platform: windows
    push16(&mut cmap, 1); // encoding: unicode bmp
    push32(&mut cmap, 12); // subtable offset
    push16(&mut cmap, 4); // format 4
    push16(&mut cmap, 32); // subtable length
    push16(&mut cmap, 0); // language
    push16(&mut cmap, 4); // segCountX2
    push16(&mut cmap, 4); // searchRange
    push16(&mut cmap, 1); // entrySelector
    push16(&mut cmap, 0); // rangeShift
    push16(&mut cmap, 0x0032); // end code: '2'
    push16(&mut cmap, 0xFFFF); // end code: terminator
    push16(&mut cmap, 0); // reserved pad
    push16(&mut cmap, 0x0032); // start code
    push16(&mut cmap, 0xFFFF);
    push16(&mut cmap, 65487); // id delta: '2' -> glyph 1
    push16(&mut cmap, 1);
    push16(&mut cmap, 0); // id range offsets
    push16(&mut cmap, 0);
    assert_eq!(cmap.len(), 44);

    let mut glyf: Vec<u8> = Vec::new();
    pushi16(&mut glyf, 1); // one contour
    pushi16(&mut glyf, 0); // x min
    pushi16(&mut glyf, 0); // y min
    pushi16(&mut glyf, 700); // x max
    pushi16(&mut glyf, 700); // y max
    push16(&mut glyf, 2); // last point index
    push16(&mut glyf, 0); // no instructions
    glyf.push(0x31); // point 1: on curve, dx 0, dy 0
    glyf.push(0x21); // point 2: on curve, dx as i16, dy 0
    glyf.push(0x01); // point 3: on curve, dx and dy as i16
    pushi16(&mut glyf, 700); // point 2 dx
    pushi16(&mut glyf, -350); // point 3 dx
    pushi16(&mut glyf, 700); // point 3 dy
    glyf.push(0); // pad to even length
    assert_eq!(glyf.len(), 24);

    let mut head: Vec<u8> = Vec::new();
    push32(&mut head, 0x00010000); // version
    push32(&mut head, 0); // revision
    push32(&mut head, 0); // checksum adjustment
    push32(&mut head, 0x5F0F3CF5); // magic
    push16(&mut head, 0); // flags
    push16(&mut head, 1000); // units per em
    push32(&mut head, 0); // created
    push32(&mut head, 0);
    push32(&mut head, 0); // modified
    push32(&mut head, 0);
    pushi16(&mut head, 0); // x min
    pushi16(&mut head, 0); // y min
    pushi16(&mut head, 700); // x max
    pushi16(&mut head, 700); // y max
    push16(&mut head, 0); // mac style
    push16(&mut head, 8); // lowest ppem
    pushi16(&mut head, 2); // direction hint
    pushi16(&mut head, 0); // short loca format
    pushi16(&mut head, 0); // glyph data format
    assert_eq!(head.len(), 54);

    let mut hhea: Vec<u8> = Vec::new();
    push32(&mut hhea, 0x00010000); // version
    pushi16(&mut hhea, 800); // ascender
    pushi16(&mut hhea, -200); // descender
    pushi16(&mut hhea, 0); // line gap
    push16(&mut hhea, 700); // max advance
    pushi16(&mut hhea, 0); // min left side bearing
    pushi16(&mut hhea, 0); // min right side bearing
    pushi16(&mut hhea, 700); // max extent
    pushi16(&mut hhea, 1); // caret slope rise
    pushi16(&mut hhea, 0); // caret slope run
    pushi16(&mut hhea, 0); // caret offset
    pushi16(&mut hhea, 0); // reserved
    pushi16(&mut hhea, 0);
    pushi16(&mut hhea, 0);
    pushi16(&mut hhea, 0);
    pushi16(&mut hhea, 0); // metric data format
    push16(&mut hhea, 2); // number of h metrics
    assert_eq!(hhea.len(), 36);

    let mut hmtx: Vec<u8> = Vec::new();
    push16(&mut hmtx, 500); // glyph 0 advance
    pushi16(&mut hmtx, 0);
    push16(&mut hmtx, 700); // glyph 1 advance
    pushi16(&mut hmtx, 0);

    let mut loca: Vec<u8> = Vec::new();
    push16(&mut loca, 0);
    push16(&mut loca, 0); // glyph 0 is empty
    push16(&mut loca, 12); // glyph 1 ends at byte 24

    let mut maxp: Vec<u8> = Vec::new();
    push32(&mut maxp, 0x00010000);
    push16(&mut maxp, 2); // two glyphs

    let tables: [(&[u8; 4], &Vec<u8>); 7] = [
        (b"cmap", &cmap),
        (b"glyf", &glyf),
        (b"head", &head),
        (b"hhea", &hhea),
        (b"hmtx", &hmtx),
        (b"loca", &loca),
        (b"maxp", &maxp),
    ];
    let mut font: Vec<u8> = Vec::new();
    push32(&mut font, 0x00010000); // TrueType magic
    push16(&mut font, 7); // table count
    push16(&mut font, 0);
    push16(&mut font, 0);
    push16(&mut font, 0);
    let mut offset: u32 = 12 + 7 * 16;
    for (tag, data) in tables.iter() {
        font.extend_from_slice(*tag);
        push32(&mut font, 0); // checksum, unchecked
        push32(&mut font, offset);
        push32(&mut font, data.len() as u32);
        offset += data.len() as u32;
    }
    for (_, data) in tables.iter() {
        font.extend_from_slice(data);
    }
    font
}

fn png_bytes(img: &image::RgbaImage) -> Vec<u8> {
    let mut cursor = std::io::Cursor::new(Vec::new());
    img.write_with_encoder(image::codecs::png::PngEncoder::new(&mut cursor)).unwrap();
    cursor.into_inner()
}

fn solid_png(w: u32, h: u32, rgba: [u8; 4]) -> Vec<u8> {
    png_bytes(&image::RgbaImage::from_pixel(w, h, image::Rgba(rgba)))
}

const BOARD_RGBA: [u8; 4] = [50, 60, 70, 255];
const BOARD_W: u32 = 527;
const BOARD_H: u32 = 572;
const SPRITE_W: u32 = 10;
const SPRITE_H: u32 = 12;
const PANEL_BG: [u8; 4] = [178, 147, 108, 255];

fn sprite_rgba(i: usize) -> [u8; 4] {
    [(i * 9) as u8, 100, 200, 255]
}

fn gothic_rgba(i: usize) -> [u8; 4] {
    [(i * 9) as u8, 150, 40, 255]
}

fn test_assets() -> Assets {
    Assets {
        light: solid_png(BOARD_W, BOARD_H, BOARD_RGBA),
        warm: solid_png(BOARD_W, BOARD_H, [80, 60, 40, 255]),
        resin: solid_png(BOARD_W, BOARD_H, [90, 90, 90, 255]),
        hitomoji: (0..28).map(|i| solid_png(SPRITE_W, SPRITE_H, sprite_rgba(i))).collect(),
        hitomoji_gothic: (0..28).map(|i| solid_png(SPRITE_W, SPRITE_H, gothic_rgba(i))).collect(),
        font: test_font(),
    }
}

fn px_of(rgba: [u8; 4]) -> Px {
    Px { r: rgba[0], g: rgba[1], b: rgba[2], a: rgba[3] }
}

fn sprite_px(color: Color, kind: PieceKind) -> Px {
    px_of(sprite_rgba(atlas_index(color, kind)))
}

fn reference_blend_px(bottom: Px, top: Px) -> Px {
    let mut p = image::Rgba([bottom.r, bottom.g, bottom.b, bottom.a]);
    image::Pixel::blend(&mut p, &image::Rgba([top.r, top.g, top.b, top.a]));
    Px { r: p.0[0], g: p.0[1], b: p.0[2], a: p.0[3] }
}

fn default_generator() -> Generator {
    Generator::new(
        BoardStyle::Light,
        PiecesStyle::Hitomoji,
        HighlightSquare::NoHighlight,
        &test_assets(),
    )
    .unwrap()
}

#[test]
fn construction_rejects_each_broken_asset() {
    let good = test_assets();
    assert!(Generator::new(
        BoardStyle::Light,
        PiecesStyle::Hitomoji,
        HighlightSquare::NoHighlight,
        &good
    )
    .is_some());

    let mut bad_font = test_assets();
    bad_font.font = vec![1, 2, 3];
    assert!(Generator::new(
        BoardStyle::Light,
        PiecesStyle::Hitomoji,
        HighlightSquare::NoHighlight,
        &bad_font
    )
    .is_none());

    let mut short_pack = test_assets();
    short_pack.hitomoji.pop();
    assert!(Generator::new(
        BoardStyle::Light,
        PiecesStyle::Hitomoji,
        HighlightSquare::NoHighlight,
        &short_pack
    )
    .is_none());
    // The full gothic pack still constructs.
    assert!(Generator::new(
        BoardStyle::Light,
        PiecesStyle::HitomojiGothic,
        HighlightSquare::NoHighlight,
        &short_pack
    )
    .is_some());

    let mut bad_sprite = test_assets();
    bad_sprite.hitomoji[5] = vec![0, 1, 2];
    assert!(Generator::new(
        BoardStyle::Light,
        PiecesStyle::Hitomoji,
        HighlightSquare::NoHighlight,
        &bad_sprite
    )
    .is_none());

    let mut flat_sprite = test_assets();
    flat_sprite.hitomoji[5] = solid_png(10, 3, [1, 2, 3, 255]);
    assert!(Generator::new(
        BoardStyle::Light,
        PiecesStyle::Hitomoji,
        HighlightSquare::NoHighlight,
        &flat_sprite
    )
    .is_none());

    let mut bad_board = test_assets();
    bad_board.warm = vec![9, 9];
    assert!(Generator::new(
        BoardStyle::Warm,
        PiecesStyle::Hitomoji,
        HighlightSquare::NoHighlight,
        &bad_board
    )
    .is_none());
    // The broken warm board does not hinder the light one.
    assert!(Generator::new(
        BoardStyle::Light,
        PiecesStyle::Hitomoji,
        HighlightSquare::NoHighlight,
        &bad_board
    )
    .is_some());

    let mut short_board = test_assets();
    short_board.light = solid_png(400, 200, BOARD_RGBA);
    assert!(Generator::new(
        BoardStyle::Light,
        PiecesStyle::Hitomoji,
        HighlightSquare::NoHighlight,
        &short_board
    )
    .is_none());
}

#[test]
fn empty_position_renders_the_bare_board_and_empty_panels() {
    let gen = default_generator();
    let out = gen.generate(&PartialPosition::new());
    assert_eq!(out.width(), BOARD_W + 400);
    assert_eq!(out.height(), BOARD_H);
    let board = px_of(BOARD_RGBA);
    for y in (0..BOARD_H).step_by(13) {
        for x in (0..BOARD_W).step_by(11) {
            assert_eq!(out.pixel(200 + x, y), board);
        }
    }
    let bg = px_of(PANEL_BG);
    // White panel: 199 x 300 at the top-left corner.
    for y in (0..300u32).step_by(7) {
        for x in (0..199u32).step_by(7) {
            assert_eq!(out.pixel(x, y), bg);
        }
    }
    // Black panel: 199 x 300 at the bottom-right corner.
    for y in (0..300u32).step_by(7) {
        for x in (0..199u32).step_by(7) {
            assert_eq!(out.pixel(201 + BOARD_W + x, BOARD_H - 300 + y), bg);
        }
    }
    // The seams around the board stay blank.
    let blank = Px { r: 0, g: 0, b: 0, a: 0 };
    assert_eq!(out.pixel(199, 0), blank);
    assert_eq!(out.pixel(200 + BOARD_W, BOARD_H - 1), blank);
    assert_eq!(out.pixel(0, 300), blank);
    assert_eq!(out.pixel(out.width() - 1, 0), blank);
}

#[test]
fn a_single_piece_lands_exactly_on_its_square_offset() {
    let gen = default_generator();
    for (color, kind) in [
        (Color::Black, PieceKind::Pawn),
        (Color::White, PieceKind::Pawn),
        (Color::Black, PieceKind::King),
        (Color::White, PieceKind::ProRook),
        (Color::Black, PieceKind::Gold),
    ] {
        let mut pos = PartialPosition::new();
        let sq = Square::new(5, 5).unwrap();
        pos.piece_set(sq, Some(Piece::new(color, kind)));
        let out = gen.generate(&pos);
        let expected = sprite_px(color, kind);
        // The piece offset of (5, 5), shifted by the board's center offset.
        let ox = 200 + 9 + 57 * 4;
        let oy = 10 + 62 * 4;
        for dy in 0..SPRITE_H {
            for dx in 0..SPRITE_W {
                assert_eq!(out.pixel(ox + dx, oy + dy), expected);
            }
        }
        let board = px_of(BOARD_RGBA);
        assert_eq!(out.pixel(ox - 1, oy), board);
        assert_eq!(out.pixel(ox + SPRITE_W, oy), board);
        assert_eq!(out.pixel(ox, oy - 1), board);
        assert_eq!(out.pixel(ox, oy + SPRITE_H), board);
    }
}

#[test]
fn the_two_sprite_families_select_different_artwork() {
    let assets = test_assets();
    let gen = Generator::new(
        BoardStyle::Light,
        PiecesStyle::HitomojiGothic,
        HighlightSquare::NoHighlight,
        &assets,
    )
    .unwrap();
    let mut pos = PartialPosition::new();
    let sq = Square::new(5, 5).unwrap();
    pos.piece_set(sq, Some(Piece::new(Color::Black, PieceKind::Pawn)));
    let out = gen.generate(&pos);
    let expected = px_of(gothic_rgba(atlas_index(Color::Black, PieceKind::Pawn)));
    assert_eq!(out.pixel(200 + 9 + 57 * 4, 10 + 62 * 4), expected);
}

#[test]
fn hand_panel_packs_nonzero_kinds_densely() {
    let gen = default_generator();
    let mut pos = PartialPosition::new();
    let hand = Hand::new()
        .with_count(PieceKind::Rook, 1)
        .with_count(PieceKind::Knight, 5)
        .with_count(PieceKind::Pawn, 18);
    pos.set_hand(Color::Black, hand);
    let out = gen.generate(&pos);
    let px0 = 201 + BOARD_W;
    let py0 = BOARD_H - 300;
    // Slot 0: the rook, the highest-value nonzero kind.
    assert_eq!(out.pixel(px0 + 20, py0 + 20), sprite_px(Color::Black, PieceKind::Rook));
    // Slot 1: the knight, skipping bishop, gold and silver without a gap.
    assert_eq!(
        out.pixel(px0 + 20 + SPRITE_W + 30, py0 + 20),
        sprite_px(Color::Black, PieceKind::Knight)
    );
    // Slot 2: the pawn, on the next row.
    assert_eq!(
        out.pixel(px0 + 20, py0 + 20 + SPRITE_H + 10),
        sprite_px(Color::Black, PieceKind::Pawn)
    );
    // Slot 3 stays empty.
    assert_eq!(
        out.pixel(px0 + 20 + SPRITE_W + 30, py0 + 20 + SPRITE_H + 10),
        px_of(PANEL_BG)
    );
}

#[test]
fn count_glyphs_appear_exactly_for_counts_of_two_or_more() {
    let gen = default_generator();
    let mut pos1 = PartialPosition::new();
    pos1.set_hand(Color::Black, Hand::new().with_count(PieceKind::Rook, 1));
    let out1 = gen.generate(&pos1);
    let px0 = 201 + BOARD_W;
    let py0 = BOARD_H - 300;
    // A count of 1: the panel holds the background and the sprite, nothing else.
    let bg = px_of(PANEL_BG);
    let sprite = sprite_px(Color::Black, PieceKind::Rook);
    for y in 0..300u32 {
        for x in 0..199u32 {
            let p = out1.pixel(px0 + x, py0 + y);
            let in_sprite = (20..20 + SPRITE_W).contains(&x) && (20..20 + SPRITE_H).contains(&y);
            if in_sprite {
                assert_eq!(p, sprite);
            } else {
                assert_eq!(p, bg);
            }
        }
    }
    // A count of 2 draws glyph pixels beside the sprite.
    let mut pos2 = PartialPosition::new();
    pos2.set_hand(Color::Black, Hand::new().with_count(PieceKind::Rook, 2));
    let out2 = gen.generate(&pos2);
    let mut changed = 0u32;
    for y in 0..300u32 {
        for x in 0..199u32 {
            let p = out2.pixel(px0 + x, py0 + y);
            let in_sprite = (20..20 + SPRITE_W).contains(&x) && (20..20 + SPRITE_H).contains(&y);
            if !in_sprite && p != bg {
                changed += 1;
            }
        }
    }
    assert!(changed > 0);
}

#[test]
fn the_largest_hand_count_still_renders_its_sprite() {
    let gen = default_generator();
    let mut pos = PartialPosition::new();
    pos.set_hand(Color::Black, Hand::new().with_count(PieceKind::Pawn, 255));
    let out = gen.generate(&pos);
    let px0 = 201 + BOARD_W;
    let py0 = BOARD_H - 300;
    assert_eq!(out.pixel(px0 + 20, py0 + 20), sprite_px(Color::Black, PieceKind::Pawn));
}

#[test]
fn every_board_finish_constructs_from_its_own_blob() {
    let assets = test_assets();
    for style in [BoardStyle::Light, BoardStyle::Warm, BoardStyle::Resin] {
        assert!(Generator::new(
            style,
            PiecesStyle::Hitomoji,
            HighlightSquare::LastMoveTo,
            &assets
        )
        .is_some());
    }
}

#[test]
fn white_hand_panel_is_the_black_layout_rotated_180_degrees() {
    let gen = default_generator();
    let hand = Hand::new().with_count(PieceKind::Gold, 2).with_count(PieceKind::Pawn, 4);
    let mut pos = PartialPosition::new();
    pos.set_hand(Color::Black, hand);
    pos.set_hand(Color::White, hand);
    let out = gen.generate(&pos);
    let px0 = 201 + BOARD_W;
    let py0 = BOARD_H - 300;
    for y in 0..300u32 {
        for x in 0..199u32 {
            assert_eq!(
                out.pixel(x, y),
                out.pixel(px0 + (198 - x), py0 + (299 - y)),
            );
        }
    }
}

#[test]
fn highlight_overlays_the_destination_square_when_enabled() {
    let assets = test_assets();
    let gen = Generator::new(
        BoardStyle::Light,
        PiecesStyle::Hitomoji,
        HighlightSquare::LastMoveTo,
        &assets,
    )
    .unwrap();
    let sq = Square::new(5, 5).unwrap();
    let from = Square::new(5, 6).unwrap();
    let mut pos = PartialPosition::new();
    pos.piece_set(sq, Some(Piece::new(Color::Black, PieceKind::Silver)));
    pos.set_last_move(Some(Move::Normal { from, to: sq, promote: false }));
    let out = gen.generate(&pos);
    // A pixel inside the highlight rectangle but outside the sprite.
    let hx = 200 + 8 + 57 * 4 + 50;
    let hy = 8 + 62 * 4 + 55;
    let expected = reference_blend_px(px_of(BOARD_RGBA), Px { r: 255, g: 64, b: 64, a: 127 });
    assert_eq!(out.pixel(hx, hy), expected);
    assert_ne!(out.pixel(hx, hy), px_of(BOARD_RGBA));

    // Without a last move the same square is plain board.
    let mut still = PartialPosition::new();
    still.piece_set(sq, Some(Piece::new(Color::Black, PieceKind::Silver)));
    let out2 = gen.generate(&still);
    assert_eq!(out2.pixel(hx, hy), px_of(BOARD_RGBA));

    // With highlighting disabled the last move leaves no mark.
    let plain = default_generator().generate(&pos);
    assert_eq!(plain.pixel(hx, hy), px_of(BOARD_RGBA));
}

#[test]
fn startpos_renders_to_the_fixed_dimensions_with_empty_panels() {
    let out = pos2img(&PartialPosition::startpos(), &test_assets()).unwrap();
    assert_eq!(out.width(), BOARD_W + 400);
    assert_eq!(out.height(), BOARD_H);
    // Both kings stand on their home squares.
    assert_eq!(
        out.pixel(200 + 9 + 57 * 4, 10 + 62 * 8),
        sprite_px(Color::Black, PieceKind::King)
    );
    assert_eq!(
        out.pixel(200 + 9 + 57 * 4, 10),
        sprite_px(Color::White, PieceKind::King)
    );
    // Black's rook on file 2, rank 8; White's on file 8, rank 2.
    assert_eq!(
        out.pixel(200 + 9 + 57 * 7, 10 + 62 * 7),
        sprite_px(Color::Black, PieceKind::Rook)
    );
    assert_eq!(
        out.pixel(200 + 9 + 57 * 1, 10 + 62 * 1),
        sprite_px(Color::White, PieceKind::Rook)
    );
    // The middle of the board is bare.
    assert_eq!(out.pixel(200 + 9 + 57 * 4, 10 + 62 * 4), px_of(BOARD_RGBA));
    // Both hand panels are untouched background.
    assert_eq!(out.pixel(20, 20), px_of(PANEL_BG));
    assert_eq!(out.pixel(201 + BOARD_W + 20, BOARD_H - 300 + 20), px_of(PANEL_BG));
}

#[test]
fn pos2img_fails_exactly_when_the_assets_do() {
    let mut bad = test_assets();
    bad.font = vec![0; 10];
    assert!(pos2img(&PartialPosition::new(), &bad).is_none());
    assert!(pos2img(&PartialPosition::new(), &test_assets()).is_some());
}

#[test]
fn rendering_reads_the_position_through_the_interface() {
    // Rendering twice from one generator gives identical output.
    let gen = default_generator();
    let mut pos = PartialPosition::new();
    pos.piece_set(Square::new(1, 1).unwrap(), Some(Piece::new(Color::White, PieceKind::Lance)));
    let a: Img = gen.generate(&pos);
    let b: Img = gen.generate(&pos);
    assert_eq!(a.width(), b.width());
    assert_eq!(a.height(), b.height());
    for y in (0..a.height()).step_by(17) {
        for x in (0..a.width()).step_by(17) {
            assert_eq!(a.pixel(x, y), b.pixel(x, y));
        }
    }
}
