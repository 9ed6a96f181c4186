use shogi_img::assets::atlas_index;
use shogi_img::layout::{board_offset_to_square, hand_slot_offset, square_to_board_offset, square_to_highlight_offset};
use shogi_img::position::{all_kinds, startpos_occupant, Color, Hand, PieceKind, Square};

#[test]
fn square_new_accepts_the_board_and_rejects_the_rest() {
    assert!(Square::new(1, 1).is_some());
    assert!(Square::new(9, 9).is_some());
    assert!(Square::new(0, 5).is_none());
    assert!(Square::new(5, 0).is_none());
    assert!(Square::new(10, 1).is_none());
    assert!(Square::new(1, 10).is_none());
}

#[test]
fn piece_offsets_match_the_fixed_formula() {
    let sq = Square::new(5, 5).unwrap();
    assert_eq!(square_to_board_offset(sq), (9 + 57 * 4, 10 + 62 * 4));
    let sq19 = Square::new(1, 9).unwrap();
    assert_eq!(square_to_board_offset(sq19), (9 + 57 * 8, 10 + 62 * 8));
    let sq91 = Square::new(9, 1).unwrap();
    assert_eq!(square_to_board_offset(sq91), (9, 10));
}

#[test]
fn highlight_offsets_match_the_fixed_formula() {
    let sq = Square::new(5, 5).unwrap();
    assert_eq!(square_to_highlight_offset(sq), (8 + 57 * 4, 8 + 62 * 4));
    let sq91 = Square::new(9, 1).unwrap();
    assert_eq!(square_to_highlight_offset(sq91), (8, 8));
}

#[test]
fn board_offsets_round_trip_over_all_81_squares() {
    for file in 1..=9u8 {
        for rank in 1..=9u8 {
            let sq = Square::new(file, rank).unwrap();
            let (x, y) = square_to_board_offset(sq);
            let back = board_offset_to_square(x, y).unwrap();
            assert_eq!(back, sq);
        }
    }
}

#[test]
fn off_grid_offsets_decode_to_nothing() {
    assert_eq!(board_offset_to_square(0, 0), None);
    assert_eq!(board_offset_to_square(10, 10), None);
    assert_eq!(board_offset_to_square(9 + 57 * 9, 10), None);
    assert_eq!(board_offset_to_square(9, 10 + 62 * 9), None);
    assert_eq!(board_offset_to_square(9 + 1, 10), None);
}

#[test]
fn hand_slots_form_a_two_column_grid() {
    assert_eq!(hand_slot_offset(0, 53, 56), (20, 20));
    assert_eq!(hand_slot_offset(1, 53, 56), (20 + 53 + 30, 20));
    assert_eq!(hand_slot_offset(2, 53, 56), (20, 20 + 56 + 10));
    assert_eq!(hand_slot_offset(3, 53, 56), (20 + 53 + 30, 20 + 56 + 10));
    assert_eq!(hand_slot_offset(6, 53, 56), (20, 20 + 3 * (56 + 10)));
}

#[test]
fn atlas_indexes_cover_all_28_cells_exactly_once() {
    let mut seen = [false; 28];
    for color in [Color::Black, Color::White] {
        for kind in all_kinds() {
            let i = atlas_index(color, kind);
            assert!(i < 28);
            assert!(!seen[i]);
            seen[i] = true;
        }
    }
    assert!(seen.iter().all(|&s| s));
}

#[test]
fn atlas_indexes_match_the_asset_cell_layout() {
    // Row 0 of each side holds Rook through Pawn on columns 1 through 7.
    assert_eq!(atlas_index(Color::Black, PieceKind::Rook), 0);
    assert_eq!(atlas_index(Color::Black, PieceKind::Bishop), 1);
    assert_eq!(atlas_index(Color::Black, PieceKind::Gold), 2);
    assert_eq!(atlas_index(Color::Black, PieceKind::Silver), 3);
    assert_eq!(atlas_index(Color::Black, PieceKind::Knight), 4);
    assert_eq!(atlas_index(Color::Black, PieceKind::Lance), 5);
    assert_eq!(atlas_index(Color::Black, PieceKind::Pawn), 6);
    // Row 1 holds the king and the promoted kinds, each promoted kind in its
    // base kind's column.
    assert_eq!(atlas_index(Color::Black, PieceKind::King), 7);
    assert_eq!(atlas_index(Color::Black, PieceKind::ProRook), 8);
    assert_eq!(atlas_index(Color::Black, PieceKind::ProBishop), 9);
    assert_eq!(atlas_index(Color::Black, PieceKind::ProSilver), 10);
    assert_eq!(atlas_index(Color::Black, PieceKind::ProKnight), 11);
    assert_eq!(atlas_index(Color::Black, PieceKind::ProLance), 12);
    assert_eq!(atlas_index(Color::Black, PieceKind::ProPawn), 13);
    // White occupies the second half of the pack in the same layout.
    assert_eq!(atlas_index(Color::White, PieceKind::Rook), 14);
    assert_eq!(atlas_index(Color::White, PieceKind::ProPawn), 27);
}

#[test]
fn hand_counts_exist_only_for_hand_kinds() {
    let h = Hand::new().with_count(PieceKind::Pawn, 3).with_count(PieceKind::Rook, 1);
    assert_eq!(h.count(PieceKind::Pawn), Some(3));
    assert_eq!(h.count(PieceKind::Rook), Some(1));
    assert_eq!(h.count(PieceKind::Gold), Some(0));
    assert_eq!(h.count(PieceKind::King), None);
    assert_eq!(h.count(PieceKind::ProPawn), None);
}

#[test]
fn hand_counts_for_unholdable_kinds_cannot_be_set() {
    let h = Hand::new().with_count(PieceKind::King, 5).with_count(PieceKind::ProBishop, 2);
    assert_eq!(h.count(PieceKind::King), None);
    assert_eq!(h.count(PieceKind::ProBishop), None);
    for kind in all_kinds() {
        assert!(h.count(kind).unwrap_or(0) == 0);
    }
}

#[test]
fn startpos_places_the_standard_setup() {
    assert_eq!(
        startpos_occupant(5, 9).map(|p| (p.color, p.kind)),
        Some((Color::Black, PieceKind::King))
    );
    assert_eq!(
        startpos_occupant(5, 1).map(|p| (p.color, p.kind)),
        Some((Color::White, PieceKind::King))
    );
    assert_eq!(
        startpos_occupant(2, 8).map(|p| (p.color, p.kind)),
        Some((Color::Black, PieceKind::Rook))
    );
    assert_eq!(
        startpos_occupant(8, 8).map(|p| (p.color, p.kind)),
        Some((Color::Black, PieceKind::Bishop))
    );
    assert_eq!(
        startpos_occupant(8, 2).map(|p| (p.color, p.kind)),
        Some((Color::White, PieceKind::Rook))
    );
    for file in 1..=9u8 {
        assert_eq!(
            startpos_occupant(file, 7).map(|p| (p.color, p.kind)),
            Some((Color::Black, PieceKind::Pawn))
        );
        assert_eq!(
            startpos_occupant(file, 3).map(|p| (p.color, p.kind)),
            Some((Color::White, PieceKind::Pawn))
        );
        assert_eq!(startpos_occupant(file, 5), None);
    }
    assert_eq!(
        startpos_occupant(1, 9).map(|p| p.kind),
        Some(PieceKind::Lance)
    );
    assert_eq!(
        startpos_occupant(3, 1).map(|p| p.kind),
        Some(PieceKind::Silver)
    );
    assert_eq!(startpos_occupant(5, 2), None);
}
