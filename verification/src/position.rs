//! The renderer's view of a Shogi position: colors, piece kinds, squares,
//! moves, hands, and a minimal read-only position interface.
use vstd::prelude::*;

verus! {

/// The two sides. Black moves first and plays from the bottom of the board.
#[derive(Clone, Copy, PartialEq, Eq, Structural, Debug)]
pub enum Color {
    Black,
    White,
}

impl Color {
    /// Index of this color in tables: Black 0, White 1.
    pub open spec fn array_index_spec(self) -> int {
        match self {
            Color::Black => 0,
            Color::White => 1,
        }
    }

    /// Index of this color in tables: Black 0, White 1.
    pub fn array_index(self) -> (r: usize)
        ensures
            r as int == self.array_index_spec(),
    {
        match self {
            Color::Black => 0,
            Color::White => 1,
        }
    }
}

/// The fourteen piece kinds, promoted forms included. The order — Pawn,
/// Lance, Knight, Silver, Bishop, Rook, Gold, King, then the promoted forms
/// of the first six in the same relative order — fixes every sprite-table
/// index. Which atlas cell holds each kind's artwork is a separate, exact
/// contract with the asset files, written down in the atlas-cell table.
#[derive(Clone, Copy, PartialEq, Eq, Structural, Debug)]
pub enum PieceKind {
    Pawn,
    Lance,
    Knight,
    Silver,
    Bishop,
    Rook,
    Gold,
    King,
    ProPawn,
    ProLance,
    ProKnight,
    ProSilver,
    ProBishop,
    ProRook,
}

impl PieceKind {
    /// Index of this kind in the sprite table, following the declared order.
    pub open spec fn array_index_spec(self) -> int {
        match self {
            PieceKind::Pawn => 0,
            PieceKind::Lance => 1,
            PieceKind::Knight => 2,
            PieceKind::Silver => 3,
            PieceKind::Bishop => 4,
            PieceKind::Rook => 5,
            PieceKind::Gold => 6,
            PieceKind::King => 7,
            PieceKind::ProPawn => 8,
            PieceKind::ProLance => 9,
            PieceKind::ProKnight => 10,
            PieceKind::ProSilver => 11,
            PieceKind::ProBishop => 12,
            PieceKind::ProRook => 13,
        }
    }

    /// Index of this kind in the sprite table, following the declared order.
    pub fn array_index(self) -> (r: usize)
        ensures
            r as int == self.array_index_spec(),
    {
        match self {
            PieceKind::Pawn => 0,
            PieceKind::Lance => 1,
            PieceKind::Knight => 2,
            PieceKind::Silver => 3,
            PieceKind::Bishop => 4,
            PieceKind::Rook => 5,
            PieceKind::Gold => 6,
            PieceKind::King => 7,
            PieceKind::ProPawn => 8,
            PieceKind::ProLance => 9,
            PieceKind::ProKnight => 10,
            PieceKind::ProSilver => 11,
            PieceKind::ProBishop => 12,
            PieceKind::ProRook => 13,
        }
    }
}

/// All fourteen piece kinds in sprite-table order.
pub open spec fn all_kinds_spec() -> Seq<PieceKind> {
    seq![
        PieceKind::Pawn,
        PieceKind::Lance,
        PieceKind::Knight,
        PieceKind::Silver,
        PieceKind::Bishop,
        PieceKind::Rook,
        PieceKind::Gold,
        PieceKind::King,
        PieceKind::ProPawn,
        PieceKind::ProLance,
        PieceKind::ProKnight,
        PieceKind::ProSilver,
        PieceKind::ProBishop,
        PieceKind::ProRook,
    ]
}

/// All fourteen piece kinds in sprite-table order.
pub fn all_kinds() -> (r: Vec<PieceKind>)
    ensures
        r@ == all_kinds_spec(),
{
    let mut v: Vec<PieceKind> = Vec::new();
    v.push(PieceKind::Pawn);
    v.push(PieceKind::Lance);
    v.push(PieceKind::Knight);
    v.push(PieceKind::Silver);
    v.push(PieceKind::Bishop);
    v.push(PieceKind::Rook);
    v.push(PieceKind::Gold);
    v.push(PieceKind::King);
    v.push(PieceKind::ProPawn);
    v.push(PieceKind::ProLance);
    v.push(PieceKind::ProKnight);
    v.push(PieceKind::ProSilver);
    v.push(PieceKind::ProBishop);
    v.push(PieceKind::ProRook);
    proof {
        assert(v@ =~= all_kinds_spec());
    }
    v
}

/// One piece: a color and a kind.
#[derive(Clone, Copy, PartialEq, Eq, Structural, Debug)]
pub struct Piece {
    pub color: Color,
    pub kind: PieceKind,
}

impl Piece {
    /// A new piece of the given color and kind.
    pub fn new(color: Color, kind: PieceKind) -> (r: Piece)
        ensures
            r == (Piece { color, kind }),
    {
        Piece { color, kind }
    }

    /// The piece's color.
    pub fn color(&self) -> (r: Color)
        ensures
            r == self.color,
    {
        self.color
    }

    /// The piece's kind.
    pub fn piece_kind(&self) -> (r: PieceKind)
        ensures
            r == self.kind,
    {
        self.kind
    }
}

/// A board square: file and rank, both between 1 and 9. File 9 is the
/// leftmost column of the rendered board; rank 1 is its top row.
#[derive(Clone, Copy, PartialEq, Eq, Structural, Debug)]
pub struct Square {
    pub file: u8,
    pub rank: u8,
}

impl Square {
    /// File and rank are both between 1 and 9.
    pub open spec fn wf(self) -> bool {
        1 <= self.file <= 9 && 1 <= self.rank <= 9
    }

    /// Index of this square in a file-major enumeration of the 81 squares.
    pub open spec fn index_spec(self) -> int {
        (self.file - 1) * 9 + (self.rank - 1)
    }

    /// A new square, or `None` when file or rank falls outside 1 to 9.
    pub fn new(file: u8, rank: u8) -> (r: Option<Square>)
        ensures
            r matches Some(sq) ==> sq == (Square { file, rank }) && sq.wf(),
            r is Some <==> (1 <= file <= 9 && 1 <= rank <= 9),
    {
        if 1 <= file && file <= 9 && 1 <= rank && rank <= 9 {
            Some(Square { file, rank })
        } else {
            None
        }
    }

    /// Index of this square in a file-major enumeration of the 81 squares.
    pub fn index(&self) -> (r: usize)
        requires
            self.wf(),
        ensures
            r as int == self.index_spec(),
            r < 81,
    {
        (self.file as usize - 1) * 9 + (self.rank as usize - 1)
    }
}

/// The square at position `i` of the file-major enumeration.
pub open spec fn square_of_index(i: int) -> Square {
    Square { file: (i / 9 + 1) as u8, rank: (i % 9 + 1) as u8 }
}

/// The file-major enumeration and the square index are mutually inverse.
pub proof fn lemma_square_index_bijective(i: int, sq: Square)
    requires
        0 <= i < 81,
        sq.wf(),
    ensures
        square_of_index(i).wf(),
        square_of_index(i).index_spec() == i,
        square_of_index(sq.index_spec()) == sq,
        0 <= sq.index_spec() < 81,
{
    assert(0 <= i / 9 < 9 && 0 <= i % 9 < 9 && 9 * (i / 9) + i % 9 == i) by (nonlinear_arith)
        requires 0 <= i < 81;
    let f = sq.file as int - 1;
    let r = sq.rank as int - 1;
    assert((f * 9 + r) / 9 == f && (f * 9 + r) % 9 == r) by (nonlinear_arith)
        requires 0 <= f < 9 && 0 <= r < 9;
}

/// One move: either a piece moving between squares, possibly promoting, or a
/// captured piece dropped from the hand.
#[derive(Clone, Copy, PartialEq, Eq, Structural, Debug)]
pub enum Move {
    Normal { from: Square, to: Square, promote: bool },
    Drop { piece: Piece, to: Square },
}

impl Move {
    /// The destination square of the move.
    pub open spec fn dest_spec(self) -> Square {
        match self {
            Move::Normal { to, .. } => to,
            Move::Drop { to, .. } => to,
        }
    }

    /// The destination square of the move.
    pub fn to(&self) -> (r: Square)
        ensures
            r == self.dest_spec(),
    {
        match self {
            Move::Normal { to, .. } => *to,
            Move::Drop { to, .. } => *to,
        }
    }
}

/// The captured pieces one side holds, counted per kind. Only the seven
/// basic kinds can be held in hand.
#[derive(Clone, Copy, PartialEq, Eq, Structural, Debug)]
pub struct Hand {
    pub pawn: u8,
    pub lance: u8,
    pub knight: u8,
    pub silver: u8,
    pub gold: u8,
    pub bishop: u8,
    pub rook: u8,
}

/// Whether pieces of this kind can be held in hand.
pub open spec fn is_hand_kind(k: PieceKind) -> bool {
    match k {
        PieceKind::Pawn | PieceKind::Lance | PieceKind::Knight | PieceKind::Silver
            | PieceKind::Gold | PieceKind::Bishop | PieceKind::Rook => true,
        _ => false,
    }
}

impl Hand {
    /// How many pieces of kind `k` the hand holds; 0 for kinds that cannot
    /// be held.
    pub open spec fn count_spec(self, k: PieceKind) -> u8 {
        match k {
            PieceKind::Pawn => self.pawn,
            PieceKind::Lance => self.lance,
            PieceKind::Knight => self.knight,
            PieceKind::Silver => self.silver,
            PieceKind::Gold => self.gold,
            PieceKind::Bishop => self.bishop,
            PieceKind::Rook => self.rook,
            _ => 0,
        }
    }

    /// An empty hand.
    pub fn new() -> (r: Hand)
        ensures
            r == (Hand { pawn: 0u8, lance: 0u8, knight: 0u8, silver: 0u8, gold: 0u8, bishop: 0u8, rook: 0u8 }),
            forall|k: PieceKind| r.count_spec(k) == 0,
    {
        Hand { pawn: 0, lance: 0, knight: 0, silver: 0, gold: 0, bishop: 0, rook: 0 }
    }

    /// How many pieces of kind `k` the hand holds, or `None` for a kind that
    /// cannot be held in hand.
    pub fn count(&self, k: PieceKind) -> (r: Option<u8>)
        ensures
            r == if is_hand_kind(k) {
                Some(self.count_spec(k))
            } else {
                None::<u8>
            },
    {
        match k {
            PieceKind::Pawn => Some(self.pawn),
            PieceKind::Lance => Some(self.lance),
            PieceKind::Knight => Some(self.knight),
            PieceKind::Silver => Some(self.silver),
            PieceKind::Gold => Some(self.gold),
            PieceKind::Bishop => Some(self.bishop),
            PieceKind::Rook => Some(self.rook),
            _ => None,
        }
    }

    /// This hand with the count of kind `k` set to `n`; unchanged when `k`
    /// cannot be held in hand.
    pub fn with_count(self, k: PieceKind, n: u8) -> (r: Hand)
        ensures
            forall|k2: PieceKind|
                r.count_spec(k2) == if k2 == k && is_hand_kind(k) {
                    n
                } else {
                    self.count_spec(k2)
                },
    {
        match k {
            PieceKind::Pawn => Hand { pawn: n, ..self },
            PieceKind::Lance => Hand { lance: n, ..self },
            PieceKind::Knight => Hand { knight: n, ..self },
            PieceKind::Silver => Hand { silver: n, ..self },
            PieceKind::Gold => Hand { gold: n, ..self },
            PieceKind::Bishop => Hand { bishop: n, ..self },
            PieceKind::Rook => Hand { rook: n, ..self },
            _ => self,
        }
    }
}

/// The mathematical content of a position: the occupant of each of the 81
/// squares in file-major order, both hands, and the last move if any.
pub ghost struct PosView {
    pub occ: Seq<Option<Piece>>,
    pub hand_black: Hand,
    pub hand_white: Hand,
    pub last: Option<Move>,
}

impl PosView {
    /// The occupant of `sq`.
    pub open spec fn piece_at_spec(self, sq: Square) -> Option<Piece> {
        self.occ[sq.index_spec()]
    }

    /// The hand of `color`.
    pub open spec fn hand_spec(self, color: Color) -> Hand {
        match color {
            Color::Black => self.hand_black,
            Color::White => self.hand_white,
        }
    }

    /// The destination square of the last move, if a move was recorded.
    pub open spec fn last_dest(self) -> Option<Square> {
        match self.last {
            Some(m) => Some(m.dest_spec()),
            None => None,
        }
    }
}

/// The kind on the back rank of each file in the starting position.
pub open spec fn back_rank_kind(file: int) -> PieceKind {
    if file == 1 || file == 9 {
        PieceKind::Lance
    } else if file == 2 || file == 8 {
        PieceKind::Knight
    } else if file == 3 || file == 7 {
        PieceKind::Silver
    } else if file == 4 || file == 6 {
        PieceKind::Gold
    } else {
        PieceKind::King
    }
}

/// The occupant of a square in the default starting position. Rank 1 is
/// White's back rank; rank 9 is Black's.
pub open spec fn startpos_occ(sq: Square) -> Option<Piece> {
    let file = sq.file as int;
    let rank = sq.rank as int;
    if rank == 1 {
        Some(Piece { color: Color::White, kind: back_rank_kind(file) })
    } else if rank == 2 && file == 8 {
        Some(Piece { color: Color::White, kind: PieceKind::Rook })
    } else if rank == 2 && file == 2 {
        Some(Piece { color: Color::White, kind: PieceKind::Bishop })
    } else if rank == 3 {
        Some(Piece { color: Color::White, kind: PieceKind::Pawn })
    } else if rank == 7 {
        Some(Piece { color: Color::Black, kind: PieceKind::Pawn })
    } else if rank == 8 && file == 8 {
        Some(Piece { color: Color::Black, kind: PieceKind::Bishop })
    } else if rank == 8 && file == 2 {
        Some(Piece { color: Color::Black, kind: PieceKind::Rook })
    } else if rank == 9 {
        Some(Piece { color: Color::Black, kind: back_rank_kind(file) })
    } else {
        None
    }
}

/// The default starting position's mathematical content.
pub open spec fn startpos_view() -> PosView {
    PosView {
        occ: Seq::new(81, |i: int| startpos_occ(square_of_index(i))),
        hand_black: Hand { pawn: 0, lance: 0, knight: 0, silver: 0, gold: 0, bishop: 0, rook: 0 },
        hand_white: Hand { pawn: 0, lance: 0, knight: 0, silver: 0, gold: 0, bishop: 0, rook: 0 },
        last: None,
    }
}

/// The occupant of `(file, rank)` in the default starting position.
pub fn startpos_occupant(file: u8, rank: u8) -> (r: Option<Piece>)
    ensures
        r == startpos_occ(Square { file, rank }),
{
    let back: PieceKind = if file == 1 || file == 9 {
        PieceKind::Lance
    } else if file == 2 || file == 8 {
        PieceKind::Knight
    } else if file == 3 || file == 7 {
        PieceKind::Silver
    } else if file == 4 || file == 6 {
        PieceKind::Gold
    } else {
        PieceKind::King
    };
    if rank == 1 {
        Some(Piece { color: Color::White, kind: back })
    } else if rank == 2 && file == 8 {
        Some(Piece { color: Color::White, kind: PieceKind::Rook })
    } else if rank == 2 && file == 2 {
        Some(Piece { color: Color::White, kind: PieceKind::Bishop })
    } else if rank == 3 {
        Some(Piece { color: Color::White, kind: PieceKind::Pawn })
    } else if rank == 7 {
        Some(Piece { color: Color::Black, kind: PieceKind::Pawn })
    } else if rank == 8 && file == 8 {
        Some(Piece { color: Color::Black, kind: PieceKind::Bishop })
    } else if rank == 8 && file == 2 {
        Some(Piece { color: Color::Black, kind: PieceKind::Rook })
    } else if rank == 9 {
        Some(Piece { color: Color::Black, kind: back })
    } else {
        None
    }
}

/// Read-only access to a position: everything the renderer needs. Any type
/// exposing an occupant per square, a hand per color and an optional last
/// move can be rendered.
pub trait AsPosition {
    /// The mathematical content of this position.
    spec fn pos_view(&self) -> PosView;

    /// The occupant of `sq`.
    fn piece_at(&self, sq: Square) -> (r: Option<Piece>)
        requires
            sq.wf(),
        ensures
            r == self.pos_view().piece_at_spec(sq),
    ;

    /// The hand held by `color`.
    fn hand_of_a_player(&self, color: Color) -> (r: Hand)
        ensures
            r == self.pos_view().hand_spec(color),
    ;

    /// The last move, if one was recorded.
    fn last_move(&self) -> (r: Option<Move>)
        ensures
            r == self.pos_view().last,
    ;
}

/// A board-only snapshot of a position: piece placement, both hands, and an
/// optional last move.
pub struct PartialPosition {
    board: Vec<Option<Piece>>,
    hand_black: Hand,
    hand_white: Hand,
    last: Option<Move>,
}

impl PartialPosition {
    #[verifier::type_invariant]
    spec fn type_inv(self) -> bool {
        self.board.len() == 81
    }

    /// An empty position: no pieces on the board, empty hands, no last move.
    pub fn new() -> (r: PartialPosition)
        ensures
            r.pos_view() == (PosView {
                occ: Seq::new(81, |i: int| None::<Piece>),
                hand_black: Hand { pawn: 0, lance: 0, knight: 0, silver: 0, gold: 0, bishop: 0, rook: 0 },
                hand_white: Hand { pawn: 0, lance: 0, knight: 0, silver: 0, gold: 0, bishop: 0, rook: 0 },
                last: None::<Move>,
            }),
    {
        let mut board: Vec<Option<Piece>> = Vec::new();
        let mut i: usize = 0;
        while i < 81
            invariant
                i <= 81,
                board@.len() == i as int,
                forall|j: int| 0 <= j < i as int ==> board@[j] is None,
            decreases 81 - i,
        {
            board.push(None);
            i = i + 1;
        }
        let r = PartialPosition {
            board,
            hand_black: Hand::new(),
            hand_white: Hand::new(),
            last: None,
        };
        proof {
            assert(r.pos_view().occ =~= Seq::new(81, |i: int| None::<Piece>));
        }
        r
    }

    /// The default starting position: both back ranks set up, rooks and
    /// bishops on their home squares, all pawns on their third ranks, empty
    /// hands, no last move.
    pub fn startpos() -> (r: PartialPosition)
        ensures
            r.pos_view() == startpos_view(),
    {
        let mut board: Vec<Option<Piece>> = Vec::new();
        let mut i: u32 = 0;
        while i < 81
            invariant
                i <= 81,
                board@.len() == i as int,
                forall|j: int|
                    0 <= j < i as int ==> board@[j] == startpos_occ(#[trigger] square_of_index(j)),
            decreases 81 - i,
        {
            let file = (i / 9 + 1) as u8;
            let rank = (i % 9 + 1) as u8;
            proof {
                assert(square_of_index(i as int) == Square { file, rank });
            }
            board.push(startpos_occupant(file, rank));
            i = i + 1;
        }
        let r = PartialPosition {
            board,
            hand_black: Hand::new(),
            hand_white: Hand::new(),
            last: None,
        };
        proof {
            assert(r.pos_view().occ =~= startpos_view().occ);
        }
        r
    }

    /// Sets the occupant of `sq`.
    pub fn piece_set(&mut self, sq: Square, piece: Option<Piece>)
        requires
            sq.wf(),
        ensures
            final(self).pos_view() == (PosView {
                occ: old(self).pos_view().occ.update(sq.index_spec(), piece),
                ..old(self).pos_view()
            }),
    {
        proof {
            use_type_invariant(&*self);
        }
        let i = sq.index();
        let mut board: Vec<Option<Piece>> = Vec::new();
        let mut j: usize = 0;
        while j < self.board.len()
            invariant
                *self == *old(self),
                self.board.len() == 81,
                i < 81,
                j <= 81,
                board@.len() == j as int,
                forall|jj: int|
                    0 <= jj < j as int ==> board@[jj] == (if jj == i as int {
                        piece
                    } else {
                        old(self).board@[jj]
                    }),
            decreases 81 - j,
        {
            if j == i {
                board.push(piece);
            } else {
                board.push(self.board[j]);
            }
            j = j + 1;
        }
        self.board = board;
        proof {
            assert(self.board@ =~= old(self).board@.update(sq.index_spec(), piece));
        }
    }

    /// Sets the hand of `color`.
    pub fn set_hand(&mut self, color: Color, hand: Hand)
        ensures
            final(self).pos_view() == match color {
                Color::Black => PosView { hand_black: hand, ..old(self).pos_view() },
                Color::White => PosView { hand_white: hand, ..old(self).pos_view() },
            },
    {
        proof {
            use_type_invariant(&*self);
        }
        match color {
            Color::Black => {
                self.hand_black = hand;
            },
            Color::White => {
                self.hand_white = hand;
            },
        }
    }

    /// Sets or clears the recorded last move.
    pub fn set_last_move(&mut self, m: Option<Move>)
        ensures
            final(self).pos_view() == (PosView { last: m, ..old(self).pos_view() }),
    {
        proof {
            use_type_invariant(&*self);
        }
        self.last = m;
    }
}

impl AsPosition for PartialPosition {
    closed spec fn pos_view(&self) -> PosView {
        PosView {
            occ: self.board@,
            hand_black: self.hand_black,
            hand_white: self.hand_white,
            last: self.last,
        }
    }

    fn piece_at(&self, sq: Square) -> (r: Option<Piece>) {
        proof {
            use_type_invariant(self);
        }
        self.board[sq.index()]
    }

    fn hand_of_a_player(&self, color: Color) -> (r: Hand) {
        match color {
            Color::Black => self.hand_black,
            Color::White => self.hand_white,
        }
    }

    fn last_move(&self) -> (r: Option<Move>) {
        self.last
    }
}

} // verus!
