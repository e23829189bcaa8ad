//! A minimal 4x4 board variant.
//!
//! It instantiates every associated type and operation of the board
//! contract, which keeps the generic layer honest: the trait laws are
//! provable, and the whole stack can be exercised end to end on a concrete
//! board small enough to read at a glance.

use vstd::prelude::*;
use vstd::array::array_fill_for_copy_types;
use vstd::array::array_index_get;
use crate::board::BoardTypes;
use crate::board::GenericBoard;
use crate::board::Move;
use crate::coords::GenericFile;
use crate::coords::GenericRank;
use crate::occupancy::DefaultColorScheme;
use crate::occupancy::GenericPiece;
use crate::occupancy::RawSquare;
use crate::square::SquareIter;
use crate::square::SquarePos;
use crate::storage::GenericStorage;

verus! {

/// The demonstration variant's piece vocabulary.
#[derive(Copy, Clone, Debug, PartialEq, Eq)]
pub enum ToyPiece {
    Pawn,
    Knight,
}

impl GenericPiece for ToyPiece {

}

/// The four files of the 4x4 board.
#[derive(Copy, Clone, Debug, PartialEq, Eq)]
pub enum ToyFile {
    A,
    B,
    C,
    D,
}

/// The four ranks of the 4x4 board.
#[derive(Copy, Clone, Debug, PartialEq, Eq)]
pub enum ToyRank {
    R1,
    R2,
    R3,
    R4,
}

impl GenericFile<u8> for ToyFile {
    open spec fn index(self) -> nat {
        match self {
            ToyFile::A => 0,
            ToyFile::B => 1,
            ToyFile::C => 2,
            ToyFile::D => 3,
        }
    }

    open spec fn count() -> nat {
        4
    }

    proof fn lemma_index_in_range(self) {
    }

    proof fn lemma_index_injective(a: ToyFile, b: ToyFile) {
    }

    fn to_storage(self) -> u8 {
        match self {
            ToyFile::A => 0,
            ToyFile::B => 1,
            ToyFile::C => 2,
            ToyFile::D => 3,
        }
    }

    fn from_storage(input: u8) -> ToyFile {
        if input == 0 {
            ToyFile::A
        } else if input == 1 {
            ToyFile::B
        } else if input == 2 {
            ToyFile::C
        } else {
            ToyFile::D
        }
    }
}

impl GenericRank<u8> for ToyRank {
    open spec fn index(self) -> nat {
        match self {
            ToyRank::R1 => 0,
            ToyRank::R2 => 1,
            ToyRank::R3 => 2,
            ToyRank::R4 => 3,
        }
    }

    open spec fn count() -> nat {
        4
    }

    proof fn lemma_index_in_range(self) {
    }

    proof fn lemma_index_injective(a: ToyRank, b: ToyRank) {
    }

    fn to_storage(self) -> u8 {
        match self {
            ToyRank::R1 => 0,
            ToyRank::R2 => 1,
            ToyRank::R3 => 2,
            ToyRank::R4 => 3,
        }
    }

    fn from_storage(input: u8) -> ToyRank {
        if input == 0 {
            ToyRank::R1
        } else if input == 1 {
            ToyRank::R2
        } else if input == 2 {
            ToyRank::R3
        } else {
            ToyRank::R4
        }
    }
}

/// A 4x4 board: sixteen occupancy slots in linear order.
#[derive(Copy, Clone, Debug, PartialEq, Eq)]
pub struct ToyBoard {
    squares: [RawSquare<ToyPiece, DefaultColorScheme>; 16],
}

impl BoardTypes for ToyBoard {
    type PieceType = ToyPiece;

    type ColorType = DefaultColorScheme;

    type StorageType = u8;

    type FileType = ToyFile;

    type RankType = ToyRank;

    open spec fn side_len_spec() -> nat {
        4
    }

    proof fn lemma_side_len() {
    }

    fn side_len() -> u8 {
        4
    }
}

impl GenericBoard for ToyBoard {
    type RawMoveIteratorType = Vec<Move<ToyBoard>>;

    open spec fn wf(self) -> bool {
        true
    }

    closed spec fn occupancy(self) -> Seq<RawSquare<ToyPiece, DefaultColorScheme>> {
        self.squares@
    }

    /// A toy legality rule: the occupant of any on-board square may step to
    /// any empty on-board square.
    open spec fn move_legal_spec(self, board_move: Move<ToyBoard>) -> bool {
        &&& board_move.src.in_bounds()
        &&& board_move.dest.in_bounds()
        &&& !self.occupancy()[board_move.src.idx() as int].is_empty()
        &&& self.occupancy()[board_move.dest.idx() as int].is_empty()
    }

    proof fn lemma_wf_occupancy(self) {
        lemma_toy_area();
    }

    fn new() -> ToyBoard {
        let empty_slot = RawSquare::empty();
        ToyBoard { squares: array_fill_for_copy_types::<RawSquare<ToyPiece, DefaultColorScheme>, 16>(empty_slot) }
    }

    /// The starting layout: a square is occupied exactly when it lies on a
    /// home rank (rank 1 for white, rank 4 for black), each side's knight
    /// stands in its near corner, and a pawn stands on every other home
    /// square of its color.
    fn default() -> (r: ToyBoard)
        ensures
            forall|j: int| 0 <= j < 16 ==> (!(#[trigger] r.occupancy()[j]).is_empty() <==> (j % 4
                == 0 || j % 4 == 3)),
            r.occupancy()[0].data == Some((ToyPiece::Knight, DefaultColorScheme::White)),
            r.occupancy()[4].data == Some((ToyPiece::Pawn, DefaultColorScheme::White)),
            r.occupancy()[8].data == Some((ToyPiece::Pawn, DefaultColorScheme::White)),
            r.occupancy()[12].data == Some((ToyPiece::Pawn, DefaultColorScheme::White)),
            r.occupancy()[3].data == Some((ToyPiece::Knight, DefaultColorScheme::Black)),
            r.occupancy()[7].data == Some((ToyPiece::Pawn, DefaultColorScheme::Black)),
            r.occupancy()[11].data == Some((ToyPiece::Pawn, DefaultColorScheme::Black)),
            r.occupancy()[15].data == Some((ToyPiece::Pawn, DefaultColorScheme::Black)),
    {
        let empty_slot = RawSquare::empty();
        let mut board = ToyBoard {
            squares: array_fill_for_copy_types::<RawSquare<ToyPiece, DefaultColorScheme>, 16>(
                empty_slot,
            ),
        };
        let white_pawn = RawSquare::new(ToyPiece::Pawn, DefaultColorScheme::White);
        let black_pawn = RawSquare::new(ToyPiece::Pawn, DefaultColorScheme::Black);
        board.squares[0] = RawSquare::new(ToyPiece::Knight, DefaultColorScheme::White);
        board.squares[4] = white_pawn;
        board.squares[8] = white_pawn;
        board.squares[12] = white_pawn;
        board.squares[3] = RawSquare::new(ToyPiece::Knight, DefaultColorScheme::Black);
        board.squares[7] = black_pawn;
        board.squares[11] = black_pawn;
        board.squares[15] = black_pawn;
        board
    }

    fn is_move_legal(&self, board_move: Move<ToyBoard>) -> bool {
        proof {
            lemma_toy_area();
        }
        let src = board_move.src.raw_value();
        let dest = board_move.dest.raw_value();
        if src < 16 && dest < 16 {
            let src_slot = *array_index_get(&self.squares, src as usize);
            let dest_slot = *array_index_get(&self.squares, dest as usize);
            src_slot.data.is_some() && dest_slot.data.is_none()
        } else {
            false
        }
    }

    /// Raw moves of this variant: exactly one move to every empty on-board
    /// square; an empty source square yields no moves at all.  Under the
    /// toy rule the raw moves are already legal: each produced move starts
    /// at `pos` and the variant deems it legal on this state, and every
    /// empty on-board destination is reached.
    fn raw_moves_for_piece(&self, pos: SquarePos<ToyBoard>) -> (moves: Vec<Move<ToyBoard>>)
        ensures
            forall|k: int| 0 <= k < moves@.len() ==> (#[trigger] moves@[k]).src == pos
                && self.move_legal_spec(moves@[k]),
            self.occupancy()[pos.idx() as int].is_empty() ==> moves@.len() == 0,
            !self.occupancy()[pos.idx() as int].is_empty() ==> forall|d: SquarePos<ToyBoard>|
                d.in_bounds() && (#[trigger] self.occupancy()[d.idx() as int]).is_empty()
                    ==> moves@.contains((Move { src: pos, dest: d })),
    {
        proof {
            lemma_toy_area();
        }
        let mut moves: Vec<Move<ToyBoard>> = Vec::new();
        let src_slot = *array_index_get(&self.squares, pos.raw_value() as usize);
        if src_slot.data.is_none() {
            return moves;
        }
        let mut i: u8 = 0;
        while i < 16
            invariant
                i <= 16,
                pos.in_bounds(),
                ToyBoard::side_len_spec() * ToyBoard::side_len_spec() == 16,
                !self.occupancy()[pos.idx() as int].is_empty(),
                forall|k: int| 0 <= k < moves@.len() ==> (#[trigger] moves@[k]).src == pos
                    && self.move_legal_spec(moves@[k]),
                forall|d: SquarePos<ToyBoard>| d.idx() < i && (
                #[trigger] self.occupancy()[d.idx() as int]).is_empty()
                    ==> moves@.contains((Move { src: pos, dest: d })),
            decreases 16 - i,
        {
            let ghost previous = moves@;
            let candidate = SquarePos::<ToyBoard>::from_raw(i);
            let dest_slot = *array_index_get(&self.squares, i as usize);
            if dest_slot.data.is_none() {
                moves.push(Move::new(pos, candidate));
            }
            proof {
                assert forall|d: SquarePos<ToyBoard>|
                    d.idx() < i + 1 && (#[trigger] self.occupancy()[d.idx() as int]).is_empty()
                        implies moves@.contains((Move { src: pos, dest: d })) by {
                    if d.idx() == i as nat {
                        SquarePos::<ToyBoard>::lemma_eq_of_idx(d, candidate);
                        assert(moves@[moves@.len() - 1] == (Move { src: pos, dest: d }));
                    } else {
                        let k = choose|k: int|
                            0 <= k < previous.len() && previous[k] == (Move {
                                src: pos,
                                dest: d,
                            });
                        assert(moves@[k] == (Move { src: pos, dest: d }));
                    }
                }
            }
            i = i + 1;
        }
        moves
    }

    fn get_attackers_of_square(&self, target_pos: SquarePos<ToyBoard>) -> (r: Vec<
        SquarePos<ToyBoard>,
    >) {
        proof {
            lemma_toy_area();
        }
        let mut attackers: Vec<SquarePos<ToyBoard>> = Vec::new();
        let mut i: u8 = 0;
        while i < 16
            invariant
                i <= 16,
                forall|k: int| 0 <= k < attackers@.len() ==> (
                #[trigger] attackers@[k]).in_bounds() && self.move_legal_spec(
                    (Move { src: attackers@[k], dest: target_pos }),
                ),
                forall|p: SquarePos<ToyBoard>| p.idx() < i && #[trigger] self.move_legal_spec(
                    (Move { src: p, dest: target_pos }),
                ) ==> attackers@.contains(p),
            decreases 16 - i,
        {
            let ghost previous = attackers@;
            let candidate = SquarePos::<ToyBoard>::from_raw(i);
            if self.is_move_legal(Move::new(candidate, target_pos)) {
                attackers.push(candidate);
            }
            proof {
                assert forall|p: SquarePos<ToyBoard>|
                    p.idx() < i + 1 && #[trigger] self.move_legal_spec(
                        (Move { src: p, dest: target_pos }),
                    ) implies attackers@.contains(p) by {
                    if p.idx() == i as nat {
                        SquarePos::<ToyBoard>::lemma_eq_of_idx(p, candidate);
                        assert(attackers@[attackers@.len() - 1] == p);
                    } else {
                        let k = choose|k: int|
                            0 <= k < previous.len() && previous[k] == p;
                        assert(attackers@[k] == p);
                    }
                }
            }
            i = i + 1;
        }
        proof {
            lemma_toy_area();
        }
        attackers
    }

    fn raw_square_iter(&self) -> SquareIter<ToyBoard> {
        proof {
            lemma_toy_area();
        }
        SquareIter::new(SquarePos::from_raw(0), SquarePos::from_raw(16))
    }

    fn get(&self, pos: SquarePos<ToyBoard>) -> &RawSquare<ToyPiece, DefaultColorScheme> {
        proof {
            lemma_toy_area();
        }
        array_index_get(&self.squares, pos.raw_value() as usize)
    }

    fn swap(&mut self, pos: SquarePos<ToyBoard>, piece: &mut RawSquare<ToyPiece, DefaultColorScheme>) {
        proof {
            lemma_toy_area();
        }
        let i = pos.raw_value() as usize;
        let held = *piece;
        *piece = *array_index_get(&self.squares, i);
        self.squares[i] = held;
    }

    fn set(&mut self, pos: SquarePos<ToyBoard>, piece: RawSquare<ToyPiece, DefaultColorScheme>) -> (r:
        RawSquare<ToyPiece, DefaultColorScheme>) {
        proof {
            lemma_toy_area();
        }
        let i = pos.raw_value() as usize;
        let previous = *array_index_get(&self.squares, i);
        self.squares[i] = piece;
        previous
    }
}

/// The board area in squares: the product the generic bound
/// `side_len_spec() * side_len_spec()` denotes for this variant.
proof fn lemma_toy_area()
    ensures
        ToyBoard::side_len_spec() * ToyBoard::side_len_spec() == 16,
{
    let s = ToyBoard::side_len_spec();
    assert(s * s == 16) by (nonlinear_arith)
        requires
            s == 4,
    ;
}

} // verus!
