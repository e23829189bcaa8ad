//! The move pair and the central board contract.

use vstd::prelude::*;
use crate::coords::GenericFile;
use crate::coords::GenericRank;
use crate::occupancy::GenericColor;
use crate::occupancy::GenericPiece;
use crate::occupancy::RawSquare;
use crate::square::SquareIter;
use crate::square::SquarePos;
use crate::storage::GenericStorage;

verus! {

/// An ordered (source, destination) pair of positions, scoped to one board
/// variant.  Promotion, capture and other semantic annotations are layered
/// on top by richer, variant-specific move types.
#[derive(Copy, Clone, PartialEq, Eq)]
pub struct Move<BoardType: BoardTypes> {
    pub src: SquarePos<BoardType>,
    pub dest: SquarePos<BoardType>,
}

impl<BoardType: BoardTypes> Move<BoardType> {
    /// Pairs a source with a destination.
    pub fn new(src: SquarePos<BoardType>, dest: SquarePos<BoardType>) -> (r: Move<BoardType>)
        ensures
            r.src == src,
            r.dest == dest,
    {
        Move { src, dest }
    }
}

/// The type vocabulary and geometry of one board variant: the associated
/// piece, color, storage and coordinate codec types, and the fixed side
/// length.  The position and iterator machinery is generic over this
/// vocabulary alone; the stateful operations live in [`GenericBoard`],
/// which extends it.
pub trait BoardTypes: Sized + Copy + Clone + PartialEq + Eq {
    type PieceType: GenericPiece;

    type ColorType: GenericColor;

    type StorageType: GenericStorage;

    type FileType: GenericFile<Self::StorageType>;

    type RankType: GenericRank<Self::StorageType>;

    /// The variant's per-axis square count.
    spec fn side_len_spec() -> nat;

    /// The side length is positive, its square is representable in the
    /// storage numeral, and both axis codecs cover the board.
    proof fn lemma_side_len()
        ensures
            0 < Self::side_len_spec(),
            Self::side_len_spec() * Self::side_len_spec() <= Self::StorageType::max_spec(),
            Self::side_len_spec() <= Self::FileType::count(),
            Self::side_len_spec() <= Self::RankType::count(),
    ;

    /// The fixed side length, as a storage value.
    fn side_len() -> (r: Self::StorageType)
        ensures
            r.as_nat() == Self::side_len_spec(),
    ;
}

/// The contract a concrete board variant satisfies: the sole integration
/// point between this layer and game-specific logic.
///
/// A board is a mutable occupancy mapping — one slot per linear square
/// index, `occupancy()` in specifications — plus query operations.  Well
/// formed boards (`wf`) map exactly `side_len²` indices, and the three
/// sanctioned occupancy primitives `get`, `set` and `swap` read and rewrite
/// single entries of that mapping.
pub trait GenericBoard: BoardTypes {
    type RawMoveIteratorType;

    /// Whether this board value is well formed.
    spec fn wf(self) -> bool;

    /// The occupancy mapping: the slot at each linear square index.
    spec fn occupancy(self) -> Seq<RawSquare<Self::PieceType, Self::ColorType>>;

    /// What the variant deems a fully legal move on this board state.
    spec fn move_legal_spec(self, board_move: Move<Self>) -> bool;

    /// A well formed board maps every one of its `side_len²` squares.
    proof fn lemma_wf_occupancy(self)
        requires
            self.wf(),
        ensures
            self.occupancy().len() == Self::side_len_spec() * Self::side_len_spec(),
    ;

    /// A board with every square's occupancy slot empty.
    fn new() -> (r: Self)
        ensures
            r.wf(),
            forall|i: int| 0 <= i < r.occupancy().len() ==> (#[trigger] r.occupancy()[i]).is_empty(),
    ;

    /// A board with the variant's canonical starting occupancy; what that
    /// layout is stays entirely variant-defined.
    fn default() -> (r: Self)
        ensures
            r.wf(),
    ;

    /// Decides full legality of a move on the current state: a pure query,
    /// answering exactly the variant's legality specification.
    fn is_move_legal(&self, board_move: Move<Self>) -> (r: bool)
        requires
            self.wf(),
        ensures
            r == self.move_legal_spec(board_move),
    ;

    /// Enumerates the raw moves of the piece occupying `pos`: movements
    /// reachable under its pattern alone, possibly transitively illegal.
    /// What an empty square yields is variant-defined; the variant must
    /// document it rather than fabricate moves by accident.  The iterator
    /// type is opaque to this layer, so nothing can be promised here about
    /// its contents: a variant whose iterator type has a specification
    /// view states soundness and completeness of its raw moves in its own
    /// impl, as the demonstration variant does.
    fn raw_moves_for_piece(&self, pos: SquarePos<Self>) -> Self::RawMoveIteratorType
        requires
            self.wf(),
            pos.in_bounds(),
    ;

    /// The squares attacking `target_pos`: exactly those on-board positions
    /// from which the variant deems a move to `target_pos` legal.
    fn get_attackers_of_square(&self, target_pos: SquarePos<Self>) -> (r: Vec<SquarePos<Self>>)
        requires
            self.wf(),
            target_pos.in_bounds(),
        ensures
            forall|i: int| 0 <= i < r@.len() ==> (#[trigger] r@[i]).in_bounds()
                && self.move_legal_spec((Move { src: r@[i], dest: target_pos })),
            forall|p: SquarePos<Self>| p.in_bounds() && #[trigger] self.move_legal_spec(
                (Move { src: p, dest: target_pos }),
            ) ==> r@.contains(p),
    ;

    /// An iterator over all on-board positions, in ascending linear order,
    /// bound `[0, side_len²)`.
    fn raw_square_iter(&self) -> (r: SquareIter<Self>)
        requires
            self.wf(),
        ensures
            r.cur_idx() == 0,
            r.end_idx() == Self::side_len_spec() * Self::side_len_spec(),
    ;

    /// A read-only view of the slot at `pos`.
    fn get(&self, pos: SquarePos<Self>) -> (r: &RawSquare<Self::PieceType, Self::ColorType>)
        requires
            self.wf(),
            pos.in_bounds(),
        ensures
            *r == self.occupancy()[pos.idx() as int],
    ;

    /// Exchanges the board-held slot at `pos` with the caller-held slot, in
    /// place and exactly.
    fn swap(&mut self, pos: SquarePos<Self>, piece: &mut RawSquare<Self::PieceType, Self::ColorType>)
        requires
            old(self).wf(),
            pos.in_bounds(),
        ensures
            final(self).wf(),
            *final(piece) == old(self).occupancy()[pos.idx() as int],
            final(self).occupancy() == old(self).occupancy().update(
                pos.idx() as int,
                *old(piece),
            ),
    ;

    /// Stores `piece` at `pos` and returns the occupant present immediately
    /// before the call.
    fn set(&mut self, pos: SquarePos<Self>, piece: RawSquare<Self::PieceType, Self::ColorType>) -> (r:
        RawSquare<Self::PieceType, Self::ColorType>)
        requires
            old(self).wf(),
            pos.in_bounds(),
        ensures
            final(self).wf(),
            r == old(self).occupancy()[pos.idx() as int],
            final(self).occupancy() == old(self).occupancy().update(pos.idx() as int, piece),
    ;
}

/// Occupancy idempotence: immediately after a set, the slot at the set
/// position is exactly the slot stored, and every other square is
/// untouched.  (That set hands back the occupant present just before the
/// call is the `set` contract itself.)
pub proof fn lemma_set_then_get<BoardType: GenericBoard>(
    before: BoardType,
    after: BoardType,
    pos: SquarePos<BoardType>,
    slot: RawSquare<BoardType::PieceType, BoardType::ColorType>,
)
    requires
        before.wf(),
        pos.in_bounds(),
        after.occupancy() == before.occupancy().update(pos.idx() as int, slot),
    ensures
        after.occupancy()[pos.idx() as int] == slot,
        forall|j: int| 0 <= j < before.occupancy().len() && j != pos.idx() as int
            ==> after.occupancy()[j] == before.occupancy()[j],
{
    before.lemma_wf_occupancy();
    BoardType::lemma_side_len();
}

/// Swap symmetry: one swap hands the caller exactly the board's previous
/// occupant and stores the caller's slot; a second swap that hands that
/// occupant back restores the original occupancy exactly, and returns the
/// caller's original slot.
pub proof fn lemma_swap_twice_restores<BoardType: GenericBoard>(
    b0: BoardType,
    b1: BoardType,
    b2: BoardType,
    pos: SquarePos<BoardType>,
    held0: RawSquare<BoardType::PieceType, BoardType::ColorType>,
    held1: RawSquare<BoardType::PieceType, BoardType::ColorType>,
)
    requires
        b0.wf(),
        pos.in_bounds(),
        held1 == b0.occupancy()[pos.idx() as int],
        b1.occupancy() == b0.occupancy().update(pos.idx() as int, held0),
        b2.occupancy() == b1.occupancy().update(pos.idx() as int, held1),
    ensures
        b2.occupancy() == b0.occupancy(),
        b1.occupancy()[pos.idx() as int] == held0,
{
    lemma_pos_indexes_occupancy(b0, pos);
    assert(b2.occupancy() =~= b0.occupancy());
}

/// The index of an on-board position indexes the occupancy of a well
/// formed board.
proof fn lemma_pos_indexes_occupancy<BoardType: GenericBoard>(b: BoardType, pos: SquarePos<BoardType>)
    requires
        b.wf(),
        pos.in_bounds(),
    ensures
        pos.idx() < b.occupancy().len(),
{
    b.lemma_wf_occupancy();
    BoardType::lemma_side_len();
}

/// A fresh board differs from the variant's starting layout whenever that
/// layout places any piece at all.
pub proof fn lemma_new_default_differ<BoardType: GenericBoard>(
    fresh: BoardType,
    start: BoardType,
    i: int,
)
    requires
        fresh.wf(),
        start.wf(),
        forall|j: int| 0 <= j < fresh.occupancy().len() ==> (
        #[trigger] fresh.occupancy()[j]).is_empty(),
        0 <= i < start.occupancy().len(),
        !start.occupancy()[i].is_empty(),
    ensures
        fresh.occupancy() != start.occupancy(),
{
    fresh.lemma_wf_occupancy();
    start.lemma_wf_occupancy();
    assert(fresh.occupancy()[i].is_empty());
}

} // verus!
