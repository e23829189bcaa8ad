//! Square positions and the square iterator.
//!
//! A [`SquarePos`] wraps one storage numeral holding a square's linear
//! index; a [`SquareIter`] lazily enumerates positions from a start value up
//! to an exclusive bound, in ascending linear order.

use vstd::prelude::*;
use vstd::arithmetic::div_mod::lemma_fundamental_div_mod_converse;
use vstd::arithmetic::div_mod::lemma_multiply_divide_lt;
use crate::board::BoardTypes;
use crate::coords::GenericFile;
use crate::coords::GenericRank;
use crate::storage::GenericStorage;

verus! {

/// One board location, encoded as a single linear index.
///
/// The wrapped numeral is never exposed directly: callers go through the
/// constructors and accessors, so the encoding convention (file-major with
/// the rank as the additive remainder) stays a private detail.
#[derive(Copy, Clone, PartialEq, Eq)]
pub struct SquarePos<BoardType: BoardTypes> {
    pos: BoardType::StorageType,
}

/// A lazy, finite, forward-only enumeration of square positions, advancing
/// from `current` by one storage unit per step and stopping once the
/// exclusive bound `max_size` is reached.  It holds no reference into any
/// board, only two value copies.
#[derive(Copy, Clone, PartialEq, Eq)]
pub struct SquareIter<BoardType: BoardTypes> {
    current: SquarePos<BoardType>,
    max_size: SquarePos<BoardType>,
}

impl<BoardType: BoardTypes> SquarePos<BoardType> {
    /// The linear index this position wraps.
    pub closed spec fn idx(self) -> nat {
        self.pos.as_nat()
    }

    /// Whether the index lies on the owning variant's board.
    pub open spec fn in_bounds(self) -> bool {
        self.idx() < BoardType::side_len_spec() * BoardType::side_len_spec()
    }

    /// Equality of positions is structural on the wrapped numeral: equal
    /// indices mean equal positions.
    pub proof fn lemma_eq_of_idx(a: Self, b: Self)
        ensures
            a.idx() == b.idx() ==> a == b,
    {
        BoardType::StorageType::lemma_as_nat_injective(a.pos, b.pos);
    }

    /// Every wrapped index is representable in the storage numeral.
    pub proof fn lemma_idx_in_range(self)
        ensures
            self.idx() <= BoardType::StorageType::max_spec(),
    {
        self.pos.lemma_in_range();
    }

    /// Wraps a raw index with no validation; staying within the board is
    /// the caller's responsibility.
    pub fn from_raw(pos: BoardType::StorageType) -> (r: SquarePos<BoardType>)
        ensures
            r.idx() == pos.as_nat(),
    {
        SquarePos { pos }
    }

    /// Composes a position from coordinates: the file contributes the
    /// multiplicative term `file * side_len` and the rank the additive
    /// remainder, so that [`SquarePos::file`] and [`SquarePos::rank`]
    /// invert the composition.
    pub fn new(file: BoardType::FileType, rank: BoardType::RankType) -> (r: SquarePos<BoardType>)
        requires
            file.index() < BoardType::side_len_spec(),
            rank.index() < BoardType::side_len_spec(),
        ensures
            r.idx() == file.index() * BoardType::side_len_spec() + rank.index(),
            r.in_bounds(),
    {
        let side = BoardType::side_len();
        proof {
            BoardType::lemma_side_len();
            let n = BoardType::side_len_spec();
            assert(file.index() * n + rank.index() < n * n) by (nonlinear_arith)
                requires
                    file.index() < n,
                    rank.index() < n,
            ;
        }
        SquarePos { pos: file.to_storage().times(side).plus(rank.to_storage()) }
    }

    /// Decomposes the rank as `pos % side_len`, converted through the
    /// variant's rank codec.
    pub fn rank(&self) -> (r: BoardType::RankType)
        requires
            self.in_bounds(),
        ensures
            r.index() == self.idx() % BoardType::side_len_spec(),
    {
        proof {
            BoardType::lemma_side_len();
        }
        BoardType::RankType::from_storage(self.pos.rem_by(BoardType::side_len()))
    }

    /// Decomposes the file as `pos / side_len`, converted through the
    /// variant's file codec.
    pub fn file(&self) -> (r: BoardType::FileType)
        requires
            self.in_bounds(),
        ensures
            r.index() == self.idx() / BoardType::side_len_spec(),
    {
        proof {
            BoardType::lemma_side_len();
            lemma_multiply_divide_lt(
                self.idx() as int,
                BoardType::side_len_spec() as int,
                BoardType::side_len_spec() as int,
            );
        }
        BoardType::FileType::from_storage(self.pos.div_by(BoardType::side_len()))
    }

    /// Escapes to the underlying numeral, for variant-specific use.
    pub fn raw_value(&self) -> (r: BoardType::StorageType)
        ensures
            r.as_nat() == self.idx(),
    {
        self.pos
    }

    /// The owning board variant's fixed side length.
    pub fn side_len() -> (r: BoardType::StorageType)
        ensures
            r.as_nat() == BoardType::side_len_spec(),
    {
        BoardType::side_len()
    }
}

/// Round trip: a position composed from a file and a rank decomposes to
/// that same file and that same rank.  Here `file_back` and `rank_back`
/// stand for any codec values whose indices are the decomposition of the
/// composed index, exactly as the accessors' contracts describe their
/// results.
pub proof fn lemma_new_round_trip<BoardType: BoardTypes>(
    file: BoardType::FileType,
    rank: BoardType::RankType,
    file_back: BoardType::FileType,
    rank_back: BoardType::RankType,
)
    requires
        file.index() < BoardType::side_len_spec(),
        rank.index() < BoardType::side_len_spec(),
        file_back.index() == (file.index() * BoardType::side_len_spec() + rank.index())
            / BoardType::side_len_spec(),
        rank_back.index() == (file.index() * BoardType::side_len_spec() + rank.index())
            % BoardType::side_len_spec(),
    ensures
        file_back == file,
        rank_back == rank,
{
    BoardType::lemma_side_len();
    let n = BoardType::side_len_spec();
    lemma_fundamental_div_mod_converse(
        (file.index() * n + rank.index()) as int,
        n as int,
        file.index() as int,
        rank.index() as int,
    );
    BoardType::FileType::lemma_index_injective(file_back, file);
    BoardType::RankType::lemma_index_injective(rank_back, rank);
}

impl<BoardType: BoardTypes> SquareIter<BoardType> {
    /// The linear index the iterator will produce next.
    pub closed spec fn cur_idx(self) -> nat {
        self.current.idx()
    }

    /// The exclusive upper bound of the enumeration.
    pub closed spec fn end_idx(self) -> nat {
        self.max_size.idx()
    }

    /// A fresh iterator enumerating `[current, max_size)`.
    pub fn new(current: SquarePos<BoardType>, max_size: SquarePos<BoardType>) -> (r: SquareIter<
        BoardType,
    >)
        ensures
            r.cur_idx() == current.idx(),
            r.end_idx() == max_size.idx(),
    {
        SquareIter { current, max_size }
    }

    /// Returns the current position and advances by one storage unit while
    /// the bound has not been reached; signals end-of-sequence otherwise.
    pub fn next(&mut self) -> (r: Option<SquarePos<BoardType>>)
        ensures
            final(self).end_idx() == old(self).end_idx(),
            old(self).cur_idx() < old(self).end_idx() ==> (r matches Some(p)
                && p.idx() == old(self).cur_idx()
                && final(self).cur_idx() == old(self).cur_idx() + 1),
            old(self).cur_idx() >= old(self).end_idx() ==> r is None
                && final(self).cur_idx() == old(self).cur_idx(),
    {
        if self.current.raw_value().below(self.max_size.raw_value()) {
            let result = self.current;
            proof {
                self.max_size.lemma_idx_in_range();
            }
            self.current = SquarePos::from_raw(result.raw_value().succ());
            Some(result)
        } else {
            None
        }
    }

    /// Drains the iterator: the result holds one position per remaining
    /// index, in strictly ascending linear order with no duplicates and no
    /// gaps — the position at offset `i` wraps index `cur_idx + i`.
    pub fn into_positions(self) -> (r: Vec<SquarePos<BoardType>>)
        ensures
            self.cur_idx() <= self.end_idx() ==> r@.len() == self.end_idx() - self.cur_idx(),
            self.cur_idx() > self.end_idx() ==> r@.len() == 0,
            forall|i: int| 0 <= i < r@.len() ==> (#[trigger] r@[i]).idx() == self.cur_idx() + i,
    {
        let mut it = self;
        let mut r: Vec<SquarePos<BoardType>> = Vec::new();
        while it.current.raw_value().below(it.max_size.raw_value())
            invariant
                it.end_idx() == self.end_idx(),
                self.cur_idx() <= it.cur_idx(),
                it.cur_idx() <= self.end_idx() || it.cur_idx() == self.cur_idx(),
                r@.len() == it.cur_idx() - self.cur_idx(),
                forall|i: int| 0 <= i < r@.len() ==> (#[trigger] r@[i]).idx() == self.cur_idx()
                    + i,
            decreases self.end_idx() - it.cur_idx(),
        {
            if let Some(p) = it.next() {
                r.push(p);
            }
        }
        r
    }
}

/// The positions an enumeration produces are strictly ascending and
/// pairwise distinct whenever the position at each offset `i` wraps index
/// `start + i`, as [`SquareIter::into_positions`] guarantees.
pub proof fn lemma_positions_ascending<BoardType: BoardTypes>(
    ps: Seq<SquarePos<BoardType>>,
    start: nat,
)
    requires
        forall|i: int| 0 <= i < ps.len() ==> (#[trigger] ps[i]).idx() == start + i,
    ensures
        forall|i: int, j: int| 0 <= i < j < ps.len() ==> ps[i].idx() < ps[j].idx(),
        forall|i: int, j: int| 0 <= i < j < ps.len() ==> ps[i] != ps[j],
{
}

} // verus!
