//! The occupancy slot — the contents of one square — and the capability
//! markers for piece and color vocabularies.

use vstd::prelude::*;

verus! {

/// A capability tag for a board variant's piece vocabulary.  Pieces carry no
/// behavior in this layer; they only participate in occupancy slots.
pub trait GenericPiece: PartialEq + Eq + Copy {

}

/// A capability tag for a board variant's color vocabulary.
pub trait GenericColor: PartialEq + Eq + Copy {

}

/// The customary two-player color set.
#[derive(Copy, Clone, Debug, PartialEq, Eq)]
pub enum DefaultColorScheme {
    White,
    Black,
}

impl GenericColor for DefaultColorScheme {

}

/// The contents of one square: either empty, or exactly one
/// (piece-kind, color) pair.
#[derive(Copy, Clone, Debug, PartialEq, Eq)]
pub struct RawSquare<PieceType, ColorType> {
    pub data: Option<(PieceType, ColorType)>,
}

impl<PieceType, ColorType> RawSquare<PieceType, ColorType> {
    /// Whether this slot holds no occupant.
    pub open spec fn is_empty(self) -> bool {
        self.data is None
    }

    /// A slot with no occupant.
    pub fn empty() -> (r: RawSquare<PieceType, ColorType>)
        ensures
            r.is_empty(),
    {
        RawSquare { data: None }
    }

    /// A slot holding exactly the given piece and color; such a slot is
    /// never equal to an empty one.
    pub fn new(piece: PieceType, color: ColorType) -> (r: RawSquare<PieceType, ColorType>)
        ensures
            r.data == Some((piece, color)),
            !r.is_empty(),
    {
        RawSquare { data: Some((piece, color)) }
    }
}

} // verus!
