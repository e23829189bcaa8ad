//! Coordinate codecs: the bidirectional mappings between a semantic file or
//! rank coordinate and the storage numeral, scoped per board variant.

use vstd::prelude::*;
use crate::storage::GenericStorage;

verus! {

/// The file axis of a two-dimensional board coordinate.
///
/// A codec encodes `count()` distinct files as the indices `0 .. count()`.
/// `to_storage` and `from_storage` are mutual inverses on those indices:
/// `to_storage` is total and exact, `from_storage` is defined on every
/// storage value below `count()`, and the encoding is injective, so
/// `from_storage(to_storage(f)) == f` for every file `f`.
pub trait GenericFile<StorageType: GenericStorage>: Sized + Copy + Clone + PartialEq + Eq {
    /// The linear index this file encodes to.
    spec fn index(self) -> nat;

    /// How many distinct files this codec encodes.
    spec fn count() -> nat;

    /// Every file's index lies below the codec's count.
    proof fn lemma_index_in_range(self)
        ensures
            self.index() < Self::count(),
    ;

    /// The encoding is lossless: equal indices mean equal files.
    proof fn lemma_index_injective(a: Self, b: Self)
        ensures
            a.index() == b.index() ==> a == b,
    ;

    fn to_storage(self) -> (r: StorageType)
        ensures
            r.as_nat() == self.index(),
    ;

    fn from_storage(input: StorageType) -> (r: Self)
        requires
            input.as_nat() < Self::count(),
        ensures
            r.index() == input.as_nat(),
    ;
}

/// The rank axis of a two-dimensional board coordinate.
///
/// The contract mirrors [`GenericFile`]: `count()` distinct ranks encoded
/// injectively as the indices `0 .. count()`, with `to_storage` and
/// `from_storage` mutual inverses on those indices.
pub trait GenericRank<StorageType: GenericStorage>: Sized + Copy + Clone + PartialEq + Eq {
    /// The linear index this rank encodes to.
    spec fn index(self) -> nat;

    /// How many distinct ranks this codec encodes.
    spec fn count() -> nat;

    /// Every rank's index lies below the codec's count.
    proof fn lemma_index_in_range(self)
        ensures
            self.index() < Self::count(),
    ;

    /// The encoding is lossless: equal indices mean equal ranks.
    proof fn lemma_index_injective(a: Self, b: Self)
        ensures
            a.index() == b.index() ==> a == b,
    ;

    fn to_storage(self) -> (r: StorageType)
        ensures
            r.as_nat() == self.index(),
    ;

    fn from_storage(input: StorageType) -> (r: Self)
        requires
            input.as_nat() < Self::count(),
        ensures
            r.index() == input.as_nat(),
    ;
}

} // verus!
