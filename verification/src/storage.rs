//! The storage numeral: the small ordered arithmetic type that encodes a
//! square's linear index.

use vstd::prelude::*;

verus! {

/// A value type usable as the canonical linear encoding of a square.
///
/// Every storage value denotes a natural number (`as_nat`), bounded by
/// `max_spec`, and the arithmetic methods are exact on that denotation as
/// long as the result stays representable.  The encoding is lossless: two
/// storage values denoting the same number are the same value.
pub trait GenericStorage: Sized + Copy + Clone + PartialEq + Eq {
    /// The natural number this storage value encodes.
    spec fn as_nat(self) -> nat;

    /// The largest natural number any value of this type can encode.
    spec fn max_spec() -> nat;

    /// Every value is within the representable range.
    proof fn lemma_in_range(self)
        ensures
            self.as_nat() <= Self::max_spec(),
    ;

    /// The encoding is injective: equal denotations mean equal values.
    proof fn lemma_as_nat_injective(a: Self, b: Self)
        ensures
            a.as_nat() == b.as_nat() ==> a == b,
    ;

    /// Exact addition, defined whenever the sum is representable.
    fn plus(self, other: Self) -> (r: Self)
        requires
            self.as_nat() + other.as_nat() <= Self::max_spec(),
        ensures
            r.as_nat() == self.as_nat() + other.as_nat(),
    ;

    /// Exact multiplication, defined whenever the product is representable.
    fn times(self, other: Self) -> (r: Self)
        requires
            self.as_nat() * other.as_nat() <= Self::max_spec(),
        ensures
            r.as_nat() == self.as_nat() * other.as_nat(),
    ;

    /// Euclidean quotient by a non-zero divisor.
    fn div_by(self, other: Self) -> (r: Self)
        requires
            other.as_nat() > 0,
        ensures
            r.as_nat() == self.as_nat() / other.as_nat(),
    ;

    /// Euclidean remainder by a non-zero divisor.
    fn rem_by(self, other: Self) -> (r: Self)
        requires
            other.as_nat() > 0,
        ensures
            r.as_nat() == self.as_nat() % other.as_nat(),
    ;

    /// The next storage value: an increment by one storage unit.
    fn succ(self) -> (r: Self)
        requires
            self.as_nat() + 1 <= Self::max_spec(),
        ensures
            r.as_nat() == self.as_nat() + 1,
    ;

    /// Strict comparison of the encoded numbers.
    fn below(self, other: Self) -> (r: bool)
        ensures
            r == (self.as_nat() < other.as_nat()),
    ;
}

/// An 8-bit unsigned integer encodes the square indices 0 through 255.
impl GenericStorage for u8 {
    open spec fn as_nat(self) -> nat {
        self as nat
    }

    open spec fn max_spec() -> nat {
        u8::MAX as nat
    }

    proof fn lemma_in_range(self) {
    }

    proof fn lemma_as_nat_injective(a: u8, b: u8) {
    }

    fn plus(self, other: u8) -> u8 {
        self + other
    }

    fn times(self, other: u8) -> u8 {
        self * other
    }

    fn div_by(self, other: u8) -> u8 {
        self / other
    }

    fn rem_by(self, other: u8) -> u8 {
        self % other
    }

    fn succ(self) -> u8 {
        self + 1
    }

    fn below(self, other: u8) -> bool {
        self < other
    }
}

} // verus!
