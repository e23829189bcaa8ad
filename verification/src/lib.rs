//! A generic coordinate and position layer for chess-like board games.
//!
//! The crate is organised leaf-first: a storage numeral abstraction
//! ([`storage::GenericStorage`]), coordinate codecs ([`coords::GenericFile`],
//! [`coords::GenericRank`]), the square position and square iterator value
//! types ([`square`]), the occupancy slot and capability markers
//! ([`occupancy`]), the move pair and the central board contract
//! ([`board::GenericBoard`]), and a small 4x4 demonstration variant
//! ([`toy`]) that instantiates the whole contract.

pub mod board;
pub mod coords;
pub mod occupancy;
pub mod square;
pub mod storage;
pub mod toy;

pub use board::BoardTypes;
pub use board::GenericBoard;
pub use board::Move;
pub use coords::GenericFile;
pub use coords::GenericRank;
pub use occupancy::DefaultColorScheme;
pub use occupancy::GenericColor;
pub use occupancy::GenericPiece;
pub use occupancy::RawSquare;
pub use square::SquareIter;
pub use square::SquarePos;
pub use storage::GenericStorage;
pub use toy::ToyBoard;
pub use toy::ToyFile;
pub use toy::ToyPiece;
pub use toy::ToyRank;
