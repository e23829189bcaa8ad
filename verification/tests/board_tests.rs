use chess_like::BoardTypes;
use chess_like::DefaultColorScheme;
use chess_like::GenericBoard;
use chess_like::GenericFile;
use chess_like::GenericRank;
use chess_like::Move;
use chess_like::RawSquare;
use chess_like::SquareIter;
use chess_like::SquarePos;
use chess_like::ToyBoard;
use chess_like::ToyFile;
use chess_like::ToyPiece;
use chess_like::ToyRank;

fn all_files() -> Vec<ToyFile> {
    vec![ToyFile::A, ToyFile::B, ToyFile::C, ToyFile::D]
}

fn all_ranks() -> Vec<ToyRank> {
    vec![ToyRank::R1, ToyRank::R2, ToyRank::R3, ToyRank::R4]
}

#[test]
fn round_trip_every_coordinate() {
    for &f in all_files().iter() {
        for &r in all_ranks().iter() {
            let pos = SquarePos::<ToyBoard>::new(f, r);
            assert_eq!(pos.file(), f);
            assert_eq!(pos.rank(), r);
        }
    }
}

#[test]
fn new_composes_file_major() {
    // file C is index 2, rank R2 is index 1: linear index 2 * 4 + 1 = 9.
    let pos = SquarePos::<ToyBoard>::new(ToyFile::C, ToyRank::R2);
    assert_eq!(pos.raw_value(), 9);
    assert!(pos == SquarePos::<ToyBoard>::from_raw(9));
}

#[test]
fn side_len_matches_variant() {
    assert_eq!(SquarePos::<ToyBoard>::side_len(), 4);
    assert_eq!(ToyBoard::side_len(), 4);
}

#[test]
fn iterator_yields_all_squares_in_order() {
    let board = ToyBoard::new();
    let mut iter = board.raw_square_iter();
    for expected in 0u8..16 {
        let pos = iter.next().expect("the enumeration ended early");
        assert_eq!(pos.raw_value(), expected);
    }
    assert!(iter.next().is_none());
    assert!(iter.next().is_none());
}

#[test]
fn iterator_into_positions_covers_board() {
    let board = ToyBoard::new();
    let all = board.raw_square_iter().into_positions();
    assert_eq!(all.len(), 16);
    for (offset, pos) in all.iter().enumerate() {
        assert_eq!(pos.raw_value() as usize, offset);
    }
}

#[test]
fn set_then_get_returns_the_stored_slot() {
    let mut board = ToyBoard::new();
    let pos = SquarePos::<ToyBoard>::from_raw(9);
    let knight = RawSquare::new(ToyPiece::Knight, DefaultColorScheme::White);
    let previous = board.set(pos, knight);
    assert_eq!(previous, RawSquare::empty());
    assert_eq!(*board.get(pos), knight);
}

#[test]
fn set_reports_the_prior_occupant() {
    let mut board = ToyBoard::new();
    let pos = SquarePos::<ToyBoard>::from_raw(3);
    let pawn = RawSquare::new(ToyPiece::Pawn, DefaultColorScheme::Black);
    let knight = RawSquare::new(ToyPiece::Knight, DefaultColorScheme::White);
    assert_eq!(board.set(pos, pawn), RawSquare::empty());
    assert_eq!(board.set(pos, knight), pawn);
    assert_eq!(*board.get(pos), knight);
}

#[test]
fn swap_exchanges_board_and_caller_slots() {
    let mut board = ToyBoard::new();
    let pos = SquarePos::<ToyBoard>::from_raw(5);
    let knight = RawSquare::new(ToyPiece::Knight, DefaultColorScheme::White);
    board.set(pos, knight);
    let mut held = RawSquare::new(ToyPiece::Pawn, DefaultColorScheme::Black);
    board.swap(pos, &mut held);
    assert_eq!(held, knight);
    assert_eq!(*board.get(pos), RawSquare::new(ToyPiece::Pawn, DefaultColorScheme::Black));
}

#[test]
fn swap_twice_restores_the_board() {
    let mut board = ToyBoard::default();
    let reference = board;
    let pos = SquarePos::<ToyBoard>::from_raw(0);
    let mut held = RawSquare::new(ToyPiece::Pawn, DefaultColorScheme::Black);
    board.swap(pos, &mut held);
    board.swap(pos, &mut held);
    assert_eq!(board, reference);
    assert_eq!(held, RawSquare::new(ToyPiece::Pawn, DefaultColorScheme::Black));
}

#[test]
fn empty_slot_holds_nothing() {
    let slot: RawSquare<ToyPiece, DefaultColorScheme> = RawSquare::empty();
    assert_eq!(slot.data, None);
}

#[test]
fn occupied_slot_holds_exactly_its_pair() {
    let slot = RawSquare::new(ToyPiece::Knight, DefaultColorScheme::White);
    assert_eq!(slot.data, Some((ToyPiece::Knight, DefaultColorScheme::White)));
    assert_ne!(slot, RawSquare::empty());
}

#[test]
fn end_to_end_on_the_toy_board() {
    // Composing (file 2, rank 1) equals wrapping the raw index 2 * 4 + 1.
    let pos = SquarePos::<ToyBoard>::new(ToyFile::C, ToyRank::R2);
    assert!(pos == SquarePos::<ToyBoard>::from_raw(9));

    // A fresh board enumerates indices 0..=15 in order.
    let mut board = ToyBoard::new();
    let all = board.raw_square_iter().into_positions();
    assert_eq!(all.len(), 16);
    for (offset, p) in all.iter().enumerate() {
        assert_eq!(p.raw_value() as usize, offset);
    }

    // Setting index 9 to a white knight is visible at index 9 and leaves
    // the other fifteen squares empty.
    let knight = RawSquare::new(ToyPiece::Knight, DefaultColorScheme::White);
    let previous = board.set(pos, knight);
    assert_eq!(previous, RawSquare::empty());
    for p in board.raw_square_iter().into_positions() {
        if p.raw_value() == 9 {
            assert_eq!(*board.get(p), knight);
        } else {
            assert_eq!(*board.get(p), RawSquare::empty());
        }
    }
}

#[test]
fn new_board_is_entirely_empty() {
    let board = ToyBoard::new();
    for pos in board.raw_square_iter().into_positions() {
        assert_eq!(*board.get(pos), RawSquare::empty());
    }
}

#[test]
fn default_differs_from_new() {
    let fresh = ToyBoard::new();
    let start = ToyBoard::default();
    assert_ne!(fresh, start);
    let occupied = start
        .raw_square_iter()
        .into_positions()
        .into_iter()
        .filter(|p| start.get(*p).data.is_some())
        .count();
    assert_eq!(occupied, 8);
}

#[test]
fn legality_follows_the_toy_rule() {
    let board = ToyBoard::default();
    let knight_home = SquarePos::<ToyBoard>::from_raw(0);
    let empty_square = SquarePos::<ToyBoard>::from_raw(5);
    let black_knight_home = SquarePos::<ToyBoard>::from_raw(3);
    assert!(board.is_move_legal(Move::new(knight_home, empty_square)));
    assert!(!board.is_move_legal(Move::new(empty_square, knight_home)));
    assert!(!board.is_move_legal(Move::new(knight_home, black_knight_home)));
    let off_board = SquarePos::<ToyBoard>::from_raw(16);
    assert!(!board.is_move_legal(Move::new(knight_home, off_board)));
}

#[test]
fn raw_moves_target_every_empty_square() {
    let board = ToyBoard::default();
    let knight_home = SquarePos::<ToyBoard>::from_raw(0);
    let moves = board.raw_moves_for_piece(knight_home);
    assert_eq!(moves.len(), 8);
    for m in moves.iter() {
        assert!(m.src == knight_home);
        assert_eq!(board.get(m.dest).data, None);
    }
}

#[test]
fn raw_moves_of_an_empty_square_are_none() {
    let board = ToyBoard::default();
    let empty_square = SquarePos::<ToyBoard>::from_raw(5);
    assert!(board.raw_moves_for_piece(empty_square).is_empty());
}

#[test]
fn attackers_are_the_occupied_squares() {
    let board = ToyBoard::default();
    let target = SquarePos::<ToyBoard>::from_raw(5);
    let attackers = board.get_attackers_of_square(target);
    assert_eq!(attackers.len(), 8);
    for a in attackers.iter() {
        assert!(board.get(*a).data.is_some());
    }
}

#[test]
fn attackers_of_an_occupied_square_are_none() {
    let board = ToyBoard::default();
    let target = SquarePos::<ToyBoard>::from_raw(0);
    assert!(board.get_attackers_of_square(target).is_empty());
}

#[test]
fn move_new_keeps_its_ends() {
    let src = SquarePos::<ToyBoard>::from_raw(1);
    let dest = SquarePos::<ToyBoard>::from_raw(2);
    let m = Move::new(src, dest);
    assert!(m.src == src);
    assert!(m.dest == dest);
}

#[test]
fn codecs_invert_on_every_storage_value() {
    for v in 0u8..4 {
        assert_eq!(<ToyFile as GenericFile<u8>>::from_storage(v).to_storage(), v);
        assert_eq!(<ToyRank as GenericRank<u8>>::from_storage(v).to_storage(), v);
    }
}

#[test]
fn iterator_with_an_empty_range_is_exhausted() {
    let start = SquarePos::<ToyBoard>::from_raw(7);
    let bound = SquarePos::<ToyBoard>::from_raw(7);
    let mut iter = SquareIter::new(start, bound);
    assert!(iter.next().is_none());
}

#[test]
fn iterator_with_reversed_bounds_yields_nothing() {
    let start = SquarePos::<ToyBoard>::from_raw(9);
    let bound = SquarePos::<ToyBoard>::from_raw(3);
    assert_eq!(SquareIter::new(start, bound).into_positions().len(), 0);
}

#[test]
fn iterator_built_from_raw_bounds_covers_the_board() {
    let start = SquarePos::<ToyBoard>::from_raw(0);
    let bound = SquarePos::<ToyBoard>::from_raw(16);
    let all = SquareIter::new(start, bound).into_positions();
    assert_eq!(all.len(), 16);
    for (offset, p) in all.iter().enumerate() {
        assert_eq!(p.raw_value() as usize, offset);
    }
}

#[test]
fn swap_with_an_empty_square_empties_the_hand() {
    let mut board = ToyBoard::new();
    let pos = SquarePos::<ToyBoard>::from_raw(2);
    let mut held = RawSquare::new(ToyPiece::Knight, DefaultColorScheme::Black);
    board.swap(pos, &mut held);
    assert_eq!(held, RawSquare::empty());
    assert_eq!(*board.get(pos), RawSquare::new(ToyPiece::Knight, DefaultColorScheme::Black));
}

#[test]
fn default_home_ranks_are_occupied() {
    let board = ToyBoard::default();
    for pos in board.raw_square_iter().into_positions() {
        let on_home_rank = pos.raw_value() % 4 == 0 || pos.raw_value() % 4 == 3;
        assert_eq!(board.get(pos).data.is_some(), on_home_rank);
    }
}

#[test]
fn default_places_each_piece_on_its_home_square() {
    let board = ToyBoard::default();
    let piece_at = |i: u8| board.get(SquarePos::<ToyBoard>::from_raw(i)).data;
    assert_eq!(piece_at(0), Some((ToyPiece::Knight, DefaultColorScheme::White)));
    assert_eq!(piece_at(4), Some((ToyPiece::Pawn, DefaultColorScheme::White)));
    assert_eq!(piece_at(8), Some((ToyPiece::Pawn, DefaultColorScheme::White)));
    assert_eq!(piece_at(12), Some((ToyPiece::Pawn, DefaultColorScheme::White)));
    assert_eq!(piece_at(3), Some((ToyPiece::Knight, DefaultColorScheme::Black)));
    assert_eq!(piece_at(7), Some((ToyPiece::Pawn, DefaultColorScheme::Black)));
    assert_eq!(piece_at(11), Some((ToyPiece::Pawn, DefaultColorScheme::Black)));
    assert_eq!(piece_at(15), Some((ToyPiece::Pawn, DefaultColorScheme::Black)));
}

#[test]
fn raw_moves_reach_each_empty_square_exactly_once() {
    let board = ToyBoard::default();
    let knight_home = SquarePos::<ToyBoard>::from_raw(0);
    let mut destinations: Vec<u8> = board
        .raw_moves_for_piece(knight_home)
        .iter()
        .map(|m| m.dest.raw_value())
        .collect();
    destinations.sort();
    assert_eq!(destinations, vec![1, 2, 5, 6, 9, 10, 13, 14]);
}
