use chess_core::bitmask::generic::Bitmask;
use chess_core::chess_state::board_bitmask::BoardBitmasks;
use chess_core::chess_state::coordinates::XCoordinate::A;
use chess_core::chess_state::coordinates::XCoordinate::B;
use chess_core::chess_state::coordinates::XCoordinate::C;
use chess_core::chess_state::coordinates::XCoordinate::D;
use chess_core::chess_state::coordinates::XCoordinate::E;
use chess_core::chess_state::coordinates::XCoordinate::F;
use chess_core::chess_state::coordinates::XCoordinate::G;
use chess_core::chess_state::coordinates::XCoordinate::H;
use chess_core::chess_state::coordinates::YCoordinate::One;
use chess_core::chess_state::coordinates::YCoordinate::Two;
use chess_core::chess_state::coordinates::YCoordinate::Three;
use chess_core::chess_state::coordinates::YCoordinate::Four;
use chess_core::chess_state::coordinates::YCoordinate::Five;
use chess_core::chess_state::coordinates::YCoordinate::Six;
use chess_core::chess_state::coordinates::YCoordinate::Seven;
use chess_core::chess_state::coordinates::YCoordinate::Eight;
use chess_core::chess_state::moves::calculate_moves::pinned_to_king::check_for_pin;
use chess_core::chess_state::moves::chess_move::ChessDirection;
use chess_core::chess_state::moves::chess_move::ChessDirection::Up;
use chess_core::chess_state::moves::chess_move::ChessDirection::UpRight;
use chess_core::chess_state::moves::chess_move::ChessDirection::Right;
use chess_core::chess_state::moves::chess_move::ChessDirection::DownRight;
use chess_core::chess_state::moves::chess_move::ChessDirection::Down;
use chess_core::chess_state::moves::chess_move::ChessDirection::DownLeft;
use chess_core::chess_state::moves::chess_move::ChessDirection::Left;
use chess_core::chess_state::moves::chess_move::ChessDirection::UpLeft;
use chess_core::chess_state::moves::chess_move::ChessDirection::KnightOne;
use chess_core::chess_state::moves::chess_move::ChessDirection::KnightTwo;
use chess_core::chess_state::moves::chess_move::ChessDirection::KnightFour;
use chess_core::chess_state::moves::chess_move::ChessDirection::KnightFive;
use chess_core::chess_state::moves::chess_move::ChessDirection::KnightSeven;
use chess_core::chess_state::moves::chess_move::ChessDirection::KnightEight;
use chess_core::chess_state::moves::chess_move::ChessDirection::KnightTen;
use chess_core::chess_state::moves::chess_move::ChessDirection::KnightEleven;

#[test]
fn returns_0_when_no_pieces() {
    let directions = vec![Up, UpRight, Right, DownRight, Down, DownLeft, Left, UpLeft];
    let pins: Vec<_> = directions
        .iter()
        .map(|&dir| check_for_pin(0, dir, 0, 0, 0))
        .collect();
    assert!(pins.iter().all(|pin| pin.is_ok()));
    assert!(pins.into_iter().all(|pin| pin.expect("is ok") == 0))
}

#[test]
fn returns_correct_error_when_given_invalid_direction() {
    let directions: Vec<ChessDirection> = vec![
        KnightOne,
        KnightTwo,
        KnightFour,
        KnightFive,
        KnightSeven,
        KnightEight,
        KnightTen,
        KnightEleven,
    ];
    let outputs: Vec<_> = directions
        .iter()
        .map(|&dir| check_for_pin(0, dir, 0, 0, 0))
        .collect();
    assert!(outputs.iter().all(|res| res.is_err()));
}

#[test]
fn finds_pin_when_in_simple_valid_pin_stituation() {
    let king_position = A.to_mask() & One.to_mask();
    let pawn_position = A.to_mask() & Two.to_mask();
    let enemy_rook_position = A.to_mask() & Eight.to_mask();
    let expected_pin_position = pawn_position;
    let pin = check_for_pin(
        king_position,
        Up,
        enemy_rook_position,
        pawn_position,
        king_position | pawn_position | enemy_rook_position,
    );
    assert!(pin.is_ok());
    assert_eq!(pin.unwrap(), expected_pin_position);
}

#[test]
fn finds_pin_when_in_noisy_valid_pin_stituation() {
    // king is in corner, full row of pawns
    let king_position = A.to_mask() & One.to_mask();
    let pawn_position = Two.to_mask();
    let enemy_rook_position = (A.to_mask() & Eight.to_mask()) | (H.to_mask() & Eight.to_mask());
    let expected_pin_position = A.to_mask() & Two.to_mask();
    let pin = check_for_pin(
        king_position,
        Up,
        enemy_rook_position,
        pawn_position,
        king_position | pawn_position | enemy_rook_position,
    );
    assert!(pin.is_ok());
    assert_eq!(pin.unwrap(), expected_pin_position);
}

#[test]
fn finds_no_pin_when_in_invalid_pin_stituation() {
    let king_position = A.to_mask() & One.to_mask();
    let pawn_position = Two.to_mask();
    let enemy_rook_position = H.to_mask() & Eight.to_mask();
    let pin = check_for_pin(
        king_position,
        Up,
        enemy_rook_position,
        pawn_position,
        king_position | pawn_position | enemy_rook_position,
    );
    assert!(pin.is_ok());
    assert_eq!(pin.unwrap(), 0);
}

#[test]
fn finds_diagonal_pin_when_in_noisy_valid_pin_stituation() {
    // pin is on the long diagonal, so should be the B pawn
    let king_position = A.to_mask() & One.to_mask();
    let pawn_position = Two.to_mask();
    let enemy_bishop_position = (A.to_mask() & Eight.to_mask()) | (H.to_mask() & Eight.to_mask());
    let expected_pin_position = B.to_mask() & Two.to_mask();
    let pin = check_for_pin(
        king_position,
        UpRight,
        enemy_bishop_position,
        pawn_position,
        king_position | pawn_position | enemy_bishop_position,
    );
    assert!(pin.is_ok());
    assert_eq!(pin.unwrap(), expected_pin_position);
}

#[test]
fn can_detect_pinned_pieces_when_in_simple_pin() {
    // set up a simple pin - black bishop onto pawn onto king
    let game_board = BoardBitmasks {
        all_pieces: Bitmask::from_u64(
            (E.to_mask() & Four.to_mask()) | (F.to_mask() & Five.to_mask()) | (G.to_mask()
                & Six.to_mask()),
        ),
        white_pieces: Bitmask::from_u64(
            (E.to_mask() & Four.to_mask()) | (F.to_mask() & Five.to_mask()),
        ),
        white_pawns: Bitmask::from_u64(F.to_mask() & Five.to_mask()),
        white_knights: Bitmask::from_u64(0),
        white_bishops: Bitmask::from_u64(0),
        white_rooks: Bitmask::from_u64(0),
        white_queens: Bitmask::from_u64(0),
        white_kings: Bitmask::from_u64(E.to_mask() & Four.to_mask()),
        black_pieces: Bitmask::from_u64(G.to_mask() & Six.to_mask()),
        black_pawns: Bitmask::from_u64(0),
        black_knights: Bitmask::from_u64(0),
        black_bishops: Bitmask::from_u64(G.to_mask() & Six.to_mask()),
        black_rooks: Bitmask::from_u64(0),
        black_queens: Bitmask::from_u64(0),
        black_kings: Bitmask::from_u64(0),
    };
    let expected_pin = F.to_mask() & Five.to_mask();
    let pin = game_board.get_pieces_pinned_to_king(true);
    assert_eq!(pin, expected_pin)
}

#[test]
fn pinned_pawn_is_reported_for_a_rook_pin_on_the_king_file() {
    let king = E.to_mask() & One.to_mask();
    let pawn = E.to_mask() & Two.to_mask();
    let rook = E.to_mask() & Eight.to_mask();
    let game_board = BoardBitmasks {
        all_pieces: Bitmask::from_u64(king | pawn | rook),
        white_pieces: Bitmask::from_u64(king | pawn),
        white_pawns: Bitmask::from_u64(pawn),
        white_knights: Bitmask::from_u64(0),
        white_bishops: Bitmask::from_u64(0),
        white_rooks: Bitmask::from_u64(0),
        white_queens: Bitmask::from_u64(0),
        white_kings: Bitmask::from_u64(king),
        black_pieces: Bitmask::from_u64(rook),
        black_pawns: Bitmask::from_u64(0),
        black_knights: Bitmask::from_u64(0),
        black_bishops: Bitmask::from_u64(0),
        black_rooks: Bitmask::from_u64(rook),
        black_queens: Bitmask::from_u64(0),
        black_kings: Bitmask::from_u64(0),
    };
    assert_eq!(game_board.get_pieces_pinned_to_king(true), pawn);
}

#[test]
fn a_knight_standing_in_the_way_breaks_the_rook_pin() {
    let king = E.to_mask() & One.to_mask();
    let pawn = E.to_mask() & Two.to_mask();
    let knight = E.to_mask() & Four.to_mask();
    let rook = E.to_mask() & Eight.to_mask();
    let black_king = A.to_mask() & Eight.to_mask();
    let game_board = BoardBitmasks {
        all_pieces: Bitmask::from_u64(king | pawn | knight | rook | black_king),
        white_pieces: Bitmask::from_u64(king | pawn),
        white_pawns: Bitmask::from_u64(pawn),
        white_knights: Bitmask::from_u64(0),
        white_bishops: Bitmask::from_u64(0),
        white_rooks: Bitmask::from_u64(0),
        white_queens: Bitmask::from_u64(0),
        white_kings: Bitmask::from_u64(king),
        black_pieces: Bitmask::from_u64(knight | rook | black_king),
        black_pawns: Bitmask::from_u64(0),
        black_knights: Bitmask::from_u64(knight),
        black_bishops: Bitmask::from_u64(0),
        black_rooks: Bitmask::from_u64(rook),
        black_queens: Bitmask::from_u64(0),
        black_kings: Bitmask::from_u64(black_king),
    };
    assert_eq!(game_board.get_pieces_pinned_to_king(true), 0);
}
