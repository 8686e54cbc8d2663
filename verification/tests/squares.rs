use chess_core::chess_state::coordinate_point::CoordinatePosition;
use chess_core::bitmask::generic::Bitmask;
use chess_core::bitmask::white_pieces::BitOpsForWhitePieces;
use chess_core::chess_state::chess_pieces::PieceEnum;
use chess_core::chess_state::chess_pieces::WhiteKnights;
use chess_core::chess_state::chess_pieces::WhitePawns;
use chess_core::chess_state::coordinates::CoordinateError;
use chess_core::chess_state::coordinates::XCoordinate;
use chess_core::chess_state::coordinates::YCoordinate;

fn sq(x: XCoordinate, y: YCoordinate) -> u64 {
    x.to_mask() & y.to_mask()
}

#[test]
fn returns_correct_coordinate_position_when_given_valid_str() {
    let string_1 = String::from("a1");
    let string_2 = String::from("h8");
    let string_3 = String::from("d4");
    let string_1_coord = CoordinatePosition { x: XCoordinate::A, y: YCoordinate::One };
    let string_2_coord = CoordinatePosition { x: XCoordinate::H, y: YCoordinate::Eight };
    let string_3_coord = CoordinatePosition { x: XCoordinate::D, y: YCoordinate::Four };
    let output: Vec<CoordinatePosition> = [string_1, string_2, string_3]
        .iter()
        .map(|s| CoordinatePosition::from_str(s).expect("should be valid str"))
        .collect();
    assert_eq!(output, vec![string_1_coord, string_2_coord, string_3_coord])
}

#[test]
fn returns_error_when_given_string_not_of_length_2() {
    let strings = vec!["a", "a12", "b13", "c521"];
    let expected_output: Vec<CoordinateError> = strings
        .iter()
        .map(|&s| CoordinateError::XYCoordinatesFromInvalidLengthStr(s.to_string()))
        .collect();
    let output: Vec<CoordinateError> = strings
        .into_iter()
        .map(|s| CoordinatePosition::from_str(s).expect_err("invalid string lengths should error"))
        .collect();
    assert_eq!(output, expected_output)
}

#[test]
fn returns_error_when_given_invalid_characters() {
    // both z and 9 are out of range; b is fine, but '@' is invalid;
    // 8 is not a valid x coordinate
    let strings = vec!["z9", "b@", "89"];
    let expected_output: Vec<CoordinateError> = vec![
        CoordinateError::XCoordinateFromInvalidChar('z'),
        CoordinateError::YCoordinateFromInvalidChar('@'),
        CoordinateError::XCoordinateFromInvalidChar('8'),
    ];
    let output: Vec<CoordinateError> = strings
        .into_iter()
        .map(|s| CoordinatePosition::from_str(s).expect_err("expecting invalid char errors"))
        .collect();
    assert_eq!(output, expected_output)
}

#[test]
fn returns_valid_coordinate_position_when_given_valid_bitmask() {
    let valid_bitmask = sq(XCoordinate::A, YCoordinate::Two);
    let expected_output = CoordinatePosition { x: XCoordinate::A, y: YCoordinate::Two };
    let output = CoordinatePosition::from_bitmask(valid_bitmask).expect("uses valid bitmask");
    assert_eq!(output, expected_output)
}

#[test]
fn returns_correct_error_when_given_empty_bitmask() {
    let empty_bitmask: u64 = 0;
    let expected_output = CoordinateError::XYCoordinatesFromEmptyBitmask(empty_bitmask);
    let output = CoordinatePosition::from_bitmask(empty_bitmask).expect_err("uses invalid bitmask");
    assert_eq!(output, expected_output)
}

#[test]
fn returns_correct_error_when_given_multi_bit_bitmask() {
    // a3 and d3 set
    let multi_bit_bitmask =
        (XCoordinate::A.to_mask() | XCoordinate::D.to_mask()) & YCoordinate::Three.to_mask();
    let expected_output = CoordinateError::XYCoordinatesFromMultiBitBitmask(multi_bit_bitmask);
    let output =
        CoordinatePosition::from_bitmask(multi_bit_bitmask).expect_err("uses multi bit bitmask");
    assert_eq!(output, expected_output)
}

#[test]
fn returns_valid_bitmask_when_converting_from_coordinate_position() {
    let coord = CoordinatePosition { x: XCoordinate::E, y: YCoordinate::Four };
    let expected_output = sq(XCoordinate::E, YCoordinate::Four);
    let output = coord.to_bitmask();
    assert_eq!(output, expected_output)
}

#[test]
fn coordinate_point_generates_valid_string_when_using_to_string_method_from_display_trait() {
    let coords = vec![
        CoordinatePosition { x: XCoordinate::A, y: YCoordinate::One },
        CoordinatePosition { x: XCoordinate::C, y: YCoordinate::Three },
        CoordinatePosition { x: XCoordinate::F, y: YCoordinate::Five },
        CoordinatePosition { x: XCoordinate::G, y: YCoordinate::Seven },
    ];
    let expected_output: Vec<String> = vec![
        String::from("a1"),
        String::from("c3"),
        String::from("f5"),
        String::from("g7"),
    ];
    let output: Vec<String> = coords.into_iter().map(|c| c.to_string()).collect();
    assert_eq!(output, expected_output)
}

#[test]
fn completes_round_trip_when_to_and_from_str() {
    let str = "a4";
    let coord = CoordinatePosition::from_str(str).expect("uses valid string");
    let output = coord.to_string();
    assert_eq!(output.as_str(), str)
}

#[test]
fn completes_round_trip_when_to_and_from_bitmask() {
    let valid_bitmask = sq(XCoordinate::D, YCoordinate::Six);
    let coord = CoordinatePosition::from_bitmask(valid_bitmask).expect("uses valid bitmask");
    let output = coord.to_bitmask();
    assert_eq!(output, valid_bitmask)
}

#[test]
fn chess_pieces_generates_valid_string_when_using_to_string_method_from_display_trait() {
    let all_pieces = [
        PieceEnum::WhitePawn,
        PieceEnum::WhiteKnight,
        PieceEnum::WhiteBishop,
        PieceEnum::WhiteRook,
        PieceEnum::WhiteQueen,
        PieceEnum::WhiteKing,
        PieceEnum::BlackPawn,
        PieceEnum::BlackKnight,
        PieceEnum::BlackBishop,
        PieceEnum::BlackRook,
        PieceEnum::BlackQueen,
        PieceEnum::BlackKing,
    ];
    let expected_output: Vec<String> = vec![
        String::from("P"),
        String::from("N"),
        String::from("B"),
        String::from("R"),
        String::from("Q"),
        String::from("K"),
        String::from("p"),
        String::from("n"),
        String::from("b"),
        String::from("r"),
        String::from("q"),
        String::from("k"),
    ];
    let output: Vec<String> = all_pieces.into_iter().map(|p| p.to_string()).collect();
    assert_eq!(output, expected_output)
}

#[test]
fn can_use_from() {
    let white_pawns = Bitmask::<WhitePawns>::from_u64(2);
    let white_knights = Bitmask::<WhiteKnights>::from_u64(4);
    let output = white_pawns.bitor_white_pieces(white_knights);

    assert_eq!(output.mask, 6)
}

#[test]
fn creates_empty_hash_map_when_initialised() {
    let new_board_hash_map = chess_core::chess_state::board_hash_map::BoardHashMap::new();
    assert!(new_board_hash_map.is_empty())
}

#[test]
fn initialises_empty_bitmask_board_when_using_new() {
    let board = chess_core::chess_state::board_bitmask::BoardBitmasks::new();
    assert_eq!(board.all_pieces.to_u64(), 0);
    assert_eq!(board.white_pieces.to_u64(), 0);
    assert_eq!(board.black_pieces.to_u64(), 0);
    assert_eq!(board.white_pawns.to_u64(), 0);
    assert_eq!(board.white_knights.to_u64(), 0);
    assert_eq!(board.white_bishops.to_u64(), 0);
    assert_eq!(board.white_rooks.to_u64(), 0);
    assert_eq!(board.white_queens.to_u64(), 0);
    assert_eq!(board.white_kings.to_u64(), 0);
    assert_eq!(board.black_pawns.to_u64(), 0);
    assert_eq!(board.black_knights.to_u64(), 0);
    assert_eq!(board.black_bishops.to_u64(), 0);
    assert_eq!(board.black_rooks.to_u64(), 0);
    assert_eq!(board.black_queens.to_u64(), 0);
    assert_eq!(board.black_kings.to_u64(), 0);
}
