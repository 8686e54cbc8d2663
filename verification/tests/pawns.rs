use chess_core::chess_state::board_bitmask::BoardBitmasks;
use chess_core::chess_state::chess_pieces::PieceEnum;
use chess_core::chess_state::coordinate_point::CoordinatePosition;
use chess_core::chess_state::coordinates::XCoordinate::A;
use chess_core::chess_state::coordinates::XCoordinate::B;
use chess_core::chess_state::coordinates::XCoordinate::C;
use chess_core::chess_state::coordinates::XCoordinate::D;
use chess_core::chess_state::coordinates::XCoordinate::E;
use chess_core::chess_state::coordinates::XCoordinate::F;
use chess_core::chess_state::coordinates::XCoordinate::G;
use chess_core::chess_state::coordinates::XCoordinate::H;
use chess_core::chess_state::coordinates::YCoordinate::One;
use chess_core::chess_state::coordinates::YCoordinate::Two;
use chess_core::chess_state::coordinates::YCoordinate::Three;
use chess_core::chess_state::coordinates::YCoordinate::Four;
use chess_core::chess_state::coordinates::YCoordinate::Five;
use chess_core::chess_state::coordinates::YCoordinate::Six;
use chess_core::chess_state::coordinates::YCoordinate::Seven;
use chess_core::chess_state::coordinates::YCoordinate::Eight;
use chess_core::chess_state::moves::shared::CheckType;
use chess_core::chess_state::moves::shared::Move;
use chess_core::chess_state::moves::standard_move::StandardMove;

fn end_positions(moves: &[Move]) -> u64 {
    moves.iter().fold(0, |bitmask: u64, m: &Move| match m {
        Move::StandardMove(move_details) => bitmask | move_details.end_position.to_bitmask(),
        _ => panic!("No non-standard moves here!"),
    })
}

#[test]
fn all_pawns_can_step_forward_when_in_their_starting_position() {
    let mut game_board = BoardBitmasks::new();
    game_board.white_pawns.mask = 0x00_00_00_00_00_00_FF_00;
    game_board.white_pieces.mask = 0x00_00_00_00_00_00_FF_00;
    game_board.all_pieces.mask = 0x00_00_00_00_00_00_FF_00;
    let moves = game_board
        .calculate_white_pawn_moves_single_step(0)
        .expect("should produce 8 valid moves");
    assert_eq!(moves.len(), 8);
    assert_eq!(end_positions(&moves), 0x00_00_00_00_00_FF_00_00)
}

#[test]
fn all_pawns_can_step_forward_when_in_valid_positions() {
    let mut game_board = BoardBitmasks::new();
    // invalid pawns on E8, C7, E1
    let invalid_pawns = (E.to_mask() & Eight.to_mask()) | (C.to_mask() & Seven.to_mask()) | (E
        .to_mask() & One.to_mask());
    // valid pawns on A6, E6, G6, D5, B4, F4, H4, A2, C2, D2, F2, and H2
    let valid_pawns = (A.to_mask() & Six.to_mask()) | (E.to_mask() & Six.to_mask()) | (G.to_mask()
        & Six.to_mask()) | (D.to_mask() & Five.to_mask()) | (B.to_mask() & Four.to_mask()) | (F
        .to_mask() & Four.to_mask()) | (H.to_mask() & Four.to_mask()) | (A.to_mask()
        & Two.to_mask()) | (C.to_mask() & Two.to_mask()) | (D.to_mask() & Two.to_mask()) | (F
        .to_mask() & Two.to_mask()) | (H.to_mask() & Two.to_mask());
    game_board.white_pawns.mask = valid_pawns | invalid_pawns;
    let expected_output = valid_pawns << 8;
    let moves = game_board
        .calculate_white_pawn_moves_single_step(0)
        .expect("should produce 12 valid moves for 12 valid pawns");
    assert_eq!(moves.len(), 12);
    assert_eq!(end_positions(&moves), expected_output)
}

#[test]
fn pawns_in_invalid_positions_are_ignored_when_calculating_valid_moves() {
    let mut game_board = BoardBitmasks::new();
    game_board.white_pawns.mask = 0x00_00_00_00_00_00_00_FF;
    let moves = game_board
        .calculate_white_pawn_moves_single_step(0)
        .expect("should produce 0 valid moves");
    assert_eq!(moves.len(), 0);
}

#[test]
fn blocked_pawn_cannot_step_forwards_when_calculating_valid_moves() {
    let mut game_board = BoardBitmasks::new();
    game_board.white_pawns.mask = 0x00_00_00_00_00_00_01_00;
    let occupied: u64 = 0x00_00_00_00_00_01_00_00;
    let moves = game_board
        .calculate_white_pawn_moves_single_step(occupied)
        .expect("should produce 0 valid moves");
    assert_eq!(moves.len(), 0);
}

#[test]
fn other_pawns_can_step_forward_when_only_one_is_blocked() {
    let mut game_board = BoardBitmasks::new();
    game_board.white_pawns.mask = 0x00_00_00_00_00_00_FF_00;
    let occupied: u64 = 0x00_00_00_00_00_01_00_00;
    let moves = game_board
        .calculate_white_pawn_moves_single_step(occupied)
        .expect("should produce 7 valid moves");
    assert_eq!(moves.len(), 7);
    assert_eq!(end_positions(&moves), 0x00_00_00_00_00_FE_00_00)
}

#[test]
fn all_pawns_can_step_forward_twice_when_in_their_starting_position() {
    let mut game_board = BoardBitmasks::new();
    game_board.white_pawns.mask = 0x00_00_00_00_00_00_FF_00;
    let moves = game_board
        .calculate_white_pawn_moves_double_step(0)
        .expect("should produce 8 valid moves");
    assert_eq!(moves.len(), 8);
    assert_eq!(end_positions(&moves), 0x00_00_00_00_FF_00_00_00)
}

#[test]
fn blocked_pawn_cannot_step_forwards_twice_when_calculating_valid_moves() {
    let mut game_board = BoardBitmasks::new();
    // start both A and B pawn in starting position
    game_board.white_pawns.mask = (A.to_mask() & Two.to_mask()) | (B.to_mask() & Two.to_mask());
    // occupy one square in front of A pawn (A3) and two squares in front of B pawn (B4)
    let occupied: u64 = (A.to_mask() & Three.to_mask()) | (B.to_mask() & Four.to_mask());
    let moves = game_board
        .calculate_white_pawn_moves_double_step(occupied)
        .expect("should produce 0 valid moves");
    assert_eq!(moves.len(), 0);
}

#[test]
fn other_pawns_can_step_forward_twice_when_only_one_is_blocked() {
    let mut game_board = BoardBitmasks::new();
    game_board.white_pawns.mask = 0x00_00_00_00_00_00_FF_00;
    let occupied: u64 = 0x00_00_00_00_00_01_00_00;
    let moves = game_board
        .calculate_white_pawn_moves_double_step(occupied)
        .expect("should produce 7 valid moves");
    assert_eq!(moves.len(), 7);
    assert_eq!(end_positions(&moves), 0x00_00_00_00_FE_00_00_00)
}

#[test]
fn pawn_moves_pawns_in_invalid_positions_are_ignored_when_calculating_valid_moves() {
    let mut game_board = BoardBitmasks::new();
    // only pawns on row 2 are valid
    game_board.white_pawns.mask = 0xFF_FF_FF_FF_FF_FF_00_FF;
    let moves = game_board
        .calculate_white_pawn_moves_double_step(0)
        .expect("should produce 0 valid moves");
    assert_eq!(moves.len(), 0);
}

#[test]
fn all_pawns_can_step_forward_twice_when_in_valid_positions() {
    let mut game_board = BoardBitmasks::new();
    // invalid pawns on E8, C7, A6, E6, G6, D5, B4, F4, H4, E1
    let invalid_pawns = (E.to_mask() & Eight.to_mask()) | (C.to_mask() & Seven.to_mask()) | (E
        .to_mask() & One.to_mask()) | (A.to_mask() & Six.to_mask()) | (E.to_mask()
        & Six.to_mask()) | (G.to_mask() & Six.to_mask()) | (D.to_mask() & Five.to_mask()) | (B
        .to_mask() & Four.to_mask()) | (F.to_mask() & Four.to_mask()) | (H.to_mask()
        & Four.to_mask());
    // valid pawns on A2, C2, D2, F2, and H2
    let valid_pawns = (A.to_mask() & Two.to_mask()) | (C.to_mask() & Two.to_mask()) | (D.to_mask()
        & Two.to_mask()) | (F.to_mask() & Two.to_mask()) | (H.to_mask() & Two.to_mask());
    game_board.white_pawns.mask = valid_pawns | invalid_pawns;
    let expected_output = valid_pawns << 16;
    let moves = game_board
        .calculate_white_pawn_moves_double_step(0)
        .expect("should produce 5 valid moves for 5 valid pawns");
    assert_eq!(moves.len(), 5);
    assert_eq!(end_positions(&moves), expected_output)
}

#[test]
fn no_captures_when_there_are_no_capture_targets() {
    let mut game_board = BoardBitmasks::new();
    // white pawn starting position; every other mask is 0
    game_board.white_pawns.mask = 0x00_00_00_00_00_00_FF_00;
    let available_left_captures = game_board
        .calculate_white_pawn_moves_capture_left()
        .expect("should generate 0 valid moves");
    assert_eq!(available_left_captures.len(), 0)
}

#[test]
fn identifies_valid_capture_when_caputurable_piece_to_the_left() {
    let mut game_board = BoardBitmasks::new();
    let white_pawn_position = E.to_mask() & Two.to_mask();
    let black_rook_position = D.to_mask() & Three.to_mask();
    game_board.white_pawns.mask = white_pawn_position;
    game_board.white_pieces.mask = white_pawn_position;
    game_board.black_rooks.mask = black_rook_position;
    game_board.black_pieces.mask = black_rook_position;
    game_board.all_pieces.mask = white_pawn_position | black_rook_position;
    let expected_capture = StandardMove {
        start_position: CoordinatePosition::from_str("e2").expect("valid position"),
        end_position: CoordinatePosition::from_str("d3").expect("valid position"),
        piece: PieceEnum::WhitePawn,
        en_passant_target: None,
        promotion: None,
        takes: Some((
            CoordinatePosition::from_str("d3").expect("valid position"),
            PieceEnum::BlackRook,
        )),
        check: CheckType::NoCheck,
    };
    let all_moves = game_board
        .calculate_white_pawn_moves_capture_left()
        .expect("should generate one valid move");
    let first_move = all_moves.first().expect("should contain one valid move");
    let capture = match first_move {
        Move::StandardMove(capture) => capture,
        _ => panic!("only standard moves here"),
    };
    assert_eq!(capture.clone(), expected_capture)
}

#[test]
fn lone_pawn_on_its_own_file_gets_single_and_double_push() {
    let mut game_board = BoardBitmasks::new();
    let pawn = E.to_mask() & Two.to_mask();
    game_board.white_pawns.mask = pawn;
    game_board.white_pieces.mask = pawn;
    game_board.all_pieces.mask = pawn;
    let moves = game_board.calculate_white_pawn_moves(None).expect("two moves");
    assert_eq!(moves.len(), 2);
    let texts: Vec<String> = moves
        .iter()
        .map(|m| match m {
            Move::StandardMove(sm) => sm.get_uci_move(),
            _ => panic!("only standard moves here"),
        })
        .collect();
    assert_eq!(texts, vec!["e2e3".to_string(), "e2e4".to_string()]);
    match &moves[1] {
        Move::StandardMove(sm) => {
            assert_eq!(
                sm.en_passant_target,
                Some(CoordinatePosition::from_str("e3").expect("valid position"))
            );
        },
        _ => panic!("only standard moves here"),
    }
}

#[test]
fn pawn_facing_an_enemy_pawn_gets_push_and_capture() {
    let mut game_board = BoardBitmasks::new();
    let white_pawn = E.to_mask() & Four.to_mask();
    let black_pawn = D.to_mask() & Five.to_mask();
    game_board.white_pawns.mask = white_pawn;
    game_board.white_pieces.mask = white_pawn;
    game_board.black_pawns.mask = black_pawn;
    game_board.black_pieces.mask = black_pawn;
    game_board.all_pieces.mask = white_pawn | black_pawn;
    let moves = game_board.calculate_white_pawn_moves(None).expect("two moves");
    let texts: Vec<String> = moves
        .iter()
        .map(|m| match m {
            Move::StandardMove(sm) => sm.get_uci_move(),
            _ => panic!("only standard moves here"),
        })
        .collect();
    assert_eq!(texts, vec!["e4e5".to_string(), "e4xd5".to_string()]);
}

#[test]
fn en_passant_target_yields_the_en_passant_capture() {
    let mut game_board = BoardBitmasks::new();
    let white_pawn = E.to_mask() & Five.to_mask();
    let black_pawn = D.to_mask() & Five.to_mask();
    game_board.white_pawns.mask = white_pawn;
    game_board.white_pieces.mask = white_pawn;
    game_board.black_pawns.mask = black_pawn;
    game_board.black_pieces.mask = black_pawn;
    game_board.all_pieces.mask = white_pawn | black_pawn;
    let target = CoordinatePosition::from_str("d6").expect("valid position");
    let moves = game_board
        .calculate_white_pawn_moves_en_passant(Some(target))
        .expect("one move");
    assert_eq!(moves.len(), 1);
    match &moves[0] {
        Move::StandardMove(sm) => {
            assert_eq!(sm.start_position, CoordinatePosition::from_str("e5").expect("valid"));
            assert_eq!(sm.end_position, target);
            assert_eq!(
                sm.takes,
                Some((
                    CoordinatePosition::from_str("d5").expect("valid"),
                    PieceEnum::BlackPawn
                ))
            );
        },
        _ => panic!("only standard moves here"),
    }
}

#[test]
fn pawn_on_the_seventh_rank_gets_four_promotions() {
    let mut game_board = BoardBitmasks::new();
    let pawn = E.to_mask() & Seven.to_mask();
    game_board.white_pawns.mask = pawn;
    game_board.white_pieces.mask = pawn;
    game_board.all_pieces.mask = pawn;
    let moves = game_board.calculate_white_pawn_promotions(pawn).expect("four moves");
    let texts: Vec<String> = moves
        .iter()
        .map(|m| match m {
            Move::StandardMove(sm) => sm.get_uci_move(),
            _ => panic!("only standard moves here"),
        })
        .collect();
    assert_eq!(
        texts,
        vec![
            "e7e8=N".to_string(),
            "e7e8=B".to_string(),
            "e7e8=R".to_string(),
            "e7e8=Q".to_string()
        ]
    );
}
