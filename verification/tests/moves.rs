use chess_core::chess_state::board_bitmask::BoardBitmasks;
use chess_core::chess_state::chess_pieces::PieceEnum;
use chess_core::chess_state::coordinate_point::CoordinatePosition;
use chess_core::chess_state::moves::shared::Move;
use chess_core::chess_state::coordinates::XCoordinate::A;
use chess_core::chess_state::coordinates::XCoordinate::B;
use chess_core::chess_state::coordinates::XCoordinate::C;
use chess_core::chess_state::coordinates::XCoordinate::D;
use chess_core::chess_state::coordinates::XCoordinate::E;
use chess_core::chess_state::coordinates::XCoordinate::F;
use chess_core::chess_state::coordinates::XCoordinate::G;
use chess_core::chess_state::coordinates::XCoordinate::H;
use chess_core::chess_state::coordinates::YCoordinate::One;
use chess_core::chess_state::coordinates::YCoordinate::Two;
use chess_core::chess_state::coordinates::YCoordinate::Three;
use chess_core::chess_state::coordinates::YCoordinate::Four;
use chess_core::chess_state::coordinates::YCoordinate::Five;
use chess_core::chess_state::coordinates::YCoordinate::Six;
use chess_core::chess_state::coordinates::YCoordinate::Seven;
use chess_core::chess_state::coordinates::YCoordinate::Eight;
use chess_core::chess_state::moves::chess_flip::ChessFlip;
use chess_core::chess_state::moves::chess_move::ChessDirection::Up;
use chess_core::chess_state::moves::chess_move::ChessDirection::UpRight;
use chess_core::chess_state::moves::chess_move::ChessDirection::Right;
use chess_core::chess_state::moves::chess_move::ChessDirection::DownRight;
use chess_core::chess_state::moves::chess_move::ChessDirection::Down;
use chess_core::chess_state::moves::chess_move::ChessDirection::DownLeft;
use chess_core::chess_state::moves::chess_move::ChessDirection::Left;
use chess_core::chess_state::moves::chess_move::ChessDirection::UpLeft;
use chess_core::chess_state::moves::chess_move::ChessDirection::KnightOne;
use chess_core::chess_state::moves::chess_move::ChessDirection::KnightTwo;
use chess_core::chess_state::moves::chess_move::ChessDirection::KnightFour;
use chess_core::chess_state::moves::chess_move::ChessDirection::KnightFive;
use chess_core::chess_state::moves::chess_move::ChessDirection::KnightSeven;
use chess_core::chess_state::moves::chess_move::ChessDirection::KnightEight;
use chess_core::chess_state::moves::chess_move::ChessDirection::KnightTen;
use chess_core::chess_state::moves::chess_move::ChessDirection::KnightEleven;
use chess_core::chess_state::moves::chess_move::ChessShiftMove;
use chess_core::chess_state::moves::shared::CheckType;
use chess_core::chess_state::moves::attack_maps::BishopAttackMaps;
use chess_core::chess_state::moves::attack_maps::BlackPawnAttackMaps;
use chess_core::chess_state::moves::attack_maps::KnightAttackMaps;
use chess_core::chess_state::moves::attack_maps::WhitePawnAttackMaps;
use chess_core::chess_state::moves::standard_move::StandardMove;

#[test]
fn moves_up_when_directed_up() {
    let start = A.to_mask() & Two.to_mask();
    let expected_output = A.to_mask() & Three.to_mask();
    assert_eq!(start.shift_move(Up), expected_output)
}

#[test]
fn moves_left_when_directed_left() {
    let start = B.to_mask() & Two.to_mask();
    let expected_output = A.to_mask() & Two.to_mask();
    assert_eq!(start.shift_move(Left), expected_output)
}

#[test]
fn moves_right_when_directed_right() {
    let start = A.to_mask() & Two.to_mask();
    let expected_output = B.to_mask() & Two.to_mask();
    assert_eq!(start.shift_move(Right), expected_output)
}

#[test]
fn moves_down_when_directed_down() {
    let start = A.to_mask() & Three.to_mask();
    let expected_output = A.to_mask() & Two.to_mask();
    assert_eq!(start.shift_move(Down), expected_output)
}

#[test]
fn moves_up_right_when_directed_up_right() {
    let start = A.to_mask() & Two.to_mask();
    let expected_output = B.to_mask() & Three.to_mask();
    assert_eq!(start.shift_move(UpRight), expected_output)
}

#[test]
fn moves_up_left_when_directed_up_left() {
    let start = C.to_mask() & Three.to_mask();
    let expected_output = B.to_mask() & Four.to_mask();
    assert_eq!(start.shift_move(UpLeft), expected_output)
}

#[test]
fn moves_down_right_when_directed_down_right() {
    let start = F.to_mask() & Five.to_mask();
    let expected_output = G.to_mask() & Four.to_mask();
    assert_eq!(start.shift_move(DownRight), expected_output)
}

#[test]
fn moves_down_left_when_directed_down_left() {
    let start = C.to_mask() & Three.to_mask();
    let expected_output = B.to_mask() & Two.to_mask();
    assert_eq!(start.shift_move(DownLeft), expected_output)
}

#[test]
fn knight_move_one_when_directed() {
    let start = D.to_mask() & Four.to_mask();
    let expected_output = E.to_mask() & Six.to_mask();
    assert_eq!(start.shift_move(KnightOne), expected_output)
}

#[test]
fn knight_move_two_when_directed() {
    let start = D.to_mask() & Four.to_mask();
    let expected_output = F.to_mask() & Five.to_mask();
    assert_eq!(start.shift_move(KnightTwo), expected_output)
}

#[test]
fn knight_move_four_when_directed() {
    let start = D.to_mask() & Four.to_mask();
    let expected_output = F.to_mask() & Three.to_mask();
    assert_eq!(start.shift_move(KnightFour), expected_output)
}

#[test]
fn knight_move_five_when_directed() {
    let start = D.to_mask() & Four.to_mask();
    let expected_output = E.to_mask() & Two.to_mask();
    assert_eq!(start.shift_move(KnightFive), expected_output)
}

#[test]
fn knight_move_seven_when_directed() {
    let start = D.to_mask() & Four.to_mask();
    let expected_output = C.to_mask() & Two.to_mask();
    assert_eq!(start.shift_move(KnightSeven), expected_output)
}

#[test]
fn knight_move_eight_when_directed() {
    let start = D.to_mask() & Four.to_mask();
    let expected_output = B.to_mask() & Three.to_mask();
    assert_eq!(start.shift_move(KnightEight), expected_output)
}

#[test]
fn knight_move_ten_when_directed() {
    let start = D.to_mask() & Four.to_mask();
    let expected_output = B.to_mask() & Five.to_mask();
    assert_eq!(start.shift_move(KnightTen), expected_output)
}

#[test]
fn knight_move_eleven_when_directed() {
    let start = D.to_mask() & Four.to_mask();
    let expected_output = C.to_mask() & Six.to_mask();
    assert_eq!(start.shift_move(KnightEleven), expected_output)
}

#[test]
fn bits_swap_correctly_when_swapped_horizontally() {
    let test_input = (A.to_mask() & One.to_mask()) | (B.to_mask() & One.to_mask());
    let expected_output = (G.to_mask() & One.to_mask()) | (H.to_mask() & One.to_mask());
    assert_eq!(test_input.flip_horizontal(), expected_output)
}

#[test]
fn bits_swap_correctly_when_board_flipped() {
    let test_input = (A.to_mask() & One.to_mask()) | (B.to_mask() & One.to_mask()) | (C.to_mask()
        & Two.to_mask()) | (D.to_mask() & Three.to_mask());
    // in respective order
    let expected_output = (H.to_mask() & Eight.to_mask()) | (G.to_mask() & Eight.to_mask()) | (F
        .to_mask() & Seven.to_mask()) | (E.to_mask() & Six.to_mask());
    assert_eq!(test_input.flip(), expected_output)
}

#[test]
fn generates_correct_uci_when_a_simple_move_is_executed() {
    let test_move = StandardMove {
        start_position: CoordinatePosition::from_str("e2").expect("valid coordinate"),
        end_position: CoordinatePosition::from_str("e4").expect("valid coordinate"),
        piece: PieceEnum::WhitePawn,
        en_passant_target: None,
        promotion: None,
        takes: None,
        check: CheckType::NoCheck,
    };
    assert_eq!(test_move.get_uci_move(), "e2e4".to_string())
}

#[test]
fn generates_correct_uci_when_a_capturing_move_is_executed() {
    let test_move = StandardMove {
        start_position: CoordinatePosition::from_str("e4").expect("valid coordinate"),
        end_position: CoordinatePosition::from_str("d5").expect("valid coordinate"),
        piece: PieceEnum::WhitePawn,
        en_passant_target: None,
        promotion: None,
        takes: Some((
            CoordinatePosition::from_str("d5").expect("valid coordinate"),
            PieceEnum::BlackPawn,
        )),
        check: CheckType::NoCheck,
    };
    assert_eq!(test_move.get_uci_move(), "e4xd5".to_string())
}

#[test]
fn generates_correct_uci_when_a_promotion_move_is_executed() {
    let test_move = StandardMove {
        start_position: CoordinatePosition::from_str("e7").expect("valid coordinate"),
        end_position: CoordinatePosition::from_str("e8").expect("valid coordinate"),
        piece: PieceEnum::WhitePawn,
        en_passant_target: None,
        promotion: Some(PieceEnum::WhiteQueen),
        takes: None,
        check: CheckType::NoCheck,
    };
    assert_eq!(test_move.get_uci_move(), "e7e8=Q".to_string())
}

#[test]
fn generates_correct_uci_when_a_promotion_and_capture_move_is_executed() {
    let test_move = StandardMove {
        start_position: CoordinatePosition::from_str("e2").expect("valid coordinate"),
        end_position: CoordinatePosition::from_str("d1").expect("valid coordinate"),
        piece: PieceEnum::BlackPawn,
        en_passant_target: None,
        promotion: Some(PieceEnum::BlackQueen),
        takes: Some((
            CoordinatePosition::from_str("d1").expect("valid coordinate"),
            PieceEnum::WhiteQueen,
        )),
        check: CheckType::NoCheck,
    };
    assert_eq!(test_move.get_uci_move(), "e2xd1=q".to_string())
}

#[test]
fn generates_correct_uci_when_a_checking_move_is_executed() {
    let test_move = StandardMove {
        start_position: CoordinatePosition::from_str("h6").expect("valid coordinate"),
        end_position: CoordinatePosition::from_str("g7").expect("valid coordinate"),
        piece: PieceEnum::BlackBishop,
        en_passant_target: None,
        promotion: None,
        takes: None,
        check: CheckType::Check,
    };
    assert_eq!(test_move.get_uci_move(), "h6g7+".to_string())
}

#[test]
fn generates_correct_uci_when_a_checkmate_move_is_executed() {
    let test_move = StandardMove {
        start_position: CoordinatePosition::from_str("d8").expect("valid coordinate"),
        end_position: CoordinatePosition::from_str("d3").expect("valid coordinate"),
        piece: PieceEnum::BlackQueen,
        en_passant_target: None,
        promotion: None,
        takes: None,
        check: CheckType::Checkmate,
    };
    assert_eq!(test_move.get_uci_move(), "d8d3#".to_string())
}

#[test]
fn generates_correct_uci_when_a_checkmate_move_with_capture_is_executed() {
    let test_move = StandardMove {
        start_position: CoordinatePosition::from_str("d8").expect("valid coordinate"),
        end_position: CoordinatePosition::from_str("d3").expect("valid coordinate"),
        piece: PieceEnum::BlackQueen,
        en_passant_target: None,
        promotion: None,
        takes: Some((
            CoordinatePosition::from_str("d3").expect("valid coordinate"),
            PieceEnum::WhitePawn,
        )),
        check: CheckType::Checkmate,
    };
    assert_eq!(test_move.get_uci_move(), "d8xd3#".to_string())
}

#[test]
fn white_pawn_attack_map_correct_when_trait_used_on_u64() {
    let pawn = D.to_mask() & Four.to_mask();
    let expected_attack_map =
        (C.to_mask() & Five.to_mask()) | (E.to_mask() & Five.to_mask());
    assert_eq!(pawn.calculate_unconstrained_white_pawn_attack_maps(), expected_attack_map)
}

#[test]
fn black_pawn_attack_map_correct_when_trait_used_on_u64() {
    let pawn = D.to_mask() & Five.to_mask();
    let expected_attack_map =
        (C.to_mask() & Four.to_mask()) | (E.to_mask() & Four.to_mask());
    assert_eq!(pawn.calculate_unconstrained_black_pawn_attack_maps(), expected_attack_map)
}

#[test]
fn knight_attack_map_correct_when_trait_used_on_u64() {
    let knight = C.to_mask() & Three.to_mask();
    let expected_attack_map = (D.to_mask() & Five.to_mask()) | (E.to_mask() & Four.to_mask()) | (E
        .to_mask() & Two.to_mask()) | (D.to_mask() & One.to_mask()) | (B.to_mask()
        & One.to_mask()) | (A.to_mask() & Two.to_mask()) | (A.to_mask() & Four.to_mask()) | (B
        .to_mask() & Five.to_mask());
    assert_eq!(knight.calculate_unconstrained_knight_maps(), expected_attack_map)
}

#[test]
fn bishop_attack_map_correct_when_trait_used_on_u64() {
    let bishop = F.to_mask() & Four.to_mask();
    let expected_attack_map = (G.to_mask() & Five.to_mask()) | (H.to_mask() & Six.to_mask()) | (G
        .to_mask() & Three.to_mask()) | (H.to_mask() & Two.to_mask()) | (E.to_mask()
        & Three.to_mask()) | (D.to_mask() & Two.to_mask()) | (C.to_mask() & One.to_mask()) | (E
        .to_mask() & Five.to_mask()) | (D.to_mask() & Six.to_mask()) | (C.to_mask()
        & Seven.to_mask()) | (B.to_mask() & Eight.to_mask());
    assert_eq!(bishop.calculate_unconstrained_bishop_attack_maps(), expected_attack_map)
}

#[test]
fn knights_have_exactly_four_quiet_moves_from_the_starting_position() {
    let board = BoardBitmasks::default();
    let moves = board.calculate_knight_moves(true).expect("four moves");
    assert_eq!(moves.len(), 4);
    let mut texts: Vec<String> = moves
        .iter()
        .map(|m| match m {
            Move::StandardMove(sm) => {
                assert_eq!(sm.takes, None);
                sm.get_uci_move()
            },
            _ => panic!("only standard moves here"),
        })
        .collect();
    texts.sort();
    assert_eq!(
        texts,
        vec![
            "b1a3".to_string(),
            "b1c3".to_string(),
            "g1f3".to_string(),
            "g1h3".to_string()
        ]
    );
}

#[test]
fn a_lone_rook_slides_up_its_file_until_its_own_pawn_blocks_it() {
    let rook = A.to_mask() & One.to_mask();
    let pawn = A.to_mask() & Four.to_mask();
    let mut board = BoardBitmasks::new();
    board.white_rooks.mask = rook;
    board.white_pawns.mask = pawn;
    board.white_pieces.mask = rook | pawn;
    board.all_pieces.mask = rook | pawn;
    let moves = board
        .calculate_cardinal_moves_for_direction(
            PieceEnum::WhiteRook,
            chess_core::chess_state::moves::chess_move::ChessDirection::Up,
        )
        .expect("two moves");
    let texts: Vec<String> = moves
        .iter()
        .map(|m| match m {
            Move::StandardMove(sm) => sm.get_uci_move(),
            _ => panic!("only standard moves here"),
        })
        .collect();
    assert_eq!(texts, vec!["a1a2".to_string(), "a1a3".to_string()]);
}

#[test]
fn a_bishop_ray_ends_by_capturing_the_enemy_piece_it_meets() {
    let bishop = F.to_mask() & Four.to_mask();
    let black_rook = H.to_mask() & Six.to_mask();
    let mut board = BoardBitmasks::new();
    board.white_bishops.mask = bishop;
    board.white_pieces.mask = bishop;
    board.black_rooks.mask = black_rook;
    board.black_pieces.mask = black_rook;
    board.all_pieces.mask = bishop | black_rook;
    let moves = board
        .calculate_diagonal_moves_up_right(PieceEnum::WhiteBishop)
        .expect("two moves");
    let texts: Vec<String> = moves
        .iter()
        .map(|m| match m {
            Move::StandardMove(sm) => sm.get_uci_move(),
            _ => panic!("only standard moves here"),
        })
        .collect();
    assert_eq!(texts, vec!["f4g5".to_string(), "f4xh6".to_string()]);
    match &moves[1] {
        Move::StandardMove(sm) => {
            assert_eq!(
                sm.takes,
                Some((
                    chess_core::chess_state::coordinate_point::CoordinatePosition::from_str("h6")
                        .expect("valid"),
                    PieceEnum::BlackRook
                ))
            );
        },
        _ => panic!("only standard moves here"),
    }
}

#[test]
fn flipping_a_board_twice_restores_it() {
    let test_input = (A.to_mask() & One.to_mask()) | (C.to_mask() & Two.to_mask()) | (H.to_mask()
        & Eight.to_mask()) | (E.to_mask() & Four.to_mask());
    assert_eq!(test_input.flip().flip(), test_input);
    assert_eq!(test_input.flip_horizontal().flip_horizontal(), test_input);
    assert_eq!(test_input.flip_vertical().flip_vertical(), test_input);
}
