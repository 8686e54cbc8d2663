use vstd::prelude::*;

use crate::chess_state::board_bitmask::BoardBitmasks;
use crate::chess_state::board_bitmask::aggregates_consistent;
use crate::chess_state::board_bitmask::is_white_class;
use crate::chess_state::chess_pieces::PieceEnum;
use crate::chess_state::moves::chess_move::ChessDirection;
use crate::chess_state::moves::chess_move::ChessShiftMove;
use crate::chess_state::moves::chess_move::iter_shift;
use crate::chess_state::moves::chess_move::lemma_ray_dies;
use crate::chess_state::moves::chess_move::lemma_shift_monotone;
use crate::chess_state::moves::chess_move::lemma_subset_trans;
use crate::chess_state::moves::chess_move::opposite_direction;
use crate::chess_state::moves::chess_move::shift_move_spec;
use crate::chess_state::moves::shared::Move;
use crate::chess_state::moves::shared::MoveError;
use crate::chess_state::moves::temp_move::TempMove;
use crate::chess_state::moves::temp_move::enemy_side_mask;
use crate::chess_state::moves::temp_move::lemma_packed_frames_output;
use crate::chess_state::moves::temp_move::lemma_slider_origin;
use crate::chess_state::moves::temp_move::own_side_mask;
use crate::chess_state::moves::temp_move::slider_frame;
use crate::chess_state::moves::temp_move::slider_frame_moves;
use crate::chess_state::moves::temp_move::slider_ray_moves;
use crate::chess_state::moves::temp_move::slider_undo;
use crate::chess_state::moves::temp_move::unpack_moves;
use crate::shared::is_single_bit;

verus! {

/// Whether `p` slides along ranks and files: a rook or a queen of either
/// colour.
pub open spec fn is_cardinal_slider(p: PieceEnum) -> bool {
    match p {
        PieceEnum::WhiteRook | PieceEnum::WhiteQueen | PieceEnum::BlackRook
            | PieceEnum::BlackQueen => true,
        _ => false,
    }
}

/// Whether `d` is one of the four straight ray directions.
pub open spec fn is_cardinal_direction(d: ChessDirection) -> bool {
    match d {
        ChessDirection::Up | ChessDirection::Right | ChessDirection::Down
            | ChessDirection::Left => true,
        _ => false,
    }
}

impl BoardBitmasks {
    /// Calculates all moves of the rooks or queens of one colour along one
    /// straight ray: the ray is extended square by square, a capture ends it
    /// for the origin that reached it, and each destination's origin is
    /// recovered by walking the opposite way. Refuses piece classes that do
    /// not slide straight and directions that are not straight rays.
    pub fn calculate_cardinal_moves_for_direction(
        &self,
        piece_type: PieceEnum,
        cardinal_direction: ChessDirection,
    ) -> (r: Result<Vec<Move>, MoveError>)
        requires
            aggregates_consistent(*self),
        ensures
            !is_cardinal_slider(piece_type) ==> r matches Err(MoveError::InvalidPieceType(_, _, _)),
            is_cardinal_slider(piece_type) && !is_cardinal_direction(cardinal_direction)
                ==> r matches Err(MoveError::InvalidDirection(_, _, _)),
            is_cardinal_slider(piece_type) && is_cardinal_direction(cardinal_direction) ==> (
            r matches Ok(out) && out@ == slider_ray_moves(*self, piece_type, cardinal_direction)),
    {
        // bool to reflect if it is a white piece (true) or black piece (false) and filter invalid pieces
        let white = match piece_type {
            PieceEnum::WhiteRook | PieceEnum::WhiteQueen => true,
            PieceEnum::BlackRook | PieceEnum::BlackQueen => false,
            _ => {
                return Err(
                    MoveError::InvalidPieceType(
                        "calculate_cardinal_moves_for_direction".to_owned(),
                        "a rook or a queen".to_owned(),
                        piece_type.to_string(),
                    ),
                );
            },
        };

        // validate we have a valid diagonal direction and get the opposite direction for later undoing
        let reverse_direction = match cardinal_direction {
            ChessDirection::Right => ChessDirection::Left,
            ChessDirection::Down => ChessDirection::Up,
            ChessDirection::Left => ChessDirection::Right,
            ChessDirection::Up => ChessDirection::Down,
            _ => {
                return Err(
                    MoveError::InvalidDirection(
                        "calculate_cardinal_moves_for_direction".to_owned(),
                        "a cardinal direction".to_owned(),
                        "a diagonal or knight direction".to_owned(),
                    ),
                );
            },
        };
        proof {
            assert(white == is_white_class(piece_type));
            assert(reverse_direction == opposite_direction(cardinal_direction));
        }

        let own_pieces = if white {
            self.white_pieces.mask
        } else {
            self.black_pieces.mask
        };

        let opponent_pieces = if white {
            self.black_pieces.mask
        } else {
            self.white_pieces.mask
        };

        let starting_position = self.piece_enum_to_bitmask(piece_type);

        // extend the ray one step, and then keep extending it from the
        // squares that were not captures until it dies out
        let mut cur_moves = starting_position.shift_move(cardinal_direction) & !own_pieces;
        let mut cur_captures = cur_moves & opponent_pieces;

        let mut packed_moves: Vec<TempMove> = Vec::with_capacity(8);
        packed_moves.push(TempMove { moves: cur_moves, captures: cur_captures });
        proof {
            crate::shared::lemma_meet(
                shift_move_spec(starting_position, cardinal_direction),
                !own_pieces,
            );
            assert(iter_shift(starting_position, cardinal_direction, 0) == starting_position);
            assert(iter_shift(starting_position, cardinal_direction, 1) == shift_move_spec(
                iter_shift(starting_position, cardinal_direction, 0),
                cardinal_direction,
            ));
            assert(cur_moves == slider_frame_moves(*self, piece_type, cardinal_direction, 0));
            assert(packed_moves@[0] == slider_frame(*self, piece_type, cardinal_direction, 0));
        }
        while cur_moves & !cur_captures != 0
            invariant
                aggregates_consistent(*self),
                white == is_white_class(piece_type),
                own_pieces == own_side_mask(*self, piece_type),
                opponent_pieces == enemy_side_mask(*self, piece_type),
                starting_position
                    == crate::chess_state::moves::shared::piece_mask_for(*self, piece_type),
                1 <= packed_moves@.len() <= 8,
                cur_moves == slider_frame_moves(
                    *self,
                    piece_type,
                    cardinal_direction,
                    (packed_moves@.len() - 1) as nat,
                ),
                cur_captures == cur_moves & opponent_pieces,
                forall|j: int|
                    0 <= j < packed_moves@.len() ==> #[trigger] packed_moves@[j] == slider_frame(
                        *self,
                        piece_type,
                        cardinal_direction,
                        j as nat,
                    ),
                cur_moves & iter_shift(
                    starting_position,
                    cardinal_direction,
                    packed_moves@.len() as nat,
                ) == cur_moves,
            decreases 8 - packed_moves@.len(),
        {
            proof {
                crate::shared::lemma_meet(cur_moves, !cur_captures);
                if packed_moves@.len() == 8 {
                    lemma_ray_dies(starting_position, cardinal_direction);
                    crate::shared::lemma_meet(cur_moves, 0);
                }
            }
            let sliders = cur_moves & !cur_captures;
            let next_moves = sliders.shift_move(cardinal_direction) & !own_pieces;
            let next_captures = next_moves & opponent_pieces;
            proof {
                let full = iter_shift(
                    starting_position,
                    cardinal_direction,
                    packed_moves@.len() as nat,
                );
                lemma_subset_trans(sliders, cur_moves, full);
                lemma_shift_monotone(sliders, full, cardinal_direction);
                crate::shared::lemma_meet(
                    shift_move_spec(sliders, cardinal_direction),
                    !own_pieces,
                );
                lemma_subset_trans(
                    next_moves,
                    shift_move_spec(sliders, cardinal_direction),
                    shift_move_spec(full, cardinal_direction),
                );
                assert(shift_move_spec(full, cardinal_direction) == iter_shift(
                    starting_position,
                    cardinal_direction,
                    (packed_moves@.len() + 1) as nat,
                ));
                assert(next_moves == slider_frame_moves(
                    *self,
                    piece_type,
                    cardinal_direction,
                    packed_moves@.len() as nat,
                ));
            }
            packed_moves.push(TempMove { moves: next_moves, captures: next_captures });
            cur_moves = next_moves;
            cur_captures = next_captures;
        }
        proof {
            // the ray has died out: the frame after the last packed one is empty
            crate::shared::lemma_meet(cur_moves, !cur_captures);
            crate::chess_state::moves::chess_move::lemma_shift_zero(cardinal_direction);
            crate::shared::lemma_meet(0, !own_pieces);
            assert(slider_frame_moves(
                *self,
                piece_type,
                cardinal_direction,
                packed_moves@.len() as nat,
            ) == 0);
        }

        let ghost board = *self;
        let ghost dd = cardinal_direction;
        let ghost packed = packed_moves@;
        let undo_closure = |bitmask: u64, index: usize| -> (ret: u64)
            ensures
                ret == iter_shift(bitmask, reverse_direction, (index + 1) as nat),
            {
                let mut current = bitmask.shift_move(reverse_direction);
                proof {
                    assert(iter_shift(bitmask, reverse_direction, 0) == bitmask);
                    assert(iter_shift(bitmask, reverse_direction, 1) == shift_move_spec(
                        iter_shift(bitmask, reverse_direction, 0),
                        reverse_direction,
                    ));
                }
                let mut i: usize = 0;
                while i < index
                    invariant
                        i <= index,
                        current == iter_shift(bitmask, reverse_direction, (i + 1) as nat),
                    decreases index - i,
                {
                    current = current.shift_move(reverse_direction);
                    i = i + 1;
                }
                current
            };
        proof {
            assert forall|b: u64, k: usize, ret: u64|
                call_ensures(undo_closure, (b, k), ret) implies ret == slider_undo(dd)(
                b,
                k as int,
            ) by {
                assert(ret == iter_shift(b, reverse_direction, (k + 1) as nat));
            }
            assert forall|j: int| 0 <= j < packed.len() implies ((#[trigger] packed[j]).captures
                & packed[j].moves == packed[j].captures) by {
                crate::shared::lemma_meet(packed[j].moves, enemy_side_mask(board, piece_type));
            }
            assert forall|j: int| 0 <= j < packed.len() implies ((#[trigger] packed[j]).captures
                & board.black_pieces.mask == packed[j].captures || packed[j].captures
                & board.white_pieces.mask == packed[j].captures) by {
                crate::shared::lemma_meet(packed[j].moves, enemy_side_mask(board, piece_type));
            }
            assert forall|k: int, b: u64|
                #![trigger slider_undo(dd)(b, k)]
                0 <= k < packed.len() && is_single_bit(b) && b & packed[k].moves == b implies
                is_single_bit(slider_undo(dd)(b, k)) by {
                lemma_slider_origin(board, piece_type, dd, k as nat, b);
            }
        }
        let result = unpack_moves(
            packed_moves,
            undo_closure,
            piece_type,
            &self,
            Ghost(slider_undo(cardinal_direction)),
        );
        proof {
            if let Ok(out) = &result {
                lemma_packed_frames_output(board, piece_type, dd, packed, 0);
                assert(out@ == slider_ray_moves(board, piece_type, dd));
            }
        }
        result
    }

}

} // verus!
