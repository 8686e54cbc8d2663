use vstd::prelude::*;

use crate::chess_state::board_bitmask::BoardBitmasks;
use crate::chess_state::moves::attack_maps::BishopAttackMaps;
use crate::chess_state::moves::attack_maps::RookAttackMaps;
use crate::chess_state::moves::attack_maps::bishop_attack_spec;
use crate::chess_state::moves::attack_maps::rook_attack_spec;
use crate::chess_state::moves::chess_move::ChessDirection;
use crate::chess_state::moves::chess_move::ChessShiftMove;
use crate::chess_state::moves::chess_move::iter_shift;
use crate::chess_state::moves::chess_move::lemma_ray_dies;
use crate::chess_state::moves::chess_move::lemma_union_subset;
use crate::chess_state::moves::chess_move::shift_move_spec;
use crate::chess_state::moves::shared::MoveError;
use crate::shared::is_single_bit;

verus! {

/// Whether `d` is one of the eight ray directions a pin can lie along.
pub open spec fn is_ray_direction(d: ChessDirection) -> bool {
    match d {
        ChessDirection::Up | ChessDirection::UpRight | ChessDirection::Right
            | ChessDirection::DownRight | ChessDirection::Down | ChessDirection::DownLeft
            | ChessDirection::Left | ChessDirection::UpLeft => true,
        _ => false,
    }
}

/// The rest of the pin walk, standing on the squares `pos` with the first
/// defender met so far in `candidate` (zero when none yet): the pinned
/// defender, or zero. Any occupied square that is not the role the walk
/// currently seeks ends the ray without a pin: an enemy piece of any kind
/// before the defender, or any piece other than a compatible attacker after
/// it. The ray running off the board ends the walk too; an attacker right
/// after the one defender pins it.
pub open spec fn pin_scan(
    pos: u64,
    d: ChessDirection,
    attackers: u64,
    defenders: u64,
    occupied: u64,
    candidate: u64,
    fuel: nat,
) -> u64
    decreases fuel,
{
    if pos == 0 || fuel == 0 {
        0u64
    } else if candidate == 0 {
        if pos & defenders != 0 {
            pin_scan(
                shift_move_spec(pos, d),
                d,
                attackers,
                defenders,
                occupied,
                pos,
                (fuel - 1) as nat,
            )
        } else if pos & occupied != 0 {
            0u64
        } else {
            pin_scan(
                shift_move_spec(pos, d),
                d,
                attackers,
                defenders,
                occupied,
                0u64,
                (fuel - 1) as nat,
            )
        }
    } else {
        if pos & attackers != 0 {
            candidate
        } else if pos & occupied != 0 {
            0u64
        } else {
            pin_scan(
                shift_move_spec(pos, d),
                d,
                attackers,
                defenders,
                occupied,
                candidate,
                (fuel - 1) as nat,
            )
        }
    }
}

/// The defender pinned on the ray `d` from `king`: the first defender the
/// walk meets, provided a compatible attacker follows it before any other
/// occupied square. Eight steps of fuel cover the whole board.
pub open spec fn pin_on_ray(
    king: u64,
    d: ChessDirection,
    attackers: u64,
    defenders: u64,
    occupied: u64,
) -> u64 {
    pin_scan(shift_move_spec(king, d), d, attackers, defenders, occupied, 0u64, 8)
}

/// The pieces cardinally pinned to the chosen side's king: for each straight
/// ray, the defender sandwiched between the king and an enemy rook or queen.
/// The rays are only walked when such an enemy stands in the king's
/// unconstrained rook reach.
pub open spec fn cardinal_pins_spec(board: BoardBitmasks, white: bool) -> u64 {
    let king = if white {
        board.white_kings.mask
    } else {
        board.black_kings.mask
    };
    let attackers = if white {
        board.black_rooks.mask | board.black_queens.mask
    } else {
        board.white_rooks.mask | board.white_queens.mask
    };
    let defenders = if white {
        board.white_pieces.mask
    } else {
        board.black_pieces.mask
    };
    if rook_attack_spec(king) & attackers != 0 {
        pin_on_ray(king, ChessDirection::Up, attackers, defenders, board.all_pieces.mask)
            | pin_on_ray(king, ChessDirection::Right, attackers, defenders, board.all_pieces.mask)
            | pin_on_ray(king, ChessDirection::Down, attackers, defenders, board.all_pieces.mask)
            | pin_on_ray(king, ChessDirection::Left, attackers, defenders, board.all_pieces.mask)
    } else {
        0u64
    }
}

/// The pieces diagonally pinned to the chosen side's king: for each diagonal
/// ray, the defender sandwiched between the king and an enemy bishop or
/// queen.
pub open spec fn diagonal_pins_spec(board: BoardBitmasks, white: bool) -> u64 {
    let king = if white {
        board.white_kings.mask
    } else {
        board.black_kings.mask
    };
    let attackers = if white {
        board.black_bishops.mask | board.black_queens.mask
    } else {
        board.white_bishops.mask | board.white_queens.mask
    };
    let defenders = if white {
        board.white_pieces.mask
    } else {
        board.black_pieces.mask
    };
    if bishop_attack_spec(king) & attackers != 0 {
        pin_on_ray(king, ChessDirection::UpRight, attackers, defenders, board.all_pieces.mask)
            | pin_on_ray(
            king,
            ChessDirection::DownRight,
            attackers,
            defenders,
            board.all_pieces.mask,
        ) | pin_on_ray(king, ChessDirection::DownLeft, attackers, defenders, board.all_pieces.mask)
            | pin_on_ray(king, ChessDirection::UpLeft, attackers, defenders, board.all_pieces.mask)
    } else {
        0u64
    }
}

/// Casts a ray from the `king_position` and checks that, walking outwards in
/// `direction`, the first occupied square holds one of the `defending_pieces`
/// and the next occupied square one of the `attacking_pieces`: that defender
/// is pinned. Any other occupied square ends the ray without a pin. Returns
/// the defender's mask, or zero when there is no pin on this ray; refuses
/// knight directions.
pub fn check_for_pin(
    king_position: u64,
    direction: ChessDirection,
    attacking_pieces: u64,
    defending_pieces: u64,
    all_pieces: u64,
) -> (r: Result<u64, MoveError>)
    ensures
        !is_ray_direction(direction) ==> r matches Err(MoveError::InvalidDirection(_, _, _)),
        is_ray_direction(direction) ==> r == Ok::<u64, MoveError>(
            pin_on_ray(king_position, direction, attacking_pieces, defending_pieces, all_pieces),
        ),
        is_ray_direction(direction) && is_single_bit(king_position) ==> (r matches Ok(m) && (m == 0
            || (is_single_bit(m) && m & defending_pieces == m))),
{
    // first we confirm that the direction is good
    match direction {
        ChessDirection::Up | ChessDirection::UpRight | ChessDirection::Right
            | ChessDirection::DownRight | ChessDirection::Down | ChessDirection::DownLeft
            | ChessDirection::Left | ChessDirection::UpLeft => {},
        _ => {
            return Err(
                MoveError::InvalidDirection(
                    "check_for_pin".to_owned(),
                    "a cardinal or diagonal direction".to_owned(),
                    "a knight direction".to_owned(),
                ),
            );
        },
    }
    // will represent the next square to check
    let mut next_position: u64 = king_position.shift_move(direction);
    // tracks the position of the first defensive piece found
    let mut pinned_piece_candidate: u64 = 0;
    let ghost mut steps: nat = 1;
    proof {
        assert(iter_shift(king_position, direction, 0) == king_position);
        assert(iter_shift(king_position, direction, 1) == shift_move_spec(
            iter_shift(king_position, direction, 0),
            direction,
        ));
        crate::chess_state::moves::chess_move::lemma_shift_split(king_position, 0, direction);
    }

    // i.e. there is some valid next move in the direction
    while next_position != 0
        invariant
            is_ray_direction(direction),
            1 <= steps <= 8,
            next_position == iter_shift(king_position, direction, steps),
            pin_on_ray(king_position, direction, attacking_pieces, defending_pieces, all_pieces)
                == pin_scan(
                next_position,
                direction,
                attacking_pieces,
                defending_pieces,
                all_pieces,
                pinned_piece_candidate,
                (9 - steps) as nat,
            ),
            is_single_bit(king_position) ==> (next_position == 0 || is_single_bit(next_position)),
            is_single_bit(king_position) ==> (pinned_piece_candidate == 0 || (is_single_bit(
                pinned_piece_candidate,
            ) && pinned_piece_candidate & defending_pieces == pinned_piece_candidate)),
        decreases 8 - steps,
    {
        proof {
            if steps == 8 {
                lemma_ray_dies(king_position, direction);
            }
        }
        let pinned_piece_found: bool = pinned_piece_candidate != 0;

        if !pinned_piece_found {
            // we are looking for a defensive piece to start the pin
            if next_position & defending_pieces != 0 {
                proof {
                    crate::shared::lemma_single_bit_facts(next_position, defending_pieces);
                }
                pinned_piece_candidate = next_position;
            } else if next_position & all_pieces != 0 {
                // the first occupied square holds an enemy piece of some kind,
                // so there is no pin on this ray
                return Ok(0);
            }
            // if we don't find anything, keep looking
        } else {
            // we have our defending piece, so we are looking for an attacking piece
            if next_position & attacking_pieces != 0 {
                // its a valid pin!
                return Ok(pinned_piece_candidate);
            } else if next_position & all_pieces != 0 {
                // we run into some other piece before an attacking piece,
                // therefore not a valid pin
                return Ok(0);
            }
            // if we don't find anything, keep looking
        }

        // if we have not returned early, then we can move on to checking the next position
        proof {
            crate::chess_state::moves::chess_move::lemma_shift_split(next_position, 0, direction);
        }
        next_position = next_position.shift_move(direction);
        proof {
            steps = steps + 1;
        }
    }

    // if there are no more valid moves and we have not returned a valid pin yet, then there is no valid pin
    Ok(0)
}

impl BoardBitmasks {
    /// Checks for any pieces that are geometrically pinned to the king from
    /// any direction. Returns a bitmask of those pinned pieces. Bear in mind
    /// that these pinned pieces may still have valid moves like moving along
    /// the line of the pin or capturing the pinning piece. Takes only
    /// `white`, which tells if we are checking for pins against the white
    /// king or the black king.
    pub fn get_pieces_pinned_to_king(&self, white: bool) -> (r: u64)
        ensures
            r == cardinal_pins_spec(*self, white) | diagonal_pins_spec(*self, white),
            white && is_single_bit(self.white_kings.mask) ==> r & self.white_pieces.mask == r,
            !white && is_single_bit(self.black_kings.mask) ==> r & self.black_pieces.mask == r,
    {
        let cardinal = self.get_pieces_cardinally_pinned_to_king(white);
        let diagonal = self.get_pieces_diagonally_pinned_to_king(white);
        proof {
            if white {
                lemma_union_subset(cardinal, diagonal, self.white_pieces.mask);
            } else {
                lemma_union_subset(cardinal, diagonal, self.black_pieces.mask);
            }
        }
        cardinal | diagonal
    }

    /// Checks for any pieces that are 'cardinally' pinned to the king (i.e.
    /// above, below, or to the side) by an enemy rook or queen. Returns a
    /// bitmask of those pinned pieces.
    pub fn get_pieces_cardinally_pinned_to_king(&self, white: bool) -> (r: u64)
        ensures
            r == cardinal_pins_spec(*self, white),
            white && is_single_bit(self.white_kings.mask) ==> r & self.white_pieces.mask == r,
            !white && is_single_bit(self.black_kings.mask) ==> r & self.black_pieces.mask == r,
    {
        // initialise our empty bitmask
        let mut output: u64 = 0;

        // figure out which side we are looking for
        let king_bitmask = if white {
            self.white_kings.mask
        } else {
            self.black_kings.mask
        };

        // figure out our attacking pieces
        let off_rook_bitmask = if white {
            self.black_rooks.mask
        } else {
            self.white_rooks.mask
        };
        let off_queen_bitmask = if white {
            self.black_queens.mask
        } else {
            self.white_queens.mask
        };

        // figure out our defending pieces
        let def_piece_bitmask = if white {
            self.white_pieces.mask
        } else {
            self.black_pieces.mask
        };

        proof {
            crate::shared::lemma_or_unit();
            crate::shared::lemma_meet(0, def_piece_bitmask);
        }
        // now we can work from the king outwards and see if we have any pieces in his rays
        let king_cardinal_attack_squares = king_bitmask.calculate_unconstrained_rook_attack_maps();
        let cardinal_attackers = off_rook_bitmask | off_queen_bitmask;
        if king_cardinal_attack_squares & cardinal_attackers != 0 {
            // there is at least one queen or rook that could generate a pin in a cardinal direction
            let up = match check_for_pin(
                king_bitmask,
                ChessDirection::Up,
                cardinal_attackers,
                def_piece_bitmask,
                self.all_pieces.mask,
            ) {
                Ok(piece) => piece,
                // can never error since there is no chance of passing in a bad direction
                Err(_) => 0,
            };
            proof {
                lemma_union_subset(output, up, def_piece_bitmask);
                crate::shared::lemma_meet(0, def_piece_bitmask);
            }
            output = output | up;
            let right = match check_for_pin(
                king_bitmask,
                ChessDirection::Right,
                cardinal_attackers,
                def_piece_bitmask,
                self.all_pieces.mask,
            ) {
                Ok(piece) => piece,
                Err(_) => 0,
            };
            proof {
                lemma_union_subset(output, right, def_piece_bitmask);
            }
            output = output | right;
            let down = match check_for_pin(
                king_bitmask,
                ChessDirection::Down,
                cardinal_attackers,
                def_piece_bitmask,
                self.all_pieces.mask,
            ) {
                Ok(piece) => piece,
                Err(_) => 0,
            };
            proof {
                lemma_union_subset(output, down, def_piece_bitmask);
            }
            output = output | down;
            let left = match check_for_pin(
                king_bitmask,
                ChessDirection::Left,
                cardinal_attackers,
                def_piece_bitmask,
                self.all_pieces.mask,
            ) {
                Ok(piece) => piece,
                Err(_) => 0,
            };
            proof {
                lemma_union_subset(output, left, def_piece_bitmask);
            }
            output = output | left;
        }

        output
    }

    /// Checks for any pieces that are 'diagonally' pinned to the king by an
    /// enemy bishop or queen. Returns a bitmask of those pinned pieces.
    pub fn get_pieces_diagonally_pinned_to_king(&self, white: bool) -> (r: u64)
        ensures
            r == diagonal_pins_spec(*self, white),
            white && is_single_bit(self.white_kings.mask) ==> r & self.white_pieces.mask == r,
            !white && is_single_bit(self.black_kings.mask) ==> r & self.black_pieces.mask == r,
    {
        // initialise our empty bitmask
        let mut output: u64 = 0;

        // figure out which side we are looking for
        let king_bitmask = if white {
            self.white_kings.mask
        } else {
            self.black_kings.mask
        };

        // figure out our attacking pieces
        let off_bishop_bitmask = if white {
            self.black_bishops.mask
        } else {
            self.white_bishops.mask
        };
        let off_queen_bitmask = if white {
            self.black_queens.mask
        } else {
            self.white_queens.mask
        };

        // figure out our defending pieces
        let def_piece_bitmask = if white {
            self.white_pieces.mask
        } else {
            self.black_pieces.mask
        };

        proof {
            crate::shared::lemma_or_unit();
            crate::shared::lemma_meet(0, def_piece_bitmask);
        }
        // now we can work from the king outwards and identify any pins in his rays
        let king_diagonal_attack_squares =
            king_bitmask.calculate_unconstrained_bishop_attack_maps();
        let diagonal_attackers = off_bishop_bitmask | off_queen_bitmask;
        if king_diagonal_attack_squares & diagonal_attackers != 0 {
            // there is at least one queen or bishop that could generate a pin in a diagonal direction
            let up_right = match check_for_pin(
                king_bitmask,
                ChessDirection::UpRight,
                diagonal_attackers,
                def_piece_bitmask,
                self.all_pieces.mask,
            ) {
                Ok(piece) => piece,
                // can never error since there is no chance of passing in a bad direction
                Err(_) => 0,
            };
            proof {
                lemma_union_subset(output, up_right, def_piece_bitmask);
                crate::shared::lemma_meet(0, def_piece_bitmask);
            }
            output = output | up_right;
            let down_right = match check_for_pin(
                king_bitmask,
                ChessDirection::DownRight,
                diagonal_attackers,
                def_piece_bitmask,
                self.all_pieces.mask,
            ) {
                Ok(piece) => piece,
                Err(_) => 0,
            };
            proof {
                lemma_union_subset(output, down_right, def_piece_bitmask);
            }
            output = output | down_right;
            let down_left = match check_for_pin(
                king_bitmask,
                ChessDirection::DownLeft,
                diagonal_attackers,
                def_piece_bitmask,
                self.all_pieces.mask,
            ) {
                Ok(piece) => piece,
                Err(_) => 0,
            };
            proof {
                lemma_union_subset(output, down_left, def_piece_bitmask);
            }
            output = output | down_left;
            let up_left = match check_for_pin(
                king_bitmask,
                ChessDirection::UpLeft,
                diagonal_attackers,
                def_piece_bitmask,
                self.all_pieces.mask,
            ) {
                Ok(piece) => piece,
                Err(_) => 0,
            };
            proof {
                lemma_union_subset(output, up_left, def_piece_bitmask);
            }
            output = output | up_left;
        }

        output
    }
}

} // verus!
