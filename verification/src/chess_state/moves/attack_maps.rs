use vstd::prelude::*;

use crate::chess_state::moves::chess_move::ChessDirection;
use crate::chess_state::moves::chess_move::ChessShiftMove;
use crate::chess_state::moves::chess_move::shift_down;
use crate::chess_state::moves::chess_move::shift_down_left;
use crate::chess_state::moves::chess_move::shift_down_right;
use crate::chess_state::moves::chess_move::shift_knight_eight;
use crate::chess_state::moves::chess_move::shift_knight_eleven;
use crate::chess_state::moves::chess_move::shift_knight_five;
use crate::chess_state::moves::chess_move::shift_knight_four;
use crate::chess_state::moves::chess_move::shift_knight_one;
use crate::chess_state::moves::chess_move::shift_knight_seven;
use crate::chess_state::moves::chess_move::shift_knight_ten;
use crate::chess_state::moves::chess_move::shift_knight_two;
use crate::chess_state::moves::chess_move::shift_left;
use crate::chess_state::moves::chess_move::shift_right;
use crate::chess_state::moves::chess_move::shift_up;
use crate::chess_state::moves::chess_move::shift_up_left;
use crate::chess_state::moves::chess_move::shift_up_right;

verus! {

/// The squares a set of white pawns threatens on an empty board.
pub open spec fn white_pawn_attack_spec(m: u64) -> u64 {
    shift_up_left(m) | shift_up_right(m)
}

/// The squares a set of black pawns threatens on an empty board.
pub open spec fn black_pawn_attack_spec(m: u64) -> u64 {
    shift_down_left(m) | shift_down_right(m)
}

/// The squares a set of knights threatens.
pub open spec fn knight_attack_spec(m: u64) -> u64 {
    shift_knight_one(m) | shift_knight_two(m) | shift_knight_four(m) | shift_knight_five(m)
        | shift_knight_seven(m) | shift_knight_eight(m) | shift_knight_ten(m)
        | shift_knight_eleven(m)
}

/// The squares a king on each square of `m` threatens.
pub open spec fn king_attack_spec(m: u64) -> u64 {
    shift_up(m) | shift_up_right(m) | shift_right(m) | shift_down_right(m) | shift_down(m)
        | shift_down_left(m) | shift_left(m) | shift_up_left(m)
}

/// The full ray of squares reached by sliding from `m` toward `up`
/// across an empty board: seven unions of one further step each.
pub open spec fn ray_up(m: u64) -> u64 {
    let s0 = shift_up(m);
    let s1 = s0 | shift_up(s0);
    let s2 = s1 | shift_up(s1);
    let s3 = s2 | shift_up(s2);
    let s4 = s3 | shift_up(s3);
    let s5 = s4 | shift_up(s4);
    let s6 = s5 | shift_up(s5);
    let s7 = s6 | shift_up(s6);
    s7
}

/// The full ray of squares reached by sliding from `m` toward `right`
/// across an empty board: seven unions of one further step each.
pub open spec fn ray_right(m: u64) -> u64 {
    let s0 = shift_right(m);
    let s1 = s0 | shift_right(s0);
    let s2 = s1 | shift_right(s1);
    let s3 = s2 | shift_right(s2);
    let s4 = s3 | shift_right(s3);
    let s5 = s4 | shift_right(s4);
    let s6 = s5 | shift_right(s5);
    let s7 = s6 | shift_right(s6);
    s7
}

/// The full ray of squares reached by sliding from `m` toward `down`
/// across an empty board: seven unions of one further step each.
pub open spec fn ray_down(m: u64) -> u64 {
    let s0 = shift_down(m);
    let s1 = s0 | shift_down(s0);
    let s2 = s1 | shift_down(s1);
    let s3 = s2 | shift_down(s2);
    let s4 = s3 | shift_down(s3);
    let s5 = s4 | shift_down(s4);
    let s6 = s5 | shift_down(s5);
    let s7 = s6 | shift_down(s6);
    s7
}

/// The full ray of squares reached by sliding from `m` toward `left`
/// across an empty board: seven unions of one further step each.
pub open spec fn ray_left(m: u64) -> u64 {
    let s0 = shift_left(m);
    let s1 = s0 | shift_left(s0);
    let s2 = s1 | shift_left(s1);
    let s3 = s2 | shift_left(s2);
    let s4 = s3 | shift_left(s3);
    let s5 = s4 | shift_left(s4);
    let s6 = s5 | shift_left(s5);
    let s7 = s6 | shift_left(s6);
    s7
}

/// The full ray of squares reached by sliding from `m` toward `up-right`
/// across an empty board: seven unions of one further step each.
pub open spec fn ray_up_right(m: u64) -> u64 {
    let s0 = shift_up_right(m);
    let s1 = s0 | shift_up_right(s0);
    let s2 = s1 | shift_up_right(s1);
    let s3 = s2 | shift_up_right(s2);
    let s4 = s3 | shift_up_right(s3);
    let s5 = s4 | shift_up_right(s4);
    let s6 = s5 | shift_up_right(s5);
    let s7 = s6 | shift_up_right(s6);
    s7
}

/// The full ray of squares reached by sliding from `m` toward `down-right`
/// across an empty board: seven unions of one further step each.
pub open spec fn ray_down_right(m: u64) -> u64 {
    let s0 = shift_down_right(m);
    let s1 = s0 | shift_down_right(s0);
    let s2 = s1 | shift_down_right(s1);
    let s3 = s2 | shift_down_right(s2);
    let s4 = s3 | shift_down_right(s3);
    let s5 = s4 | shift_down_right(s4);
    let s6 = s5 | shift_down_right(s5);
    let s7 = s6 | shift_down_right(s6);
    s7
}

/// The full ray of squares reached by sliding from `m` toward `down-left`
/// across an empty board: seven unions of one further step each.
pub open spec fn ray_down_left(m: u64) -> u64 {
    let s0 = shift_down_left(m);
    let s1 = s0 | shift_down_left(s0);
    let s2 = s1 | shift_down_left(s1);
    let s3 = s2 | shift_down_left(s2);
    let s4 = s3 | shift_down_left(s3);
    let s5 = s4 | shift_down_left(s4);
    let s6 = s5 | shift_down_left(s5);
    let s7 = s6 | shift_down_left(s6);
    s7
}

/// The full ray of squares reached by sliding from `m` toward `up-left`
/// across an empty board: seven unions of one further step each.
pub open spec fn ray_up_left(m: u64) -> u64 {
    let s0 = shift_up_left(m);
    let s1 = s0 | shift_up_left(s0);
    let s2 = s1 | shift_up_left(s1);
    let s3 = s2 | shift_up_left(s2);
    let s4 = s3 | shift_up_left(s3);
    let s5 = s4 | shift_up_left(s4);
    let s6 = s5 | shift_up_left(s5);
    let s7 = s6 | shift_up_left(s6);
    s7
}

/// The squares a set of rooks threatens on an empty board.
pub open spec fn rook_attack_spec(m: u64) -> u64 {
    ray_up(m) | ray_right(m) | ray_down(m) | ray_left(m)
}

/// The squares a set of bishops threatens on an empty board.
pub open spec fn bishop_attack_spec(m: u64) -> u64 {
    ray_up_right(m) | ray_down_right(m) | ray_down_left(m) | ray_up_left(m)
}

/// The squares a set of queens threatens on an empty board.
pub open spec fn queen_attack_spec(m: u64) -> u64 {
    ray_up(m) | ray_up_right(m) | ray_right(m) | ray_down_right(m) | ray_down(m) | ray_down_left(
        m,
    ) | ray_left(m) | ray_up_left(m)
}

pub trait WhitePawnAttackMaps {
    fn calculate_unconstrained_white_pawn_attack_maps(self) -> Self;
}

pub trait BlackPawnAttackMaps {
    fn calculate_unconstrained_black_pawn_attack_maps(self) -> Self;
}

pub trait KnightAttackMaps {
    fn calculate_unconstrained_knight_maps(self) -> Self;
}

pub trait BishopAttackMaps {
    fn calculate_unconstrained_bishop_attack_maps(self) -> Self;
}

pub trait QueenAttackMaps {
    fn calculate_unconstrained_queen_attack_maps(self) -> Self;
}

pub trait RookAttackMaps {
    fn calculate_unconstrained_rook_attack_maps(self) -> Self;
}

pub trait KingAttackMaps {
    fn calculate_unconstrained_king_attack_maps(self) -> Self;
}

impl WhitePawnAttackMaps for u64 {
    /// The two diagonal capture squares of each white pawn in the mask.
    fn calculate_unconstrained_white_pawn_attack_maps(self) -> (r: Self)
        ensures
            r == white_pawn_attack_spec(self),
    {
        self.shift_move(ChessDirection::UpLeft) | self.shift_move(ChessDirection::UpRight)
    }
}

impl BlackPawnAttackMaps for u64 {
    /// The two diagonal capture squares of each black pawn in the mask.
    fn calculate_unconstrained_black_pawn_attack_maps(self) -> (r: Self)
        ensures
            r == black_pawn_attack_spec(self),
    {
        self.shift_move(ChessDirection::DownLeft) | self.shift_move(ChessDirection::DownRight)
    }
}

impl KnightAttackMaps for u64 {
    /// The eight L-shaped destinations of each knight in the mask.
    fn calculate_unconstrained_knight_maps(self) -> (r: Self)
        ensures
            r == knight_attack_spec(self),
    {
        self.shift_move(ChessDirection::KnightOne) | self.shift_move(ChessDirection::KnightTwo)
            | self.shift_move(ChessDirection::KnightFour) | self.shift_move(
            ChessDirection::KnightFive,
        ) | self.shift_move(ChessDirection::KnightSeven) | self.shift_move(
            ChessDirection::KnightEight,
        ) | self.shift_move(ChessDirection::KnightTen) | self.shift_move(
            ChessDirection::KnightEleven,
        )
    }
}

impl BishopAttackMaps for u64 {
    /// The four full diagonal rays from each bishop in the mask, over an
    /// empty board.
    fn calculate_unconstrained_bishop_attack_maps(self) -> (r: Self)
        ensures
            r == bishop_attack_spec(self),
    {
        let r_up_right = {
            let s0 = self.shift_move(ChessDirection::UpRight);
            let s1 = s0 | s0.shift_move(ChessDirection::UpRight);
            let s2 = s1 | s1.shift_move(ChessDirection::UpRight);
            let s3 = s2 | s2.shift_move(ChessDirection::UpRight);
            let s4 = s3 | s3.shift_move(ChessDirection::UpRight);
            let s5 = s4 | s4.shift_move(ChessDirection::UpRight);
            let s6 = s5 | s5.shift_move(ChessDirection::UpRight);
            let s7 = s6 | s6.shift_move(ChessDirection::UpRight);
            s7
        };
        let r_down_right = {
            let s0 = self.shift_move(ChessDirection::DownRight);
            let s1 = s0 | s0.shift_move(ChessDirection::DownRight);
            let s2 = s1 | s1.shift_move(ChessDirection::DownRight);
            let s3 = s2 | s2.shift_move(ChessDirection::DownRight);
            let s4 = s3 | s3.shift_move(ChessDirection::DownRight);
            let s5 = s4 | s4.shift_move(ChessDirection::DownRight);
            let s6 = s5 | s5.shift_move(ChessDirection::DownRight);
            let s7 = s6 | s6.shift_move(ChessDirection::DownRight);
            s7
        };
        let r_down_left = {
            let s0 = self.shift_move(ChessDirection::DownLeft);
            let s1 = s0 | s0.shift_move(ChessDirection::DownLeft);
            let s2 = s1 | s1.shift_move(ChessDirection::DownLeft);
            let s3 = s2 | s2.shift_move(ChessDirection::DownLeft);
            let s4 = s3 | s3.shift_move(ChessDirection::DownLeft);
            let s5 = s4 | s4.shift_move(ChessDirection::DownLeft);
            let s6 = s5 | s5.shift_move(ChessDirection::DownLeft);
            let s7 = s6 | s6.shift_move(ChessDirection::DownLeft);
            s7
        };
        let r_up_left = {
            let s0 = self.shift_move(ChessDirection::UpLeft);
            let s1 = s0 | s0.shift_move(ChessDirection::UpLeft);
            let s2 = s1 | s1.shift_move(ChessDirection::UpLeft);
            let s3 = s2 | s2.shift_move(ChessDirection::UpLeft);
            let s4 = s3 | s3.shift_move(ChessDirection::UpLeft);
            let s5 = s4 | s4.shift_move(ChessDirection::UpLeft);
            let s6 = s5 | s5.shift_move(ChessDirection::UpLeft);
            let s7 = s6 | s6.shift_move(ChessDirection::UpLeft);
            s7
        };
        r_up_right | r_down_right | r_down_left | r_up_left
    }
}

impl RookAttackMaps for u64 {
    /// The four full straight rays from each rook in the mask, over an empty
    /// board.
    fn calculate_unconstrained_rook_attack_maps(self) -> (r: Self)
        ensures
            r == rook_attack_spec(self),
    {
        let r_up = {
            let s0 = self.shift_move(ChessDirection::Up);
            let s1 = s0 | s0.shift_move(ChessDirection::Up);
            let s2 = s1 | s1.shift_move(ChessDirection::Up);
            let s3 = s2 | s2.shift_move(ChessDirection::Up);
            let s4 = s3 | s3.shift_move(ChessDirection::Up);
            let s5 = s4 | s4.shift_move(ChessDirection::Up);
            let s6 = s5 | s5.shift_move(ChessDirection::Up);
            let s7 = s6 | s6.shift_move(ChessDirection::Up);
            s7
        };
        let r_right = {
            let s0 = self.shift_move(ChessDirection::Right);
            let s1 = s0 | s0.shift_move(ChessDirection::Right);
            let s2 = s1 | s1.shift_move(ChessDirection::Right);
            let s3 = s2 | s2.shift_move(ChessDirection::Right);
            let s4 = s3 | s3.shift_move(ChessDirection::Right);
            let s5 = s4 | s4.shift_move(ChessDirection::Right);
            let s6 = s5 | s5.shift_move(ChessDirection::Right);
            let s7 = s6 | s6.shift_move(ChessDirection::Right);
            s7
        };
        let r_down = {
            let s0 = self.shift_move(ChessDirection::Down);
            let s1 = s0 | s0.shift_move(ChessDirection::Down);
            let s2 = s1 | s1.shift_move(ChessDirection::Down);
            let s3 = s2 | s2.shift_move(ChessDirection::Down);
            let s4 = s3 | s3.shift_move(ChessDirection::Down);
            let s5 = s4 | s4.shift_move(ChessDirection::Down);
            let s6 = s5 | s5.shift_move(ChessDirection::Down);
            let s7 = s6 | s6.shift_move(ChessDirection::Down);
            s7
        };
        let r_left = {
            let s0 = self.shift_move(ChessDirection::Left);
            let s1 = s0 | s0.shift_move(ChessDirection::Left);
            let s2 = s1 | s1.shift_move(ChessDirection::Left);
            let s3 = s2 | s2.shift_move(ChessDirection::Left);
            let s4 = s3 | s3.shift_move(ChessDirection::Left);
            let s5 = s4 | s4.shift_move(ChessDirection::Left);
            let s6 = s5 | s5.shift_move(ChessDirection::Left);
            let s7 = s6 | s6.shift_move(ChessDirection::Left);
            s7
        };
        r_up | r_right | r_down | r_left
    }
}

impl QueenAttackMaps for u64 {
    /// All eight full rays from each queen in the mask, over an empty board.
    fn calculate_unconstrained_queen_attack_maps(self) -> (r: Self)
        ensures
            r == queen_attack_spec(self),
    {
        let r_up = {
            let s0 = self.shift_move(ChessDirection::Up);
            let s1 = s0 | s0.shift_move(ChessDirection::Up);
            let s2 = s1 | s1.shift_move(ChessDirection::Up);
            let s3 = s2 | s2.shift_move(ChessDirection::Up);
            let s4 = s3 | s3.shift_move(ChessDirection::Up);
            let s5 = s4 | s4.shift_move(ChessDirection::Up);
            let s6 = s5 | s5.shift_move(ChessDirection::Up);
            let s7 = s6 | s6.shift_move(ChessDirection::Up);
            s7
        };
        let r_up_right = {
            let s0 = self.shift_move(ChessDirection::UpRight);
            let s1 = s0 | s0.shift_move(ChessDirection::UpRight);
            let s2 = s1 | s1.shift_move(ChessDirection::UpRight);
            let s3 = s2 | s2.shift_move(ChessDirection::UpRight);
            let s4 = s3 | s3.shift_move(ChessDirection::UpRight);
            let s5 = s4 | s4.shift_move(ChessDirection::UpRight);
            let s6 = s5 | s5.shift_move(ChessDirection::UpRight);
            let s7 = s6 | s6.shift_move(ChessDirection::UpRight);
            s7
        };
        let r_right = {
            let s0 = self.shift_move(ChessDirection::Right);
            let s1 = s0 | s0.shift_move(ChessDirection::Right);
            let s2 = s1 | s1.shift_move(ChessDirection::Right);
            let s3 = s2 | s2.shift_move(ChessDirection::Right);
            let s4 = s3 | s3.shift_move(ChessDirection::Right);
            let s5 = s4 | s4.shift_move(ChessDirection::Right);
            let s6 = s5 | s5.shift_move(ChessDirection::Right);
            let s7 = s6 | s6.shift_move(ChessDirection::Right);
            s7
        };
        let r_down_right = {
            let s0 = self.shift_move(ChessDirection::DownRight);
            let s1 = s0 | s0.shift_move(ChessDirection::DownRight);
            let s2 = s1 | s1.shift_move(ChessDirection::DownRight);
            let s3 = s2 | s2.shift_move(ChessDirection::DownRight);
            let s4 = s3 | s3.shift_move(ChessDirection::DownRight);
            let s5 = s4 | s4.shift_move(ChessDirection::DownRight);
            let s6 = s5 | s5.shift_move(ChessDirection::DownRight);
            let s7 = s6 | s6.shift_move(ChessDirection::DownRight);
            s7
        };
        let r_down = {
            let s0 = self.shift_move(ChessDirection::Down);
            let s1 = s0 | s0.shift_move(ChessDirection::Down);
            let s2 = s1 | s1.shift_move(ChessDirection::Down);
            let s3 = s2 | s2.shift_move(ChessDirection::Down);
            let s4 = s3 | s3.shift_move(ChessDirection::Down);
            let s5 = s4 | s4.shift_move(ChessDirection::Down);
            let s6 = s5 | s5.shift_move(ChessDirection::Down);
            let s7 = s6 | s6.shift_move(ChessDirection::Down);
            s7
        };
        let r_down_left = {
            let s0 = self.shift_move(ChessDirection::DownLeft);
            let s1 = s0 | s0.shift_move(ChessDirection::DownLeft);
            let s2 = s1 | s1.shift_move(ChessDirection::DownLeft);
            let s3 = s2 | s2.shift_move(ChessDirection::DownLeft);
            let s4 = s3 | s3.shift_move(ChessDirection::DownLeft);
            let s5 = s4 | s4.shift_move(ChessDirection::DownLeft);
            let s6 = s5 | s5.shift_move(ChessDirection::DownLeft);
            let s7 = s6 | s6.shift_move(ChessDirection::DownLeft);
            s7
        };
        let r_left = {
            let s0 = self.shift_move(ChessDirection::Left);
            let s1 = s0 | s0.shift_move(ChessDirection::Left);
            let s2 = s1 | s1.shift_move(ChessDirection::Left);
            let s3 = s2 | s2.shift_move(ChessDirection::Left);
            let s4 = s3 | s3.shift_move(ChessDirection::Left);
            let s5 = s4 | s4.shift_move(ChessDirection::Left);
            let s6 = s5 | s5.shift_move(ChessDirection::Left);
            let s7 = s6 | s6.shift_move(ChessDirection::Left);
            s7
        };
        let r_up_left = {
            let s0 = self.shift_move(ChessDirection::UpLeft);
            let s1 = s0 | s0.shift_move(ChessDirection::UpLeft);
            let s2 = s1 | s1.shift_move(ChessDirection::UpLeft);
            let s3 = s2 | s2.shift_move(ChessDirection::UpLeft);
            let s4 = s3 | s3.shift_move(ChessDirection::UpLeft);
            let s5 = s4 | s4.shift_move(ChessDirection::UpLeft);
            let s6 = s5 | s5.shift_move(ChessDirection::UpLeft);
            let s7 = s6 | s6.shift_move(ChessDirection::UpLeft);
            s7
        };
        r_up | r_up_right | r_right | r_down_right | r_down | r_down_left | r_left | r_up_left
    }
}

impl KingAttackMaps for u64 {
    /// The eight neighbouring squares of each king in the mask.
    fn calculate_unconstrained_king_attack_maps(self) -> (r: Self)
        ensures
            r == king_attack_spec(self),
    {
        self.shift_move(ChessDirection::Up) | self.shift_move(ChessDirection::UpRight)
            | self.shift_move(ChessDirection::Right) | self.shift_move(ChessDirection::DownRight)
            | self.shift_move(ChessDirection::Down) | self.shift_move(ChessDirection::DownLeft)
            | self.shift_move(ChessDirection::Left) | self.shift_move(ChessDirection::UpLeft)
    }
}

/// The queen's reach is exactly the union of the rook's and the bishop's.
pub proof fn lemma_queen_is_rook_and_bishop(m: u64)
    ensures
        queen_attack_spec(m) == rook_attack_spec(m) | bishop_attack_spec(m),
{
    assert(queen_attack_spec(m) == rook_attack_spec(m) | bishop_attack_spec(m)) by (bit_vector);
}

/// The square set a king reaches from the single square with bit index `i`:
/// every neighbouring square, each named by its index arithmetic.
pub open spec fn king_table_spec(i: u64) -> u64 {
    (if i / 8 != 7 {
        1u64 << ((i + 8) as u64)
    } else {
        0u64
    }) | (if i / 8 != 0 {
        1u64 << ((i - 8) as u64)
    } else {
        0u64
    }) | (if i % 8 != 7 {
        1u64 << ((i + 1) as u64)
    } else {
        0u64
    }) | (if i % 8 != 0 {
        1u64 << ((i - 1) as u64)
    } else {
        0u64
    }) | (if i / 8 != 7 && i % 8 != 7 {
        1u64 << ((i + 9) as u64)
    } else {
        0u64
    }) | (if i / 8 != 7 && i % 8 != 0 {
        1u64 << ((i + 7) as u64)
    } else {
        0u64
    }) | (if i / 8 != 0 && i % 8 != 7 {
        1u64 << ((i - 7) as u64)
    } else {
        0u64
    }) | (if i / 8 != 0 && i % 8 != 0 {
        1u64 << ((i - 9) as u64)
    } else {
        0u64
    })
}

/// The square set a knight reaches from the single square with bit index `i`.
pub open spec fn knight_table_spec(i: u64) -> u64 {
    (if i / 8 < 6 && i % 8 >= 1 {
        1u64 << ((i + 15) as u64)
    } else {
        0u64
    }) | (if i / 8 < 7 && i % 8 >= 2 {
        1u64 << ((i + 6) as u64)
    } else {
        0u64
    }) | (if i / 8 >= 1 && i % 8 >= 2 {
        1u64 << ((i - 10) as u64)
    } else {
        0u64
    }) | (if i / 8 >= 2 && i % 8 >= 1 {
        1u64 << ((i - 17) as u64)
    } else {
        0u64
    }) | (if i / 8 >= 2 && i % 8 <= 6 {
        1u64 << ((i - 15) as u64)
    } else {
        0u64
    }) | (if i / 8 >= 1 && i % 8 <= 5 {
        1u64 << ((i - 6) as u64)
    } else {
        0u64
    }) | (if i / 8 < 7 && i % 8 <= 5 {
        1u64 << ((i + 10) as u64)
    } else {
        0u64
    }) | (if i / 8 < 6 && i % 8 <= 6 {
        1u64 << ((i + 17) as u64)
    } else {
        0u64
    })
}

/// From any single square, the eight king steps reproduce exactly the king's
/// attack table for that square.
pub proof fn lemma_king_attack_table(i: u64)
    requires
        i < 64,
    ensures
        king_attack_spec(1u64 << i) == king_table_spec(i),
{
    assert(i < 64 ==> king_attack_spec(1u64 << i) == king_table_spec(i)) by (bit_vector);
}

/// From any single square, the eight knight steps reproduce exactly the
/// knight's attack table for that square.
pub proof fn lemma_knight_attack_table(i: u64)
    requires
        i < 64,
    ensures
        knight_attack_spec(1u64 << i) == knight_table_spec(i),
{
    assert(i < 64 ==> knight_attack_spec(1u64 << i) == knight_table_spec(i)) by (bit_vector);
}

/// On an empty board a bishop on the square with bit index `i` reaches `j`
/// exactly when `j` is another square of one of the two diagonals through
/// `i`.
pub proof fn lemma_bishop_attacks_diagonals(i: u64, j: u64)
    requires
        i < 64,
        j < 64,
    ensures
        (bishop_attack_spec(1u64 << i) >> j) & 1 == 1 <==> (j != i && (i % 8 + i / 8 == j % 8 + j
            / 8 || i % 8 - i / 8 == j % 8 - j / 8)),
{
    assert(i < 64 && j < 64 ==> ((bishop_attack_spec(1u64 << i) >> j) & 1 == 1 <==> (j != i && (i
        % 8 + i / 8 == j % 8 + j / 8 || i % 8 - i / 8 == j % 8 - j / 8)))) by (bit_vector);
}

/// On an empty board a rook on the square with bit index `i` reaches `j`
/// exactly when `j` is another square of the same rank or the same file.
pub proof fn lemma_rook_attacks_lines(i: u64, j: u64)
    requires
        i < 64,
        j < 64,
    ensures
        (rook_attack_spec(1u64 << i) >> j) & 1 == 1 <==> (j != i && (i / 8 == j / 8 || i % 8 == j
            % 8)),
{
    assert(i < 64 && j < 64 ==> ((rook_attack_spec(1u64 << i) >> j) & 1 == 1 <==> (j != i && (i
        / 8 == j / 8 || i % 8 == j % 8)))) by (bit_vector);
}

} // verus!

