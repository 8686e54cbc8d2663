pub mod diagonal_moves;
pub mod knight_moves;
pub mod pawn_moves;
pub mod pinned_to_king;
pub mod straight_moves;
