pub mod board_bitmask;
pub mod board_hash_map;
pub mod chess_pieces;
pub mod coordinate_point;
pub mod coordinates;
pub mod moves;
