pub mod attack_maps;
pub mod chess_flip;
pub mod chess_move;
pub mod shared;
pub mod standard_move;
pub mod calculate_moves;
pub mod temp_move;
