pub mod black_pieces;
pub mod generic;
pub mod pieces;
pub mod white_pieces;
