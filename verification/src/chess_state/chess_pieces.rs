use vstd::prelude::*;

verus! {

/// One of the twelve piece classes: a colour and a piece type.
#[derive(Debug, Clone, Copy, PartialEq, Eq, Structural)]
pub enum PieceEnum {
    WhitePawn,
    WhiteKnight,
    WhiteBishop,
    WhiteRook,
    WhiteQueen,
    WhiteKing,
    BlackPawn,
    BlackKnight,
    BlackBishop,
    BlackRook,
    BlackQueen,
    BlackKing,
}

/// The one-letter rendering of a piece class: upper case for white pieces,
/// lower case for black ones.
pub open spec fn piece_letter(p: PieceEnum) -> char {
    match p {
        PieceEnum::WhitePawn => 'P',
        PieceEnum::WhiteKnight => 'N',
        PieceEnum::WhiteBishop => 'B',
        PieceEnum::WhiteRook => 'R',
        PieceEnum::WhiteQueen => 'Q',
        PieceEnum::WhiteKing => 'K',
        PieceEnum::BlackPawn => 'p',
        PieceEnum::BlackKnight => 'n',
        PieceEnum::BlackBishop => 'b',
        PieceEnum::BlackRook => 'r',
        PieceEnum::BlackQueen => 'q',
        PieceEnum::BlackKing => 'k',
    }
}

impl PieceEnum {
    /// The one-character string slice rendering this piece class.
    pub fn to_letter_str(self) -> (r: &'static str)
        ensures
            r@ == seq![piece_letter(self)],
    {
        match self {
            PieceEnum::WhitePawn => {
                proof {
                    reveal_strlit("P");
                    assert("P"@ =~= seq!['P']);
                }
                "P"
            },
            PieceEnum::WhiteKnight => {
                proof {
                    reveal_strlit("N");
                    assert("N"@ =~= seq!['N']);
                }
                "N"
            },
            PieceEnum::WhiteBishop => {
                proof {
                    reveal_strlit("B");
                    assert("B"@ =~= seq!['B']);
                }
                "B"
            },
            PieceEnum::WhiteRook => {
                proof {
                    reveal_strlit("R");
                    assert("R"@ =~= seq!['R']);
                }
                "R"
            },
            PieceEnum::WhiteQueen => {
                proof {
                    reveal_strlit("Q");
                    assert("Q"@ =~= seq!['Q']);
                }
                "Q"
            },
            PieceEnum::WhiteKing => {
                proof {
                    reveal_strlit("K");
                    assert("K"@ =~= seq!['K']);
                }
                "K"
            },
            PieceEnum::BlackPawn => {
                proof {
                    reveal_strlit("p");
                    assert("p"@ =~= seq!['p']);
                }
                "p"
            },
            PieceEnum::BlackKnight => {
                proof {
                    reveal_strlit("n");
                    assert("n"@ =~= seq!['n']);
                }
                "n"
            },
            PieceEnum::BlackBishop => {
                proof {
                    reveal_strlit("b");
                    assert("b"@ =~= seq!['b']);
                }
                "b"
            },
            PieceEnum::BlackRook => {
                proof {
                    reveal_strlit("r");
                    assert("r"@ =~= seq!['r']);
                }
                "r"
            },
            PieceEnum::BlackQueen => {
                proof {
                    reveal_strlit("q");
                    assert("q"@ =~= seq!['q']);
                }
                "q"
            },
            PieceEnum::BlackKing => {
                proof {
                    reveal_strlit("k");
                    assert("k"@ =~= seq!['k']);
                }
                "k"
            },
        }
    }

    /// The one-letter rendering of this piece class, as an owned string.
    pub fn to_string(&self) -> (r: String)
        ensures
            r@ == seq![piece_letter(*self)],
    {
        self.to_letter_str().to_owned()
    }
}

/// Marker type standing for all pieces of both colours.
#[derive(Debug, Clone, Copy)]
pub struct Pieces;

/// Marker type standing for all white pieces.
#[derive(Debug, Clone, Copy)]
pub struct WhitePieces;

#[derive(Debug, Clone, Copy)]
pub struct WhitePawns;

#[derive(Debug, Clone, Copy)]
pub struct WhiteKnights;

#[derive(Debug, Clone, Copy)]
pub struct WhiteBishops;

#[derive(Debug, Clone, Copy)]
pub struct WhiteRooks;

#[derive(Debug, Clone, Copy)]
pub struct WhiteQueens;

#[derive(Debug, Clone, Copy)]
pub struct WhiteKings;

/// Marker type standing for all black pieces.
#[derive(Debug, Clone, Copy)]
pub struct BlackPieces;

#[derive(Debug, Clone, Copy)]
pub struct BlackPawns;

#[derive(Debug, Clone, Copy)]
pub struct BlackKnights;

#[derive(Debug, Clone, Copy)]
pub struct BlackBishops;

#[derive(Debug, Clone, Copy)]
pub struct BlackRooks;

#[derive(Debug, Clone, Copy)]
pub struct BlackQueens;

#[derive(Debug, Clone, Copy)]
pub struct BlackKings;

} // verus!
