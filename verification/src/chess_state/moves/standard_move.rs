use vstd::prelude::*;

use crate::chess_state::chess_pieces::PieceEnum;
use crate::chess_state::chess_pieces::piece_letter;
use crate::chess_state::coordinate_point::CoordinatePosition;
use crate::chess_state::moves::shared::CheckType;
use vstd::string::StringExecFns;

verus! {

/// An ordinary piece move: where it starts, where it lands, and everything a
/// caller needs to apply, undo or render it.
#[derive(Debug, PartialEq, Eq, Clone, Copy)]
pub struct StandardMove {
    pub start_position: CoordinatePosition,
    pub end_position: CoordinatePosition,
    pub piece: PieceEnum,
    pub en_passant_target: Option<CoordinatePosition>,
    pub promotion: Option<PieceEnum>,
    pub takes: Option<(CoordinatePosition, PieceEnum)>,
    pub check: CheckType,
}

/// The UCI rendering of a move: origin, `x` for a capture, destination, `=P`
/// for a promotion, and a trailing `+` or `#` for check or checkmate.
pub open spec fn uci_chars(m: StandardMove) -> Seq<char> {
    m.start_position.as_chars() + (if m.takes is Some {
        seq!['x']
    } else {
        Seq::<char>::empty()
    }) + m.end_position.as_chars() + (match m.promotion {
        Some(p) => seq!['=', piece_letter(p)],
        None => Seq::<char>::empty(),
    }) + (match m.check {
        CheckType::NoCheck => Seq::<char>::empty(),
        CheckType::Check => seq!['+'],
        CheckType::Checkmate => seq!['#'],
    })
}

impl StandardMove {
    /// Builds a move record from its parts.
    pub fn new(
        start_position: CoordinatePosition,
        end_position: CoordinatePosition,
        piece: PieceEnum,
        en_passant_target: Option<CoordinatePosition>,
        promotion: Option<PieceEnum>,
        takes: Option<(CoordinatePosition, PieceEnum)>,
        check: CheckType,
    ) -> (r: Self)
        ensures
            r == (StandardMove {
                start_position,
                end_position,
                piece,
                en_passant_target,
                promotion,
                takes,
                check,
            }),
    {
        Self { start_position, end_position, promotion, takes, piece, en_passant_target, check }
    }

    /// Renders this move in the UCI-like form `<from>[x]<to>[=P][+|#]`.
    pub fn get_uci_move(&self) -> (r: String)
        ensures
            r@ == uci_chars(*self),
    {
        let mut out = self.start_position.to_string();
        if self.takes.is_some() {
            proof {
                reveal_strlit("x");
                assert("x"@ =~= seq!['x']);
            }
            out.append("x");
        }
        let end = self.end_position.to_string();
        out.append(end.as_str());
        match self.promotion {
            Some(piece) => {
                proof {
                    reveal_strlit("=");
                    assert("="@ =~= seq!['=']);
                }
                out.append("=");
                out.append(piece.to_letter_str());
            },
            None => {},
        }
        match self.check {
            CheckType::NoCheck => {},
            CheckType::Check => {
                proof {
                    reveal_strlit("+");
                    assert("+"@ =~= seq!['+']);
                }
                out.append("+");
            },
            CheckType::Checkmate => {
                proof {
                    reveal_strlit("#");
                    assert("#"@ =~= seq!['#']);
                }
                out.append("#");
            },
        }
        proof {
            assert(out@ =~= uci_chars(*self));
        }
        out
    }
}

} // verus!
