//! A board in either state, for a holder that must keep one board through
//! both states.
use vstd::prelude::*;

use crate::board::{model_after_move, move_precheck, piece_on, Board, BoardModel, CanMovePiece, PrecheckFailed, NeedsMoveUpdate, PendingMove};
use crate::chess_piece::ChessPiece;
use crate::coords::Coords;
use crate::either::Either;
use crate::server_interface::{empty_squares, JSONMove};

verus! {

/// A board that can start a move (`Left`) or awaits a verdict (`Right`).
pub type BoardContainer = Either<Board<CanMovePiece>, Board<NeedsMoveUpdate>>;

/// Why a held board did not start a move.
#[derive(Copy, Clone, PartialEq, Eq, Debug, Structural)]
pub enum BoardMoveError {
    /// A move already awaits the server's verdict.
    MovePending,
    /// The move failed the board's precheck.
    Precheck(PrecheckFailed),
}

impl Either<Board<CanMovePiece>, Board<NeedsMoveUpdate>> {
    /// The held board, whichever its state.
    pub open spec fn model(&self) -> BoardModel {
        match self {
            Either::Left(b) => b@,
            Either::Right(b) => b@,
        }
    }

    /// An empty board that can start a move.
    pub fn new_board() -> (r: Self)
        ensures
            r is Left,
            r.model() == (empty_squares(), Seq::<ChessPiece>::empty(), None::<PendingMove>),
    {
        Either::Left(Board::new())
    }

    /// Whether a move awaits the server's verdict.
    pub fn is_awaiting_confirmation(&self) -> (r: bool)
        ensures
            r == self is Right,
    {
        match self {
            Either::Left(_) => false,
            Either::Right(_) => true,
        }
    }

    /// The piece on a square.
    pub fn piece_at(&self, c: Coords) -> (r: Option<ChessPiece>)
        ensures
            r == piece_on(self.model().0, c),
    {
        match self {
            Either::Left(b) => b.piece_at(c),
            Either::Right(b) => b.piece_at(c),
        }
    }

    /// Whether a piece stands on the given square.
    pub fn piece_exists_at_location(&self, coords: Coords) -> (r: bool)
        ensures
            r == piece_on(self.model().0, coords) is Some,
    {
        match self {
            Either::Left(b) => b.piece_exists_at_location(coords),
            Either::Right(b) => b.piece_exists_at_location(coords),
        }
    }

    /// A copy of the pieces taken so far.
    pub fn get_taken(&self) -> (r: Vec<ChessPiece>)
        ensures
            r@ == self.model().1,
    {
        match self {
            Either::Left(b) => b.get_taken(),
            Either::Right(b) => b.get_taken(),
        }
    }

    /// Starts a move optimistically. Refused while another move awaits its
    /// verdict, and when the move fails the board's precheck; a refused move
    /// leaves the board as it was.
    pub fn apply_optimistic_move(&mut self, m: JSONMove) -> (r: Result<(), BoardMoveError>)
        ensures
            match *old(self) {
                Either::Right(_) => r == Err::<(), BoardMoveError>(BoardMoveError::MovePending)
                    && *final(self) == *old(self),
                Either::Left(b) => match move_precheck(b@.0, m) {
                    Ok(_) => r is Ok && *final(self) is Right && final(self).model() == model_after_move(b@, m),
                    Err(e) => r == Err::<(), BoardMoveError>(BoardMoveError::Precheck(e))
                        && *final(self) is Left && final(self).model() == b@,
                },
            },
    {
        let mut cur = Either::Left(Board::new());
        std::mem::swap(self, &mut cur);
        match cur {
            Either::Left(b) => match b.make_move(m) {
                Ok(nb) => {
                    *self = Either::Right(nb);
                    Ok(())
                },
                Err((ob, e)) => {
                    *self = Either::Left(ob);
                    Err(BoardMoveError::Precheck(e))
                },
            },
            Either::Right(b) => {
                *self = Either::Right(b);
                Err(BoardMoveError::MovePending)
            },
        }
    }
}

impl Default for Either<Board<CanMovePiece>, Board<NeedsMoveUpdate>> {
    fn default() -> (r: Self)
        ensures
            r is Left,
            r.model() == (empty_squares(), Seq::<ChessPiece>::empty(), None::<PendingMove>),
    {
        Either::Left(Board::new())
    }
}

} // verus!
