//! The controller: it owns the board, turns the player's presses into moves,
//! applies the worker's news to the board, and says what to ask of the
//! worker next.
use vstd::prelude::*;

use crate::board::{
    model_after_commit, model_after_move, model_after_undo, model_of_list, move_precheck, piece_on,
    Board, PendingMove,
};
use crate::chess_piece::ChessPiece;
use crate::board_container::{BoardContainer, BoardMoveError};
use crate::coords::{Coords, CoordsError};
use crate::either::Either;
use crate::list_refresher::{BoardMessage, MessageToGame, MessageToWorker, MoveOutcome};
use crate::server_interface::{empty_squares, game_list_of, no_connection_list, no_connection_model, JSONMove, ListError};

verus! {

/// Why the controller could not apply a press or a message.
#[derive(Clone, PartialEq, Eq, Debug)]
pub enum GameError {
    /// The press was not on a square.
    NotASquare(CoordsError),
    /// The move could not be started.
    Move(BoardMoveError),
    /// A verdict arrived while no move awaited one.
    NoMovePending,
    /// The server reported a capture, but the end square was empty here.
    CaptureNotRecorded,
    /// The server's piece list describes no board.
    BadList(ListError),
}

/// The controller's state.
#[derive(Debug)]
pub struct GameController {
    /// The game being played.
    pub id: u32,
    /// The board.
    pub board: BoardContainer,
    /// The square of the selected piece, or `OffBoard` if none is selected.
    pub last_pressed: Coords,
    /// The start square of the last move made.
    pub ex_last_pressed: Coords,
}

/// The move from the selected square `(px, py)` to the pressed square `(x, y)`.
pub open spec fn move_from_press(id: u32, px: u8, py: u8, x: u32, y: u32) -> JSONMove {
    JSONMove { id, x: px as u32, y: py as u32, nx: x, ny: y }
}

impl GameController {
    /// The selection holds only squares of the board.
    pub open spec fn well_formed(&self) -> bool {
        self.last_pressed.is_valid()
    }

    /// A controller for game `id` with an empty board and nothing selected.
    pub fn new(id: u32) -> (r: GameController)
        ensures
            r.id == id,
            r.board is Left,
            r.board.model() == (empty_squares(), Seq::<ChessPiece>::empty(), None::<PendingMove>),
            r.last_pressed == Coords::OffBoard,
            r.ex_last_pressed == Coords::OffBoard,
            r.well_formed(),
    {
        GameController {
            id,
            board: Either::new_board(),
            last_pressed: Coords::OffBoard,
            ex_last_pressed: Coords::OffBoard,
        }
    }

    /// The player pressed square `(x, y)`.
    ///
    /// With nothing selected, a press on a piece selects it. With a piece
    /// selected, the press ends the move: the board makes it at once, and the
    /// returned command sends it to the server. A move the board refuses is
    /// not sent, and either way the selection is cleared.
    pub fn mouse_input(&mut self, x: u32, y: u32) -> (r: Result<Option<MessageToWorker>, GameError>)
        requires
            old(self).well_formed(),
        ensures
            final(self).well_formed(),
            final(self).id == old(self).id,
            match old(self).last_pressed {
                Coords::OffBoard => match Coords::spec_from_unsigned(x, y) {
                    Err(e) => r == Err::<Option<MessageToWorker>, GameError>(GameError::NotASquare(e))
                        && *final(self) == *old(self),
                    Ok(c) => r == Ok::<Option<MessageToWorker>, GameError>(None)
                        && final(self).board == old(self).board
                        && final(self).ex_last_pressed == old(self).ex_last_pressed
                        && final(self).last_pressed == (if piece_on(old(self).board.model().0, c) is Some {
                            c
                        } else {
                            Coords::OffBoard
                        }),
                },
                Coords::OnBoard(px, py) => {
                    let m = move_from_press(old(self).id, px, py, x, y);
                    &&& final(self).last_pressed == Coords::OffBoard
                    &&& final(self).ex_last_pressed == Coords::OnBoard(px, py)
                    &&& match old(self).board {
                        Either::Right(_) => r == Err::<Option<MessageToWorker>, GameError>(
                            GameError::Move(BoardMoveError::MovePending),
                        ) && final(self).board == old(self).board,
                        Either::Left(b) => match move_precheck(b@.0, m) {
                            Ok(_) => r == Ok::<Option<MessageToWorker>, GameError>(Some(MessageToWorker::MakeMove(m)))
                                && final(self).board is Right
                                && final(self).board.model() == model_after_move(b@, m),
                            Err(e) => r == Err::<Option<MessageToWorker>, GameError>(
                                GameError::Move(BoardMoveError::Precheck(e)),
                            ) && final(self).board is Left && final(self).board.model() == b@,
                        },
                    }
                },
            },
    {
        match self.last_pressed {
            Coords::OffBoard => {
                let coord = match Coords::try_from_unsigned(x, y) {
                    Ok(c) => c,
                    Err(e) => {
                        return Err(GameError::NotASquare(e));
                    },
                };
                if self.board.piece_exists_at_location(coord) {
                    self.last_pressed = coord;
                }
                Ok(None)
            },
            Coords::OnBoard(px, py) => {
                self.last_pressed = Coords::OffBoard;
                self.ex_last_pressed = Coords::OnBoard(px, py);
                let m = JSONMove::new(self.id, px as u32, py as u32, x, y);
                match self.board.apply_optimistic_move(m) {
                    Ok(()) => Ok(Some(MessageToWorker::MakeMove(m))),
                    Err(e) => Err(GameError::Move(e)),
                }
            },
        }
    }

    /// Applies one message from the worker to the board.
    ///
    /// A verdict on the pending move commits it (`Worked`) or undoes it; a
    /// new list or the placeholder replaces the board, dropping any pending
    /// move; `UseExisting` and `Stopped` change nothing. A capture reported
    /// for an empty end square commits the move without one and is reported.
    pub fn handle_message(&mut self, msg: MessageToGame) -> (r: Result<(), GameError>)
        requires
            old(self).well_formed(),
        ensures
            final(self).well_formed(),
            final(self).id == old(self).id,
            final(self).last_pressed == old(self).last_pressed,
            final(self).ex_last_pressed == old(self).ex_last_pressed,
            match msg {
                MessageToGame::Stopped => r is Ok && final(self).board == old(self).board,
                MessageToGame::UpdateBoard(BoardMessage::UseExisting) => r is Ok && final(self).board
                    == old(self).board,
                MessageToGame::UpdateBoard(BoardMessage::NoConnectionList) => r is Ok && final(self).board is Left
                    && final(self).board.model() == no_connection_model(),
                MessageToGame::UpdateBoard(BoardMessage::NewList(l)) => match game_list_of(l.0@) {
                    Ok(gl) => r is Ok && final(self).board is Left && final(self).board.model() == model_of_list(gl),
                    Err(f) => r matches Err(GameError::BadList(e)) && e.fault() == f && final(self).board
                        == old(self).board,
                },
                MessageToGame::UpdateBoard(BoardMessage::TmpMove(m)) => match old(self).board {
                    Either::Right(_) => r == Err::<(), GameError>(GameError::Move(BoardMoveError::MovePending))
                        && final(self).board == old(self).board,
                    Either::Left(b) => match move_precheck(b@.0, m) {
                        Ok(_) => r is Ok && final(self).board is Right && final(self).board.model()
                            == model_after_move(b@, m),
                        Err(e) => r == Err::<(), GameError>(GameError::Move(BoardMoveError::Precheck(e)))
                            && final(self).board is Left && final(self).board.model() == b@,
                    },
                },
                MessageToGame::UpdateBoard(BoardMessage::Move(outcome)) => match old(self).board {
                    Either::Left(_) => r == Err::<(), GameError>(GameError::NoMovePending) && final(self).board
                        == old(self).board,
                    Either::Right(b) => final(self).board is Left && match outcome {
                        MoveOutcome::Worked(taken) => {
                            let recorded = b@.2.unwrap().taken is Some;
                            &&& final(self).board.model() == model_after_commit(b@, taken && recorded)
                            &&& r == (if taken && !recorded {
                                Err::<(), GameError>(GameError::CaptureNotRecorded)
                            } else {
                                Ok::<(), GameError>(())
                            })
                        },
                        _ => r is Ok && final(self).board.model() == model_after_undo(b@),
                    },
                },
            },
    {
        match msg {
            MessageToGame::Stopped => Ok(()),
            MessageToGame::UpdateBoard(bm) => match bm {
                BoardMessage::UseExisting => Ok(()),
                BoardMessage::NoConnectionList => {
                    self.board = Either::Left(no_connection_list());
                    Ok(())
                },
                BoardMessage::NewList(l) => match Board::new_json(l) {
                    Ok(b) => {
                        self.board = Either::Left(b);
                        Ok(())
                    },
                    Err(e) => Err(GameError::BadList(e)),
                },
                BoardMessage::TmpMove(m) => match self.board.apply_optimistic_move(m) {
                    Ok(()) => Ok(()),
                    Err(e) => Err(GameError::Move(e)),
                },
                BoardMessage::Move(outcome) => {
                    let mut cur = Either::Left(Board::new());
                    std::mem::swap(&mut self.board, &mut cur);
                    match cur {
                        Either::Left(b) => {
                            self.board = Either::Left(b);
                            Err(GameError::NoMovePending)
                        },
                        Either::Right(b) => match outcome {
                            MoveOutcome::Worked(taken) => {
                                let recorded = b.pending_capture().is_some();
                                self.board = Either::Left(b.move_worked(taken && recorded));
                                if taken && !recorded {
                                    Err(GameError::CaptureNotRecorded)
                                } else {
                                    Ok(())
                                }
                            },
                            MoveOutcome::Invalid | MoveOutcome::CouldntProcessMove => {
                                self.board = Either::Left(b.undo_move());
                                Ok(())
                            },
                        },
                    }
                },
            },
        }
    }

    /// The refresh to ask for at the end of a tick: forced if the player
    /// interacted during the tick.
    pub fn refresh_command(interacted: bool) -> (r: MessageToWorker)
        ensures
            r == (if interacted {
                MessageToWorker::UpdateNOW
            } else {
                MessageToWorker::UpdateList
            }),
    {
        if interacted {
            MessageToWorker::UpdateNOW
        } else {
            MessageToWorker::UpdateList
        }
    }

    /// The command that asks the server for a new game.
    pub fn restart_board(&self) -> (r: MessageToWorker)
        ensures
            r == MessageToWorker::RestartBoard,
    {
        MessageToWorker::RestartBoard
    }

    /// The command that ends the session: the worker releases the game and stops.
    pub fn exit(self) -> (r: MessageToWorker)
        ensures
            r == MessageToWorker::InvalidateKill,
    {
        MessageToWorker::InvalidateKill
    }

    /// Clears the selection, so that another piece can be selected.
    pub fn clear_mouse_input(&mut self)
        ensures
            final(self).id == old(self).id,
            final(self).board == old(self).board,
            final(self).last_pressed == Coords::OffBoard,
            final(self).ex_last_pressed == Coords::OffBoard,
            final(self).well_formed(),
    {
        self.last_pressed = Coords::OffBoard;
        self.ex_last_pressed = Coords::OffBoard;
    }
}

} // verus!
