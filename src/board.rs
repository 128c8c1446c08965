//! The local board: a state machine that allows at most one move awaiting the
//! server's confirmation, and knows how to roll that move forward or back.
//!
//! The state is part of the type: `Board<CanMovePiece>` can start a move and
//! `Board<NeedsMoveUpdate>` must be told how the pending move ended, so a
//! second move cannot be started while one is outstanding.
use vstd::prelude::*;

use crate::chess_piece::{ChessPiece, ChessPieceKind};
use crate::coords::{square_index, Coords};
use crate::crate_private::Sealed;
use crate::server_interface::{empty_squares, game_list_of, GameList, JSONMove, JSONPieceList, ListError, ListFault};

verus! {

/// The two states of a board.
pub trait BoardMoveState: Sealed {
    /// Whether a board in this state has a move awaiting confirmation.
    spec fn awaiting() -> bool;
}

/// State of a board that can start a new move.
#[derive(Copy, Clone, PartialEq, Eq, Debug)]
pub struct CanMovePiece;

/// State of a board whose last move awaits the server's verdict.
#[derive(Copy, Clone, PartialEq, Eq, Debug)]
pub struct NeedsMoveUpdate;

impl Sealed for CanMovePiece {}

impl Sealed for NeedsMoveUpdate {}

impl BoardMoveState for CanMovePiece {
    open spec fn awaiting() -> bool {
        false
    }
}

impl BoardMoveState for NeedsMoveUpdate {
    open spec fn awaiting() -> bool {
        true
    }
}

/// What a board remembers of a move until the server has judged it.
#[derive(Copy, Clone, PartialEq, Eq, Debug, Structural)]
pub struct PendingMove {
    /// The move made.
    pub mv: JSONMove,
    /// What stood on the end square before the move.
    pub taken: Option<ChessPiece>,
    /// The kind of the moved piece before any promotion.
    pub original_kind: ChessPieceKind,
}

/// Why a move cannot be started: the caller was to check this first.
#[derive(Copy, Clone, PartialEq, Eq, Debug, Structural)]
pub enum PrecheckFailed {
    /// A square of the move lies off the board.
    OutOfRange,
    /// No piece stands on the start square.
    NoPieceAtStart,
}

/// A board seen as its squares (indexed `y * 8 + x`), its taken pieces in the
/// order they were taken, and the move awaiting confirmation, if any.
pub type BoardModel = (Seq<Option<ChessPiece>>, Seq<ChessPiece>, Option<PendingMove>);

/// The piece on a square; `None` for an empty square or for coordinates that
/// name no square.
pub open spec fn piece_on(sq: Seq<Option<ChessPiece>>, c: Coords) -> Option<ChessPiece> {
    match c {
        Coords::OnBoard(x, y) => if x < 8 && y < 8 {
            sq[square_index(x as int, y as int)]
        } else {
            None
        },
        Coords::OffBoard => None,
    }
}

/// Whether a piece moved to row `ny` reaches its last rank.
pub open spec fn promotes(p: ChessPiece, ny: u32) -> bool {
    (p.is_white && ny == 0) || (!p.is_white && ny == 7)
}

/// The piece as it stands after moving to row `ny`: a queen on its last rank.
pub open spec fn promoted(p: ChessPiece, ny: u32) -> ChessPiece {
    if promotes(p, ny) {
        ChessPiece { is_white: p.is_white, kind: ChessPieceKind::Queen }
    } else {
        p
    }
}

/// The check that a move passes before it is made.
pub open spec fn move_precheck(sq: Seq<Option<ChessPiece>>, m: JSONMove) -> Result<(), PrecheckFailed> {
    if !m.in_range() {
        Err(PrecheckFailed::OutOfRange)
    } else if sq[m.from_index()] is None {
        Err(PrecheckFailed::NoPieceAtStart)
    } else {
        Ok(())
    }
}

/// The squares after a move: the start is empty and the end holds the moved
/// piece, promoted if it reached its last rank.
pub open spec fn squares_after_move(sq: Seq<Option<ChessPiece>>, m: JSONMove) -> Seq<Option<ChessPiece>> {
    sq.update(m.from_index(), None).update(m.to_index(), Some(promoted(sq[m.from_index()].unwrap(), m.ny)))
}

/// What a board records of a move so that it can be undone.
pub open spec fn pending_for_move(sq: Seq<Option<ChessPiece>>, m: JSONMove) -> PendingMove {
    PendingMove { mv: m, taken: sq[m.to_index()], original_kind: sq[m.from_index()].unwrap().kind }
}

/// The same square content with the piece, if any, of kind `k`.
pub open spec fn with_kind(o: Option<ChessPiece>, k: ChessPieceKind) -> Option<ChessPiece> {
    match o {
        Some(p) => Some(ChessPiece { is_white: p.is_white, kind: k }),
        None => None,
    }
}

/// The squares after a pending move is undone: the end square gets back what
/// stood there, and the piece returns to the start with its original kind.
pub open spec fn squares_after_undo(sq: Seq<Option<ChessPiece>>, pm: PendingMove) -> Seq<Option<ChessPiece>> {
    sq.update(pm.mv.to_index(), pm.taken).update(pm.mv.from_index(), with_kind(sq[pm.mv.to_index()], pm.original_kind))
}

/// A board after a move is made on it.
pub open spec fn model_after_move(b: BoardModel, m: JSONMove) -> BoardModel {
    (squares_after_move(b.0, m), b.1, Some(pending_for_move(b.0, m)))
}

/// A board after its pending move is undone.
pub open spec fn model_after_undo(b: BoardModel) -> BoardModel {
    (squares_after_undo(b.0, b.2.unwrap()), b.1, None)
}

/// A board after the server accepted its pending move; `taken` says whether
/// the move took a piece, which then joins the taken pieces.
pub open spec fn model_after_commit(b: BoardModel, taken: bool) -> BoardModel {
    (b.0, if taken { b.1.push(b.2.unwrap().taken.unwrap()) } else { b.1 }, None)
}

/// The board that the server's list describes, if it describes one.
pub open spec fn model_of_list(l: GameList) -> BoardModel {
    (l.0, l.1, None)
}

/// A chess board: 64 squares, the pieces taken so far, and the move awaiting
/// confirmation while in state `NeedsMoveUpdate`.
#[derive(PartialEq, Eq, Debug)]
pub struct Board<S: BoardMoveState> {
    /// Squares indexed `y * 8 + x`.
    pieces: [Option<ChessPiece>; 64],
    /// Pieces taken, in order.
    taken: Vec<ChessPiece>,
    /// The move awaiting confirmation.
    previous: Option<PendingMove>,
    /// The state marker.
    state: S,
}

impl<S: BoardMoveState> View for Board<S> {
    type V = BoardModel;

    closed spec fn view(&self) -> BoardModel {
        (self.pieces@, self.taken@, self.previous)
    }
}

impl<S: BoardMoveState> Board<S> {
    /// A move is pending exactly in state `NeedsMoveUpdate`, and its squares
    /// lie on the board.
    #[verifier::type_invariant]
    closed spec fn well_formed(&self) -> bool {
        &&& (self.previous is Some <==> S::awaiting())
        &&& (self.previous matches Some(pm) ==> pm.mv.in_range())
    }

    /// Every board has 64 squares.
    pub proof fn lemma_squares_len(&self)
        ensures
            self@.0.len() == 64,
    {
    }

    /// The piece on a square, in either state; `None` for an empty square
    /// and for coordinates that name no square.
    pub fn piece_at(&self, c: Coords) -> (r: Option<ChessPiece>)
        ensures
            r == piece_on(self@.0, c),
    {
        match c {
            Coords::OnBoard(x, y) => if x < 8 && y < 8 {
                self.pieces[(y as usize) * 8 + (x as usize)]
            } else {
                None
            },
            Coords::OffBoard => None,
        }
    }

    /// Whether a piece stands on the given square.
    pub fn piece_exists_at_location(&self, coords: Coords) -> (r: bool)
        ensures
            r == piece_on(self@.0, coords) is Some,
    {
        self.piece_at(coords).is_some()
    }

    /// A copy of the pieces taken so far, in the order they were taken.
    pub fn get_taken(&self) -> (r: Vec<ChessPiece>)
        ensures
            r@ == self@.1,
    {
        let mut v: Vec<ChessPiece> = Vec::with_capacity(self.taken.len());
        let mut i: usize = 0;
        while i < self.taken.len()
            invariant
                i <= self.taken@.len(),
                v@ == self.taken@.take(i as int),
            decreases self.taken@.len() - i,
        {
            v.push(self.taken[i]);
            i += 1;
            assert(v@ =~= self.taken@.take(i as int));
        }
        assert(self.taken@.take(i as int) =~= self.taken@);
        v
    }
}

impl Board<CanMovePiece> {
    /// An empty board with nothing taken.
    pub fn new() -> (r: Board<CanMovePiece>)
        ensures
            r@ == (empty_squares(), Seq::<ChessPiece>::empty(), None::<PendingMove>),
    {
        let b = Board {
            pieces: [None; 64],
            taken: Vec::with_capacity(32),
            previous: None,
            state: CanMovePiece,
        };
        assert(b.pieces@ =~= empty_squares());
        b
    }

    /// A board with the given squares and taken pieces, and no pending move.
    pub(crate) fn from_parts(pieces: [Option<ChessPiece>; 64], taken: Vec<ChessPiece>) -> (r: Board<CanMovePiece>)
        ensures
            r@ == (pieces@, taken@, None::<PendingMove>),
    {
        Board { pieces, taken, previous: None, state: CanMovePiece }
    }

    /// The board that the server's piece list describes.
    ///
    /// Fails if a piece's kind is unknown, its coordinates name no square, or
    /// two pieces share a square.
    pub fn new_json(board: JSONPieceList) -> (r: Result<Board<CanMovePiece>, ListError>)
        ensures
            match r {
                Ok(b) => game_list_of(board.0@) matches Ok(l) && b@ == model_of_list(l),
                Err(e) => game_list_of(board.0@) == Err::<GameList, ListFault>(e.fault()),
            },
    {
        let (pieces, taken) = board.into_game_list()?;
        Ok(Board::from_parts(pieces, taken))
    }

    /// Makes a move optimistically, before the server has judged it.
    ///
    /// Records what stood on the end square and the moved piece's kind, moves
    /// the piece, and makes it a queen if it reached its last rank (row 0 for
    /// white, row 7 for black). Fails, handing the board back unchanged, if a
    /// square lies off the board or no piece stands on the start square.
    pub fn make_move(self, m: JSONMove) -> (r: Result<Board<NeedsMoveUpdate>, (Board<CanMovePiece>, PrecheckFailed)>)
        ensures
            match r {
                Ok(b) => move_precheck(self@.0, m) is Ok && b@ == model_after_move(self@, m),
                Err((b, e)) => move_precheck(self@.0, m) == Err::<(), PrecheckFailed>(e) && b@ == self@,
            },
    {
        if m.x > 7 || m.y > 7 || m.nx > 7 || m.ny > 7 {
            return Err((self, PrecheckFailed::OutOfRange));
        }
        let from = (m.y as usize) * 8 + (m.x as usize);
        let to = (m.ny as usize) * 8 + (m.nx as usize);
        let moving = match self.pieces[from] {
            Some(p) => p,
            None => {
                return Err((self, PrecheckFailed::NoPieceAtStart));
            },
        };
        let Board { mut pieces, taken, previous: _, state: _ } = self;
        let pending = PendingMove { mv: m, taken: pieces[to], original_kind: moving.kind };
        let landed = if (moving.is_white && m.ny == 0) || (!moving.is_white && m.ny == 7) {
            ChessPiece { is_white: moving.is_white, kind: ChessPieceKind::Queen }
        } else {
            moving
        };
        pieces[from] = None;
        pieces[to] = Some(landed);
        Ok(Board { pieces, taken, previous: Some(pending), state: NeedsMoveUpdate })
    }
}

impl Board<NeedsMoveUpdate> {
    /// What the pending move would take: the piece that stood on its end square.
    pub fn pending_capture(&self) -> (r: Option<ChessPiece>)
        ensures
            self@.2 is Some,
            r == self@.2.unwrap().taken,
    {
        proof {
            use_type_invariant(self);
        }
        match self.previous {
            Some(pm) => pm.taken,
            None => None,
        }
    }

    /// Undoes the pending move: the end square gets back what stood there and
    /// the piece returns to its start square with its original kind.
    pub fn undo_move(self) -> (r: Board<CanMovePiece>)
        ensures
            self@.2 is Some,
            r@ == model_after_undo(self@),
    {
        proof {
            use_type_invariant(&self);
        }
        let Board { mut pieces, taken, previous, state: _ } = self;
        match previous {
            Some(pm) => {
                let from = (pm.mv.y as usize) * 8 + (pm.mv.x as usize);
                let to = (pm.mv.ny as usize) * 8 + (pm.mv.nx as usize);
                let moved = pieces[to];
                let back = match moved {
                    Some(p) => Some(ChessPiece { is_white: p.is_white, kind: pm.original_kind }),
                    None => None,
                };
                pieces[to] = pm.taken;
                pieces[from] = back;
            },
            None => {},
        }
        Board { pieces, taken, previous: None, state: CanMovePiece }
    }

    /// The server accepted the pending move; `taken` says whether it took a
    /// piece, which then joins the taken pieces. The board must have recorded
    /// a piece on the end square when `taken` is true.
    pub fn move_worked(self, taken: bool) -> (r: Board<CanMovePiece>)
        requires
            taken ==> (self@.2 matches Some(pm) && pm.taken is Some),
        ensures
            self@.2 is Some,
            r@ == model_after_commit(self@, taken),
    {
        proof {
            use_type_invariant(&self);
        }
        let Board { pieces, taken: mut list, previous, state: _ } = self;
        if taken {
            match previous {
                Some(pm) => match pm.taken {
                    Some(p) => list.push(p),
                    None => {},
                },
                None => {},
            }
        }
        Board { pieces, taken: list, previous: None, state: CanMovePiece }
    }
}

impl<S: BoardMoveState + Copy> Clone for Board<S> {
    fn clone(&self) -> (r: Board<S>)
        ensures
            r@ == self@,
    {
        proof {
            use_type_invariant(self);
        }
        Board { pieces: self.pieces, taken: self.get_taken(), previous: self.previous, state: self.state }
    }
}

impl Default for Board<CanMovePiece> {
    fn default() -> (r: Board<CanMovePiece>)
        ensures
            r@ == (empty_squares(), Seq::<ChessPiece>::empty(), None::<PendingMove>),
    {
        Board::new()
    }
}

/// Making a move and then undoing it leaves the squares and the taken pieces
/// exactly as they were.
pub proof fn lemma_undo_restores(b: Board<CanMovePiece>, m: JSONMove)
    requires
        move_precheck(b@.0, m) is Ok,
    ensures
        model_after_undo(model_after_move(b@, m)).0 == b@.0,
        model_after_undo(model_after_move(b@, m)).1 == b@.1,
{
    b.lemma_squares_len();
    assert(model_after_undo(model_after_move(b@, m)).0 =~= b@.0);
}

/// Making a move that takes a piece and then committing it as a capture
/// leaves the moved piece on the end square, empties the start square, and
/// adds exactly the taken piece to the taken pieces.
pub proof fn lemma_commit_capture(b: Board<CanMovePiece>, m: JSONMove)
    requires
        move_precheck(b@.0, m) is Ok,
        m.from_index() != m.to_index(),
        b@.0[m.to_index()] is Some,
    ensures
        model_after_move(b@, m).2 matches Some(pm) && pm.taken is Some,
        model_after_commit(model_after_move(b@, m), true).0[m.to_index()] == Some(
            promoted(b@.0[m.from_index()].unwrap(), m.ny),
        ),
        model_after_commit(model_after_move(b@, m), true).0[m.from_index()] is None,
        model_after_commit(model_after_move(b@, m), true).1 == b@.1.push(b@.0[m.to_index()].unwrap()),
        model_after_commit(model_after_move(b@, m), true).1.len() == b@.1.len() + 1,
{
    b.lemma_squares_len();
}

/// A pawn that reaches its last rank stands there as a queen, and undoing
/// the move puts a pawn back on the start square.
pub proof fn lemma_promotion_preview(b: Board<CanMovePiece>, m: JSONMove, is_white: bool)
    requires
        move_precheck(b@.0, m) is Ok,
        b@.0[m.from_index()] == Some(ChessPiece { is_white, kind: ChessPieceKind::Pawn }),
        m.ny == (if is_white { 0u32 } else { 7u32 }),
    ensures
        piece_on(model_after_move(b@, m).0, Coords::OnBoard(m.nx as u8, m.ny as u8)) == Some(
            ChessPiece { is_white, kind: ChessPieceKind::Queen },
        ),
        piece_on(model_after_undo(model_after_move(b@, m)).0, Coords::OnBoard(m.x as u8, m.y as u8))
            == Some(ChessPiece { is_white, kind: ChessPieceKind::Pawn }),
{
    b.lemma_squares_len();
}

} // verus!
