//! The values that travel between this client and the game server: moves,
//! and the list of pieces that describes a whole board.
use vstd::prelude::*;

use crate::chess_piece::{
    kind_from_server_name, ChessPiece, ChessPieceKind, ChessPieceKindParseError,
};
use crate::board::{Board, BoardModel, CanMovePiece, PendingMove};
use crate::chess_piece::variant_order;
use crate::coords::{square_index, Coords, CoordsError};

verus! {

/// A move as the server receives it: the game, the start square and the end square.
#[derive(Copy, Clone, PartialEq, Eq, Hash, Debug, Structural)]
pub struct JSONMove {
    /// Game id.
    pub id: u32,
    /// Start column.
    pub x: u32,
    /// Start row.
    pub y: u32,
    /// End column.
    pub nx: u32,
    /// End row.
    pub ny: u32,
}

impl JSONMove {
    /// Both squares of the move lie on the board.
    pub open spec fn in_range(self) -> bool {
        self.x < 8 && self.y < 8 && self.nx < 8 && self.ny < 8
    }

    /// The board index of the start square.
    pub open spec fn from_index(self) -> int {
        square_index(self.x as int, self.y as int)
    }

    /// The board index of the end square.
    pub open spec fn to_index(self) -> int {
        square_index(self.nx as int, self.ny as int)
    }

    /// Creates a move.
    pub fn new(id: u32, x: u32, y: u32, nx: u32, ny: u32) -> (r: JSONMove)
        ensures
            r == (JSONMove { id, x, y, nx, ny }),
    {
        JSONMove { id, x, y, nx, ny }
    }

    /// The start square.
    pub fn current_coords(&self) -> (r: Coords)
        requires
            self.x < 8,
            self.y < 8,
        ensures
            r == Coords::OnBoard(self.x as u8, self.y as u8),
    {
        Coords::OnBoard(self.x as u8, self.y as u8)
    }

    /// The end square.
    pub fn new_coords(&self) -> (r: Coords)
        requires
            self.nx < 8,
            self.ny < 8,
        ensures
            r == Coords::OnBoard(self.nx as u8, self.ny as u8),
    {
        Coords::OnBoard(self.nx as u8, self.ny as u8)
    }
}

/// One piece of a board as the server describes it.
#[derive(Clone, PartialEq, Eq, Debug)]
pub struct JSONPiece {
    /// Column; `-1` together with `y == -1` for a piece off the board.
    pub x: i32,
    /// Row; `-1` together with `x == -1` for a piece off the board.
    pub y: i32,
    /// Name of the kind, such as `"rook"`.
    pub kind: String,
    /// Whether the piece is white.
    pub is_white: bool,
}

/// A whole board as the server describes it.
#[derive(Clone, PartialEq, Eq, Debug)]
pub struct JSONPieceList(pub Vec<JSONPiece>);

/// Why a piece list does not describe a board.
#[derive(Clone, PartialEq, Eq, Debug)]
pub enum ListError {
    /// A piece's kind names no kind.
    UnknownKind(ChessPieceKindParseError),
    /// A piece's coordinates name no square.
    BadCoords(CoordsError),
    /// Two pieces stand on the square `(x, y)`.
    Collision(i32, i32),
}

/// What is wrong with a piece list, without the offending name.
#[derive(Copy, Clone, PartialEq, Eq, Debug, Structural)]
pub enum ListFault {
    /// A piece's kind names no kind.
    UnknownKind,
    /// A piece's coordinates name no square.
    BadCoords(CoordsError),
    /// Two pieces stand on the square `(x, y)`.
    Collision(i32, i32),
}

impl ListError {
    /// The fault that this error reports.
    pub open spec fn fault(self) -> ListFault {
        match self {
            ListError::UnknownKind(_) => ListFault::UnknownKind,
            ListError::BadCoords(e) => ListFault::BadCoords(e),
            ListError::Collision(x, y) => ListFault::Collision(x, y),
        }
    }
}

/// Squares and taken pieces, as a board is built from a list.
pub type GameList = (Seq<Option<ChessPiece>>, Seq<ChessPiece>);

/// A board with no piece on it.
pub open spec fn empty_squares() -> Seq<Option<ChessPiece>> {
    Seq::new(64, |i: int| None)
}

/// Adds one listed piece: off the board it joins the taken pieces, on the
/// board it takes its square, which must be free.
pub open spec fn place_piece(acc: GameList, p: JSONPiece) -> Result<GameList, ListFault> {
    match kind_from_server_name(p.kind@) {
        None => Err(ListFault::UnknownKind),
        Some(k) => {
            let piece = ChessPiece { is_white: p.is_white, kind: k };
            match Coords::spec_from_signed(p.x, p.y) {
                Err(e) => Err(ListFault::BadCoords(e)),
                Ok(Coords::OffBoard) => Ok((acc.0, acc.1.push(piece))),
                Ok(Coords::OnBoard(x, y)) => {
                    let i = square_index(x as int, y as int);
                    if acc.0[i] is Some {
                        Err(ListFault::Collision(p.x, p.y))
                    } else {
                        Ok((acc.0.update(i, Some(piece)), acc.1))
                    }
                },
            }
        },
    }
}

/// The board that a list describes, pieces taken in order; the first piece
/// that cannot be placed decides the fault.
pub open spec fn game_list_of(ps: Seq<JSONPiece>) -> Result<GameList, ListFault>
    decreases ps.len(),
{
    if ps.len() == 0 {
        Ok((empty_squares(), Seq::empty()))
    } else {
        match game_list_of(ps.drop_last()) {
            Err(f) => Err(f),
            Ok(acc) => place_piece(acc, ps.last()),
        }
    }
}

/// Once a prefix of the list fails, the whole list fails the same way.
proof fn lemma_fault_persists(ps: Seq<JSONPiece>, i: int, f: ListFault)
    requires
        0 < i <= ps.len(),
        game_list_of(ps.take(i)) == Err::<GameList, ListFault>(f),
    ensures
        game_list_of(ps) == Err::<GameList, ListFault>(f),
    decreases ps.len() - i,
{
    if i == ps.len() {
        assert(ps.take(i) =~= ps);
    } else {
        assert(ps.take(i + 1).drop_last() =~= ps.take(i));
        lemma_fault_persists(ps, i + 1, f);
    }
}

/// A board built from a list always has 64 squares.
proof fn lemma_game_list_len(ps: Seq<JSONPiece>)
    ensures
        game_list_of(ps) matches Ok(acc) ==> acc.0.len() == 64,
    decreases ps.len(),
{
    if ps.len() > 0 {
        lemma_game_list_len(ps.drop_last());
    }
}

impl JSONPieceList {
    /// The squares and the taken pieces that the list describes.
    ///
    /// Fails on the first piece whose kind is unknown, whose coordinates
    /// name no square, or whose square is already taken.
    pub fn into_game_list(self) -> (r: Result<([Option<ChessPiece>; 64], Vec<ChessPiece>), ListError>)
        ensures
            match r {
                Ok((sq, tk)) => game_list_of(self.0@) == Ok::<GameList, ListFault>((sq@, tk@)),
                Err(e) => game_list_of(self.0@) == Err::<GameList, ListFault>(e.fault()),
            },
    {
        self.game_list()
    }

    /// As `into_game_list`, leaving the list in place.
    pub fn game_list(&self) -> (r: Result<([Option<ChessPiece>; 64], Vec<ChessPiece>), ListError>)
        ensures
            match r {
                Ok((sq, tk)) => game_list_of(self.0@) == Ok::<GameList, ListFault>((sq@, tk@)),
                Err(e) => game_list_of(self.0@) == Err::<GameList, ListFault>(e.fault()),
            },
    {
        let ghost ps = self.0@;
        let mut v: [Option<ChessPiece>; 64] = [None; 64];
        let mut v2: Vec<ChessPiece> = Vec::with_capacity(64);
        assert(v@ =~= empty_squares());
        assert(ps.take(0) =~= Seq::<JSONPiece>::empty());
        let n = self.0.len();
        let mut i: usize = 0;
        while i < n
            invariant
                n == ps.len(),
                ps == self.0@,
                i <= n,
                game_list_of(ps.take(i as int)) == Ok::<GameList, ListFault>((v@, v2@)),
            decreases n - i,
        {
            let p = &self.0[i];
            assert(ps.take(i as int + 1).drop_last() =~= ps.take(i as int));
            assert(ps.take(i as int + 1).last() == *p);
            proof {
                lemma_game_list_len(ps.take(i as int));
            }
            let kind = match ChessPieceKind::try_from_name(p.kind.as_str()) {
                Ok(k) => k,
                Err(e) => {
                    proof {
                        lemma_fault_persists(ps, i as int + 1, ListFault::UnknownKind);
                    }
                    return Err(ListError::UnknownKind(e));
                },
            };
            let piece = ChessPiece { is_white: p.is_white, kind };
            let coords = match Coords::try_from_signed(p.x, p.y) {
                Ok(c) => c,
                Err(e) => {
                    proof {
                        lemma_fault_persists(ps, i as int + 1, ListFault::BadCoords(e));
                    }
                    return Err(ListError::BadCoords(e));
                },
            };
            match coords.to_usize() {
                Some(us) => {
                    if v[us].is_some() {
                        proof {
                            lemma_fault_persists(ps, i as int + 1, ListFault::Collision(p.x, p.y));
                        }
                        return Err(ListError::Collision(p.x, p.y));
                    }
                    v[us] = Some(piece);
                },
                None => {
                    v2.push(piece);
                },
            }
            i += 1;
        }
        assert(ps.take(n as int) =~= ps);
        Ok((v, v2))
    }
}

/// The squares of the placeholder board that hold a rook; together they
/// spell out that the connection is lost.
pub open spec fn no_connection_square(x: int, y: int) -> bool {
    ||| y == 0 && (x == 0 || x == 2 || x == 5 || x == 7)
    ||| (y == 1 || y == 6) && (x == 0 || x == 2 || x == 5 || x == 6 || x == 7)
    ||| (y == 2 || y == 5 || y == 7) && (x == 0 || x == 1 || x == 2 || x == 5 || x == 7)
}

/// The squares of the placeholder board: a rook on each marked square, white
/// where `x + y` is odd.
pub open spec fn no_connection_squares() -> Seq<Option<ChessPiece>> {
    Seq::new(
        64,
        |i: int|
            if no_connection_square(i % 8, i / 8) {
                Some(ChessPiece { is_white: (i % 8 + i / 8) % 2 == 1, kind: ChessPieceKind::Rook })
            } else {
                None
            },
    )
}

/// Every piece there is, each kind first black and then white.
pub open spec fn all_variants_seq() -> Seq<ChessPiece> {
    Seq::new(12, |i: int| ChessPiece { is_white: i % 2 == 1, kind: variant_order()[i / 2] })
}

/// The placeholder board shown while the server cannot be reached.
pub open spec fn no_connection_model() -> BoardModel {
    (no_connection_squares(), all_variants_seq() + all_variants_seq(), None::<PendingMove>)
}

/// Whether the placeholder board has a rook on `(x, y)`.
fn is_no_connection_square(x: usize, y: usize) -> (r: bool)
    ensures
        r == no_connection_square(x as int, y as int),
{
    if y == 0 {
        x == 0 || x == 2 || x == 5 || x == 7
    } else if y == 1 || y == 6 {
        x == 0 || x == 2 || x == 5 || x == 6 || x == 7
    } else if y == 2 || y == 5 || y == 7 {
        x == 0 || x == 1 || x == 2 || x == 5 || x == 7
    } else {
        false
    }
}

/// The placeholder board shown while the server cannot be reached: rooks
/// that spell out the lost connection, and two of every piece taken.
pub fn no_connection_list() -> (r: Board<CanMovePiece>)
    ensures
        r@ == no_connection_model(),
{
    let mut pieces: [Option<ChessPiece>; 64] = [None; 64];
    let mut i: usize = 0;
    while i < 64
        invariant
            i <= 64,
            forall|j: int|
                0 <= j < 64 ==> #[trigger] pieces@[j] == (if j < i {
                    no_connection_squares()[j]
                } else {
                    None
                }),
        decreases 64 - i,
    {
        let x = i % 8;
        let y = i / 8;
        if is_no_connection_square(x, y) {
            pieces[i] = Some(ChessPiece { is_white: (x + y) % 2 == 1, kind: ChessPieceKind::Rook });
        }
        i += 1;
    }
    assert(pieces@ =~= no_connection_squares());
    let mut taken = ChessPiece::all_variants();
    let mut second = ChessPiece::all_variants();
    assert(taken@ =~= all_variants_seq());
    assert(second@ =~= all_variants_seq());
    taken.append(&mut second);
    Board::from_parts(pieces, taken)
}

} // verus!
