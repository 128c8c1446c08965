use vstd::prelude::*;

use crate::text::{lowercase_text, lowercased, trim_text, trimmed};

verus! {

/// The six kinds of chess piece, declared in ascending order of value.
#[derive(Copy, Clone, PartialEq, Eq, PartialOrd, Ord, Hash, Debug, Structural)]
pub enum ChessPieceKind {
    /// Moves two squares towards the enemy on its first turn, one after; takes diagonally.
    Pawn,
    /// Moves in an L shape.
    Knight,
    /// Moves along diagonals.
    Bishop,
    /// Moves along rows and columns.
    Rook,
    /// Moves as a bishop or a rook.
    Queen,
    /// Moves as a queen, one square at a time.
    King,
}

/// A piece name that names no kind.
#[derive(Clone, PartialEq, Eq, Debug)]
pub enum ChessPieceKindParseError {
    /// The name, trimmed and in lower case, that matched no kind.
    FailedMatch(String),
}

/// The kind that a trimmed, lower-case name stands for.
pub open spec fn kind_from_name(s: Seq<char>) -> Option<ChessPieceKind> {
    if s == "bishop"@ {
        Some(ChessPieceKind::Bishop)
    } else if s == "knight"@ {
        Some(ChessPieceKind::Knight)
    } else if s == "pawn"@ {
        Some(ChessPieceKind::Pawn)
    } else if s == "queen"@ {
        Some(ChessPieceKind::Queen)
    } else if s == "king"@ {
        Some(ChessPieceKind::King)
    } else if s == "rook"@ {
        Some(ChessPieceKind::Rook)
    } else {
        None
    }
}

/// The kind that a name from the server stands for: the name is trimmed and
/// put in lower case before it is matched.
pub open spec fn kind_from_server_name(s: Seq<char>) -> Option<ChessPieceKind> {
    kind_from_name(lowercased(trimmed(s)))
}

impl ChessPieceKind {
    /// The lower-case name of the kind.
    pub open spec fn spec_lower_name(self) -> Seq<char> {
        match self {
            ChessPieceKind::Pawn => "pawn"@,
            ChessPieceKind::Knight => "knight"@,
            ChessPieceKind::Bishop => "bishop"@,
            ChessPieceKind::Rook => "rook"@,
            ChessPieceKind::Queen => "queen"@,
            ChessPieceKind::King => "king"@,
        }
    }

    /// The lower-case name of the kind, as used in asset file names.
    pub fn lower_name(&self) -> (r: &'static str)
        ensures
            r@ == self.spec_lower_name(),
    {
        match self {
            ChessPieceKind::Pawn => "pawn",
            ChessPieceKind::Knight => "knight",
            ChessPieceKind::Bishop => "bishop",
            ChessPieceKind::Rook => "rook",
            ChessPieceKind::Queen => "queen",
            ChessPieceKind::King => "king",
        }
    }

    /// Matches a name that is already trimmed and in lower case.
    pub fn from_normalized(value: String) -> (r: Result<ChessPieceKind, ChessPieceKindParseError>)
        ensures
            match r {
                Ok(k) => kind_from_name(value@) == Some(k),
                Err(ChessPieceKindParseError::FailedMatch(v)) => kind_from_name(value@) is None
                    && v@ == value@,
            },
    {
        if value == String::from_str("bishop") {
            Ok(ChessPieceKind::Bishop)
        } else if value == String::from_str("knight") {
            Ok(ChessPieceKind::Knight)
        } else if value == String::from_str("pawn") {
            Ok(ChessPieceKind::Pawn)
        } else if value == String::from_str("queen") {
            Ok(ChessPieceKind::Queen)
        } else if value == String::from_str("king") {
            Ok(ChessPieceKind::King)
        } else if value == String::from_str("rook") {
            Ok(ChessPieceKind::Rook)
        } else {
            Err(ChessPieceKindParseError::FailedMatch(value))
        }
    }

    /// Reads a piece kind from its name as the server sends it: surrounding
    /// white space is ignored and case does not matter.
    pub fn try_from_name(value: &str) -> (r: Result<ChessPieceKind, ChessPieceKindParseError>)
        ensures
            match r {
                Ok(k) => kind_from_server_name(value@) == Some(k),
                Err(ChessPieceKindParseError::FailedMatch(v)) => kind_from_server_name(value@) is None
                    && v@ == lowercased(trimmed(value@)),
            },
    {
        let t = trim_text(value);
        let l = lowercase_text(t);
        Self::from_normalized(l)
    }
}

/// A chess piece: its kind and its colour.
///
/// Pieces order black before white, then by kind.
#[derive(Copy, Clone, PartialEq, Eq, PartialOrd, Ord, Hash, Debug, Structural)]
pub struct ChessPiece {
    /// Whether this is a white piece.
    pub is_white: bool,
    /// The kind of the piece.
    pub kind: ChessPieceKind,
}

/// The order in which `all_variants` lists the kinds.
pub open spec fn variant_order() -> Seq<ChessPieceKind> {
    seq![
        ChessPieceKind::Bishop,
        ChessPieceKind::Knight,
        ChessPieceKind::Pawn,
        ChessPieceKind::Queen,
        ChessPieceKind::King,
        ChessPieceKind::Rook,
    ]
}

/// The file name of the sprite of a piece: `<colour>_<kind>.png`.
pub open spec fn file_name_of(p: ChessPiece) -> Seq<char> {
    (if p.is_white {
        "white"@
    } else {
        "black"@
    }) + "_"@ + p.kind.spec_lower_name() + ".png"@
}

impl ChessPiece {
    /// Every piece there is: each kind, first black and then white.
    pub fn all_variants() -> (r: Vec<ChessPiece>)
        ensures
            r@.len() == 12,
            forall|i: int|
                0 <= i < 12 ==> #[trigger] r@[i] == (ChessPiece {
                    is_white: i % 2 == 1,
                    kind: variant_order()[i / 2],
                }),
    {
        let mut v: Vec<ChessPiece> = Vec::with_capacity(12);
        let kinds = [
            ChessPieceKind::Bishop,
            ChessPieceKind::Knight,
            ChessPieceKind::Pawn,
            ChessPieceKind::Queen,
            ChessPieceKind::King,
            ChessPieceKind::Rook,
        ];
        assert(kinds@ =~= variant_order());
        let mut k: usize = 0;
        while k < 6
            invariant
                k <= 6,
                kinds@ == variant_order(),
                v@.len() == 2 * k,
                forall|i: int|
                    0 <= i < 2 * k ==> #[trigger] v@[i] == (ChessPiece {
                        is_white: i % 2 == 1,
                        kind: variant_order()[i / 2],
                    }),
            decreases 6 - k,
        {
            v.push(ChessPiece { is_white: false, kind: kinds[k] });
            v.push(ChessPiece { is_white: true, kind: kinds[k] });
            k += 1;
        }
        v
    }

    /// The file name of this piece's sprite, such as `white_queen.png`.
    pub fn to_file_name(self) -> (r: String)
        ensures
            r@ == file_name_of(self),
    {
        let mut s = String::from_str(if self.is_white { "white" } else { "black" });
        s.append("_");
        s.append(self.kind.lower_name());
        s.append(".png");
        s
    }
}

} // verus!
