use vstd::prelude::*;

verus! {

/// A square of the board as `(x, y)`, or no square at all for a piece that
/// has been taken or is not placed.
///
/// `(0, 0)` is the top left; `x` counts columns and `y` counts rows.
#[derive(Copy, Clone, PartialEq, Eq, Debug, Structural)]
pub enum Coords {
    /// Off the board: a taken piece, or nothing selected.
    OffBoard,
    /// On the board at column `x` and row `y`.
    OnBoard(u8, u8),
}

/// Why a pair of integers does not name a square.
#[derive(Copy, Clone, PartialEq, Eq, Debug, Structural)]
pub enum CoordsError {
    /// `x < 0`
    XNegative,
    /// `x > 7`
    XTooLarge,
    /// `y < 0`
    YNegative,
    /// `y > 7`
    YTooLarge,
}

/// The index of square `(x, y)` in a row-major array of eight columns.
pub open spec fn square_index(x: int, y: int) -> int {
    y * 8 + x
}

impl Coords {
    /// Both parts of an on-board coordinate lie in `0..=7`.
    pub open spec fn is_valid(self) -> bool {
        match self {
            Coords::OffBoard => true,
            Coords::OnBoard(x, y) => x < 8 && y < 8,
        }
    }

    /// What `try_from_signed` gives for `(x, y)`.
    pub open spec fn spec_from_signed(x: i32, y: i32) -> Result<Coords, CoordsError> {
        if x == -1 && y == -1 {
            Ok(Coords::OffBoard)
        } else if x < 0 {
            Err(CoordsError::XNegative)
        } else if x > 7 {
            Err(CoordsError::XTooLarge)
        } else if y < 0 {
            Err(CoordsError::YNegative)
        } else if y > 7 {
            Err(CoordsError::YTooLarge)
        } else {
            Ok(Coords::OnBoard(x as u8, y as u8))
        }
    }

    /// What `try_from_unsigned` gives for `(x, y)`.
    pub open spec fn spec_from_unsigned(x: u32, y: u32) -> Result<Coords, CoordsError> {
        if x > 7 {
            Err(CoordsError::XTooLarge)
        } else if y > 7 {
            Err(CoordsError::YTooLarge)
        } else {
            Ok(Coords::OnBoard(x as u8, y as u8))
        }
    }

    /// Reads a coordinate in the server's signed form, where `(-1, -1)`
    /// stands for a piece that is off the board.
    pub fn try_from_signed(x: i32, y: i32) -> (r: Result<Coords, CoordsError>)
        ensures
            r == Self::spec_from_signed(x, y),
            r matches Ok(c) ==> c.is_valid(),
    {
        if x == -1 && y == -1 {
            return Ok(Coords::OffBoard);
        }
        if x < 0 {
            return Err(CoordsError::XNegative);
        }
        if x > 7 {
            return Err(CoordsError::XTooLarge);
        }
        if y < 0 {
            return Err(CoordsError::YNegative);
        }
        if y > 7 {
            return Err(CoordsError::YTooLarge);
        }
        Ok(Coords::OnBoard(x as u8, y as u8))
    }

    /// Reads an on-board coordinate in the unsigned form of a move.
    pub fn try_from_unsigned(x: u32, y: u32) -> (r: Result<Coords, CoordsError>)
        ensures
            r == Self::spec_from_unsigned(x, y),
            r matches Ok(c) ==> c.is_valid() && c is OnBoard,
    {
        if x > 7 {
            return Err(CoordsError::XTooLarge);
        }
        if y > 7 {
            return Err(CoordsError::YTooLarge);
        }
        Ok(Coords::OnBoard(x as u8, y as u8))
    }

    /// The index of this square in a row-major array of eight columns.
    pub fn to_usize(&self) -> (r: Option<usize>)
        ensures
            match *self {
                Coords::OffBoard => r is None,
                Coords::OnBoard(x, y) => r == Some(square_index(x as int, y as int) as usize),
            },
            self.is_valid() && r is Some ==> r.unwrap() < 64,
    {
        match self {
            Coords::OffBoard => None,
            Coords::OnBoard(x, y) => Some((*y as usize) * 8 + (*x as usize)),
        }
    }

    /// The column, if on the board.
    pub fn x(&self) -> (r: Option<u8>)
        ensures
            match *self {
                Coords::OffBoard => r is None,
                Coords::OnBoard(x, _) => r == Some(x),
            },
    {
        match self.to_option() {
            Some((x, _)) => Some(x),
            None => None,
        }
    }

    /// The row, if on the board.
    pub fn y(&self) -> (r: Option<u8>)
        ensures
            match *self {
                Coords::OffBoard => r is None,
                Coords::OnBoard(_, y) => r == Some(y),
            },
    {
        match self.to_option() {
            Some((_, y)) => Some(y),
            None => None,
        }
    }

    /// The pair `(x, y)`, if on the board.
    pub open spec fn spec_to_option(self) -> Option<(u8, u8)> {
        match self {
            Coords::OffBoard => None,
            Coords::OnBoard(x, y) => Some((x, y)),
        }
    }

    /// The pair `(x, y)`, if on the board.
    pub fn to_option(&self) -> (r: Option<(u8, u8)>)
        ensures
            r == self.spec_to_option(),
    {
        match *self {
            Coords::OffBoard => None,
            Coords::OnBoard(x, y) => Some((x, y)),
        }
    }

    /// Whether this stands for a taken piece, that is, no square.
    pub fn is_taken(&self) -> (r: bool)
        ensures
            r == (*self is OffBoard),
    {
        matches!(self, Coords::OffBoard)
    }

    /// Whether this is a square of the board.
    pub fn is_on_board(&self) -> (r: bool)
        ensures
            r == (*self is OnBoard),
    {
        matches!(self, Coords::OnBoard(_, _))
    }
}

impl TryFrom<(i32, i32)> for Coords {
    type Error = CoordsError;

    /// As `try_from_signed`.
    fn try_from(v: (i32, i32)) -> (r: Result<Coords, CoordsError>)
        ensures
            r == Coords::spec_from_signed(v.0, v.1),
    {
        Coords::try_from_signed(v.0, v.1)
    }
}

impl vstd::std_specs::convert::TryFromSpecImpl<(i32, i32)> for Coords {
    open spec fn obeys_try_from_spec() -> bool {
        true
    }

    open spec fn try_from_spec(v: (i32, i32)) -> Result<Coords, CoordsError> {
        Coords::spec_from_signed(v.0, v.1)
    }
}

impl TryFrom<(u32, u32)> for Coords {
    type Error = CoordsError;

    /// As `try_from_unsigned`.
    fn try_from(v: (u32, u32)) -> (r: Result<Coords, CoordsError>)
        ensures
            r == Coords::spec_from_unsigned(v.0, v.1),
    {
        Coords::try_from_unsigned(v.0, v.1)
    }
}

impl vstd::std_specs::convert::TryFromSpecImpl<(u32, u32)> for Coords {
    open spec fn obeys_try_from_spec() -> bool {
        true
    }

    open spec fn try_from_spec(v: (u32, u32)) -> Result<Coords, CoordsError> {
        Coords::spec_from_unsigned(v.0, v.1)
    }
}

impl From<Coords> for Option<(u8, u8)> {
    /// As `to_option`.
    fn from(c: Coords) -> (r: Option<(u8, u8)>)
        ensures
            r == c.spec_to_option(),
    {
        c.to_option()
    }
}

impl vstd::std_specs::convert::FromSpecImpl<Coords> for Option<(u8, u8)> {
    open spec fn obeys_from_spec() -> bool {
        true
    }

    open spec fn from_spec(c: Coords) -> Option<(u8, u8)> {
        c.spec_to_option()
    }
}

impl Default for Coords {
    fn default() -> (r: Coords)
        ensures
            r == Coords::OffBoard,
    {
        Coords::OffBoard
    }
}

} // verus!
