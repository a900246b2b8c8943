//! What can go wrong in a game.

use vstd::prelude::*;
use vstd::string::StringExecFns;
use crate::coord::Coord;

verus! {

/// An error of the game.
#[derive(Debug, Clone, Copy, PartialEq, Eq, Structural)]
pub enum TBError {
    /// The input could not be read as a move.
    InvalidGameInput,
    /// The coordinate is not a cell of the board.
    InvalidCellPosition(Coord),
}

impl TBError {
    /// The message of the error.
    pub open spec fn text(self) -> Seq<char> {
        match self {
            TBError::InvalidGameInput => "Invalid game input"@,
            TBError::InvalidCellPosition(coord) => "Invalid cell position: "@ + coord.text(),
        }
    }

    /// The message of the error, as text.
    pub fn to_string(&self) -> (text: String)
        ensures
            text@ == self.text(),
    {
        match self {
            TBError::InvalidGameInput => String::from_str("Invalid game input"),
            TBError::InvalidCellPosition(coord) => {
                let mut text = String::from_str("Invalid cell position: ");
                text.append(coord.to_string().as_str());
                text
            },
        }
    }
}

} // verus!
