//! Where on the screen the parts of the game are drawn.

use vstd::prelude::*;
use crate::coord::{saturating_difference, Coord};

verus! {

/// The layout of the screen: the padding round the game, the padding round
/// the board, and the side of the board.
pub struct RenderSettings {
    game_padding: usize,
    board_size: usize,
    board_padding: usize,
}

/// The column, or row, at which a cell is drawn, counted from the board's
/// origin: a cell takes two columns, after the first rule. Held at
/// `usize::MAX`.
pub open spec fn cell_offset(index: usize) -> usize {
    if 2 * index + 1 > usize::MAX {
        usize::MAX
    } else {
        (2 * index + 1) as usize
    }
}

/// The index of the cell drawn at a column, or row, counted from the board's
/// origin.
pub open spec fn cell_index(offset: usize) -> usize {
    (saturating_difference(offset, 1) / 2) as usize
}

impl RenderSettings {
    /// The padding round the game.
    pub closed spec fn game_padding(&self) -> usize {
        self.game_padding
    }

    /// The side of the board.
    pub closed spec fn board_size(&self) -> usize {
        self.board_size
    }

    /// The padding round the board.
    pub closed spec fn board_padding(&self) -> usize {
        self.board_padding
    }

    /// Where the title is drawn.
    pub open spec fn title_origin(&self) -> Coord {
        Coord { x: self.game_padding(), y: self.game_padding() }
    }

    /// Where the board is drawn: the title's origin moved by the board's
    /// padding.
    pub open spec fn board_origin(&self) -> Coord {
        self.title_origin().moved_by(
            Coord { x: self.board_padding(), y: self.board_padding() },
        )
    }

    /// The height reserved for the board.
    pub open spec fn rendered_board_height(&self) -> int {
        self.board_size() + 3
    }

    /// The row of the status line: under the board and its padding.
    pub open spec fn status_row(&self) -> int {
        self.board_origin().y + self.rendered_board_height() + self.board_padding()
    }

    /// Where the status line is drawn.
    pub open spec fn status_origin(&self) -> Coord {
        Coord { x: self.game_padding(), y: self.status_row() as usize }
    }

    /// Where the message log starts: three rows under the status line.
    pub open spec fn msglog_origin(&self) -> Coord {
        self.status_origin().moved_by(Coord { x: 0, y: 3 })
    }

    /// The cell at a position of the screen.
    pub open spec fn cell_at(&self, term_coord: Coord) -> Coord {
        let relative = term_coord.moved_back_by(self.board_origin());
        Coord { x: cell_index(relative.x), y: cell_index(relative.y) }
    }

    /// The position of the screen at which a cell is drawn.
    pub open spec fn position_of(&self, cell_coord: Coord) -> Coord {
        self.board_origin().moved_by(
            Coord { x: cell_offset(cell_coord.x), y: cell_offset(cell_coord.y) },
        )
    }

    /// A cell is found again at the position at which it is drawn, as long as
    /// that position fits the screen's coordinates.
    pub proof fn lemma_cell_at_its_position(&self, cell_coord: Coord)
        requires
            self.board_origin().x + 2 * cell_coord.x + 1 <= usize::MAX,
            self.board_origin().y + 2 * cell_coord.y + 1 <= usize::MAX,
        ensures
            self.cell_at(self.position_of(cell_coord)) == cell_coord,
    {
    }

    /// The layout with the given paddings and side.
    pub fn new(game_padding: usize, board_padding: usize, board_size: usize) -> (settings: Self)
        ensures
            settings.game_padding() == game_padding,
            settings.board_padding() == board_padding,
            settings.board_size() == board_size,
    {
        RenderSettings { game_padding, board_size, board_padding }
    }

    /// The side of the board.
    pub fn get_board_size(&self) -> (size: usize)
        ensures
            size == self.board_size(),
    {
        self.board_size
    }

    /// The cell at a position of the screen. A position before the board
    /// gives the first column or row.
    pub fn term_coord_to_cell_coord(&self, term_coord: &Coord) -> (cell: Coord)
        ensures
            cell == self.cell_at(*term_coord),
    {
        let term_rel_coord: Coord = *term_coord - self.get_board_origin();
        Coord {
            x: term_rel_coord.x.saturating_sub(1) / 2,
            y: term_rel_coord.y.saturating_sub(1) / 2,
        }
    }

    /// The position of the screen at which a cell is drawn.
    pub fn cell_coord_to_term_coord(&self, cell_coord: &Coord) -> (position: Coord)
        ensures
            position == self.position_of(*cell_coord),
    {
        let term_rel_coord = Coord {
            x: cell_coord.x.saturating_add(cell_coord.x).saturating_add(1),
            y: cell_coord.y.saturating_add(cell_coord.y).saturating_add(1),
        };
        self.get_board_origin() + term_rel_coord
    }

    /// Whether the status line and the message log have a row on the screen:
    /// whether the row of the status line is a `usize`.
    pub fn has_status_row(&self) -> (fits: bool)
        ensures
            fits == (self.status_row() <= usize::MAX),
    {
        match self.board_size.checked_add(3) {
            Some(height) => match self.get_board_origin().y.checked_add(height) {
                Some(row) => row.checked_add(self.board_padding).is_some(),
                None => false,
            },
            None => false,
        }
    }

    /// Whether a board of side `side` has its rows on the screen: whether the
    /// row of its bottom rule is a `usize`.
    pub fn has_board_rows(&self, side: usize) -> (fits: bool)
        ensures
            fits == (self.board_origin().y + 2 * side <= usize::MAX),
    {
        match side.checked_add(side) {
            Some(rows) => self.get_board_origin().y.checked_add(rows).is_some(),
            None => false,
        }
    }

    /// The height reserved for the board.
    pub fn get_rendered_board_height(&self) -> (height: usize)
        requires
            self.rendered_board_height() <= usize::MAX,
        ensures
            height == self.rendered_board_height(),
    {
        1 + (self.board_size + 2)
    }

    /// Where the title is drawn.
    pub fn get_title_origin(&self) -> (origin: Coord)
        ensures
            origin == self.title_origin(),
    {
        Coord { x: self.game_padding, y: self.game_padding }
    }

    /// Where the board is drawn.
    pub fn get_board_origin(&self) -> (origin: Coord)
        ensures
            origin == self.board_origin(),
    {
        self.get_title_origin() + Coord { x: self.board_padding, y: self.board_padding }
    }

    /// Where the status line is drawn.
    pub fn get_status_origin(&self) -> (origin: Coord)
        requires
            self.status_row() <= usize::MAX,
        ensures
            origin == self.status_origin(),
    {
        Coord {
            x: self.game_padding,
            y: self.get_board_origin().y + self.get_rendered_board_height() + self.board_padding,
        }
    }

    /// Where the message log starts.
    pub fn get_msglog_origin(&self) -> (origin: Coord)
        requires
            self.status_row() <= usize::MAX,
        ensures
            origin == self.msglog_origin(),
    {
        self.get_status_origin() + Coord { x: 0, y: 3 }
    }
}

} // verus!
