//! The board of the game: which cells hold a target or a bomb.

use vstd::prelude::*;
use vstd::string::StringExecFns;
use crate::coord::Coord;
use crate::coord_set::CoordSet;
use crate::errors::TBError;
use crate::search::{all_on_grid, attack_points, is_solution, lemma_attack_points_on_grid, survivors};
use crate::text::{decimal, decimal_string};

verus! {

/// What a cell of the board holds. A cell that holds nothing has no state.
#[derive(Debug, Clone, Copy, PartialEq, Eq, Hash, Structural)]
pub enum TBCell {
    Bomb,
    Target,
}

impl TBCell {
    /// The character that stands for the state: `X` for a bomb, `O` for a
    /// target.
    pub open spec fn symbol(self) -> char {
        match self {
            TBCell::Bomb => 'X',
            TBCell::Target => 'O',
        }
    }

    /// The state as text: `"X"` for a bomb, `"O"` for a target.
    pub fn to_string(&self) -> (text: String)
        ensures
            text@ == seq![self.symbol()],
    {
        proof {
            reveal_strlit("X");
            reveal_strlit("O");
        }
        let text = match self {
            TBCell::Bomb => String::from_str("X"),
            TBCell::Target => String::from_str("O"),
        };
        assert(text@ =~= seq![self.symbol()]);
        text
    }
}

/// `coord` is a cell of a board of side `side`.
pub open spec fn on_board(coord: Coord, side: usize) -> bool {
    coord.x < side && coord.y < side
}

/// The cells after a target was toggled at `coord`: whatever state `coord`
/// held is gone, and where it held none it now holds a target.
pub open spec fn toggled(cells: Map<Coord, TBCell>, coord: Coord) -> Map<Coord, TBCell> {
    if cells.dom().contains(coord) {
        cells.remove(coord)
    } else {
        cells.insert(coord, TBCell::Target)
    }
}

/// A horizontal rule of a board of side `size`: a corner or joint before each
/// cell, a dash over each cell, and the closing corner.
pub open spec fn rule(size: nat, left: char, joint: char, right: char) -> Seq<char> {
    Seq::new(
        2 * size + 1,
        |j: int|
            if j == 2 * size {
                right
            } else if j % 2 == 1 {
                '─'
            } else if j == 0 {
                left
            } else {
                joint
            },
    )
}

/// The character drawn for the cell at `coord`: the symbol of its state, or
/// a blank where it holds none.
pub open spec fn cell_symbol(cells: Map<Coord, TBCell>, coord: Coord) -> char {
    if cells.dom().contains(coord) {
        cells[coord].symbol()
    } else {
        ' '
    }
}

/// Row `y` of a board of side `size`: a bar before each cell, the cell's
/// character, and the closing bar.
pub open spec fn row_text(cells: Map<Coord, TBCell>, size: nat, y: usize) -> Seq<char> {
    Seq::new(
        2 * size + 1,
        |j: int|
            if j % 2 == 0 {
                '│'
            } else {
                cell_symbol(cells, Coord { x: (j / 2) as usize, y })
            },
    )
}

/// `count` blanks.
pub open spec fn blanks(count: nat) -> Seq<char> {
    Seq::new(count, |j: int| ' ')
}

/// `n` in decimal, with blanks before it where it has fewer than `width`
/// digits.
pub open spec fn right_aligned(n: nat, width: nat) -> Seq<char> {
    if decimal(n).len() < width {
        blanks((width - decimal(n).len()) as nat) + decimal(n)
    } else {
        decimal(n)
    }
}

/// The column numbers `0..count`, a blank before each.
pub open spec fn column_numbers(count: nat) -> Seq<char>
    decreases count,
{
    if count == 0 {
        Seq::<char>::empty()
    } else {
        column_numbers((count - 1) as nat) + seq![' '] + decimal((count - 1) as nat)
    }
}

/// The first `count` rows of the board's text, each under its rule: the top
/// rule over row 0, a separator over every other row. A rule is indented by
/// four blanks; a row starts with its number, right-aligned in three columns,
/// and a blank.
pub open spec fn rows_text(cells: Map<Coord, TBCell>, size: nat, count: nat) -> Seq<char>
    decreases count,
{
    if count == 0 {
        Seq::<char>::empty()
    } else {
        let y = (count - 1) as nat;
        rows_text(cells, size, y) + blanks(4) + (if y == 0 {
            rule(size, '╭', '┬', '╮')
        } else {
            rule(size, '├', '┼', '┤')
        }) + seq!['\n'] + right_aligned(y, 3) + seq![' '] + row_text(cells, size, y as usize)
            + seq!['\n']
    }
}

/// The whole board as text: the column numbers, the rows under their rules,
/// and the bottom rule, each line ended by a newline.
pub open spec fn board_text(cells: Map<Coord, TBCell>, size: nat) -> Seq<char> {
    blanks(4) + column_numbers(size) + seq!['\n'] + rows_text(cells, size, size) + blanks(4)
        + rule(size, '╰', '┴', '╯') + seq!['\n']
}

/// A rule of a board of side `size`, from its three one-character pieces.
fn rule_line(size: usize, left: &str, joint: &str, right: &str) -> (line: String)
    requires
        left@.len() == 1,
        joint@.len() == 1,
        right@.len() == 1,
    ensures
        line@ == rule(size as nat, left@[0], joint@[0], right@[0]),
{
    proof {
        reveal_strlit("─");
    }
    let mut line = String::new();
    let mut x: usize = 0;
    while x < size
        invariant
            x <= size,
            left@.len() == 1,
            joint@.len() == 1,
            line@.len() == 2 * x,
            forall|j: int|
                0 <= j < 2 * x ==> line@[j] == (if j % 2 == 1 {
                    '─'
                } else if j == 0 {
                    left@[0]
                } else {
                    joint@[0]
                }),
        decreases size - x,
    {
        proof {
            reveal_strlit("─");
        }
        if x == 0 {
            line.append(left);
        } else {
            line.append(joint);
        }
        line.append("─");
        x += 1;
    }
    line.append(right);
    assert(line@ =~= rule(size as nat, left@[0], joint@[0], right@[0]));
    line
}

/// `count` blanks.
fn blank_string(count: usize) -> (text: String)
    ensures
        text@ == blanks(count as nat),
{
    proof {
        reveal_strlit(" ");
    }
    let mut text = String::new();
    let mut i: usize = 0;
    while i < count
        invariant
            i <= count,
            text@ == blanks(i as nat),
        decreases count - i,
    {
        proof {
            reveal_strlit(" ");
        }
        text.append(" ");
        i += 1;
        assert(text@ =~= blanks(i as nat));
    }
    text
}

/// `n` in decimal, right-aligned in `width` columns.
fn right_aligned_string(n: usize, width: usize) -> (text: String)
    ensures
        text@ == right_aligned(n as nat, width as nat),
{
    let digits = decimal_string(n);
    let len = digits.as_str().unicode_len();
    if len < width {
        let mut text = blank_string(width - len);
        text.append(digits.as_str());
        text
    } else {
        digits
    }
}

/// The cells after `mark_target` was asked to toggle a target at `coord` on a
/// board of side `side`: toggled where `coord` is on the board, as they were
/// where it is not.
pub open spec fn marked(cells: Map<Coord, TBCell>, side: usize, coord: Coord) -> Map<
    Coord,
    TBCell,
> {
    if on_board(coord, side) {
        toggled(cells, coord)
    } else {
        cells
    }
}

/// Marking the same coordinate twice on an empty board leaves the board
/// empty; marking a cell of the board once leaves exactly one target, at
/// that cell.
pub proof fn lemma_mark_on_empty_board(side: usize, coord: Coord)
    ensures
        marked(marked(Map::<Coord, TBCell>::empty(), side, coord), side, coord) == Map::<
            Coord,
            TBCell,
        >::empty(),
        on_board(coord, side) ==> marked(Map::<Coord, TBCell>::empty(), side, coord) == Map::<
            Coord,
            TBCell,
        >::empty().insert(coord, TBCell::Target),
{
    let empty = Map::<Coord, TBCell>::empty();
    assert(toggled(toggled(empty, coord), coord) =~= empty);
}

/// Marking a coordinate twice leaves every board as it was whose cell at that
/// coordinate is empty or holds a target. A bomb is not brought back: marking
/// it twice leaves a target.
pub proof fn lemma_mark_twice(cells: Map<Coord, TBCell>, side: usize, coord: Coord)
    ensures
        !cells.dom().contains(coord) || cells[coord] == TBCell::Target ==> marked(
            marked(cells, side, coord),
            side,
            coord,
        ) == cells,
        on_board(coord, side) && cells.dom().contains(coord) ==> marked(
            marked(cells, side, coord),
            side,
            coord,
        ) == cells.insert(coord, TBCell::Target),
{
    assert(toggled(toggled(cells, coord), coord) =~= if cells.dom().contains(coord) {
        cells.insert(coord, TBCell::Target)
    } else {
        cells
    });
    if cells.dom().contains(coord) && cells[coord] == TBCell::Target {
        assert(cells.insert(coord, TBCell::Target) =~= cells);
    }
}

/// A square board. Its view maps each occupied cell to its state; every
/// occupied cell lies on the board.
#[derive(Debug)]
pub struct TBBoard {
    cells: CoordSet,
    bombs: CoordSet,
    size: usize,
}

impl View for TBBoard {
    type V = Map<Coord, TBCell>;

    closed spec fn view(&self) -> Map<Coord, TBCell> {
        Map::new(
            |c: Coord| self.cells@.contains(c),
            |c: Coord|
                if self.bombs@.contains(c) {
                    TBCell::Bomb
                } else {
                    TBCell::Target
                },
        )
    }
}

impl TBBoard {
    /// The side length of the board.
    pub closed spec fn side(&self) -> usize {
        self.size
    }

    /// The bombs are among the occupied cells, and the occupied cells are on
    /// the board.
    #[verifier::type_invariant]
    pub closed spec fn wf(self) -> bool {
        &&& self.bombs@.subset_of(self.cells@)
        &&& all_on_grid(self.cells@, self.size)
    }

    /// On a well-formed board every occupied cell lies on the board, and the
    /// occupied cells are finitely many.
    pub proof fn lemma_cells_on_board(self)
        requires
            self.wf(),
        ensures
            all_on_grid(self@.dom(), self.side()),
            self@.dom().finite(),
    {
        self.cells.lemma_finite();
        assert(self@.dom() =~= self.cells@);
    }

    /// An empty board of side `size`. With `size` zero it has no cell.
    pub fn new_anysize(size: usize) -> (board: TBBoard)
        ensures
            board@ == Map::<Coord, TBCell>::empty(),
            board.side() == size,
    {
        let board = TBBoard { cells: CoordSet::new(), bombs: CoordSet::new(), size };
        assert(board@ =~= Map::<Coord, TBCell>::empty());
        board
    }

    /// An empty board of side 3.
    pub fn new() -> (board: TBBoard)
        ensures
            board@ == Map::<Coord, TBCell>::empty(),
            board.side() == 3,
    {
        TBBoard::new_anysize(3)
    }

    /// Empties the board.
    pub fn init(&mut self)
        ensures
            final(self)@ == Map::<Coord, TBCell>::empty(),
            final(self).side() == old(self).side(),
    {
        proof {
            use_type_invariant(&*self);
        }
        self.bombs = CoordSet::new();
        self.cells = CoordSet::new();
        assert(self@ =~= Map::<Coord, TBCell>::empty());
    }

    /// The side length of the board.
    pub fn get_size(&self) -> (size: usize)
        ensures
            size == self.side(),
    {
        self.size
    }

    /// The number of occupied cells.
    pub fn len(&self) -> (n: usize)
        ensures
            n == self@.dom().len(),
    {
        assert(self@.dom() =~= self.cells@);
        self.cells.len()
    }

    /// The state of the cell at `coord`, if it holds one.
    pub fn fetch(&self, coord: &Coord) -> (cell: Option<&TBCell>)
        ensures
            match cell {
                Some(state) => self@.dom().contains(*coord) && *state == self@[*coord],
                None => !self@.dom().contains(*coord),
            },
            cell.is_some() ==> on_board(*coord, self.side()),
    {
        proof {
            use_type_invariant(self);
        }
        if self.bombs.contains(coord) {
            Some(&TBCell::Bomb)
        } else if self.cells.contains(coord) {
            Some(&TBCell::Target)
        } else {
            None
        }
    }

    /// The occupied cells, whatever they hold.
    pub fn targets(&self) -> (occupied: CoordSet)
        ensures
            occupied@ == self@.dom(),
            all_on_grid(occupied@, self.side()),
    {
        proof {
            use_type_invariant(self);
        }
        assert(self@.dom() =~= self.cells@);
        self.cells.clone()
    }

    /// Takes both sets out of the board, which is left empty.
    fn take_sets(&mut self) -> (sets: (CoordSet, CoordSet))
        ensures
            sets.0 == old(self).cells,
            sets.1 == old(self).bombs,
            final(self).bombs@ == Set::<Coord>::empty(),
            final(self).size == old(self).size,
    {
        proof {
            use_type_invariant(&*self);
        }
        let mut bombs = CoordSet::new();
        std::mem::swap(&mut bombs, &mut self.bombs);
        let mut cells = CoordSet::new();
        std::mem::swap(&mut cells, &mut self.cells);
        (cells, bombs)
    }

    /// Puts both sets into the board.
    fn put_sets(&mut self, cells: CoordSet, bombs: CoordSet)
        requires
            old(self).bombs@ == Set::<Coord>::empty(),
            bombs@.subset_of(cells@),
            all_on_grid(cells@, old(self).size),
        ensures
            final(self).cells == cells,
            final(self).bombs == bombs,
            final(self).size == old(self).size,
    {
        self.cells = cells;
        self.bombs = bombs;
    }

    /// Writes `new_state` into the cell at `coord`. A coordinate that is not
    /// on the board is refused, and the board stays as it was.
    pub fn set(&mut self, coord: &Coord, new_state: TBCell) -> (result: Result<TBCell, TBError>)
        ensures
            final(self).side() == old(self).side(),
            on_board(*coord, old(self).side()) ==> {
                &&& result == Ok::<TBCell, TBError>(new_state)
                &&& final(self)@ == old(self)@.insert(*coord, new_state)
            },
            !on_board(*coord, old(self).side()) ==> {
                &&& result == Err::<TBCell, TBError>(TBError::InvalidCellPosition(*coord))
                &&& final(self)@ == old(self)@
            },
    {
        proof {
            use_type_invariant(&*self);
        }
        if coord.x < self.size && coord.y < self.size {
            let (mut cells, mut bombs) = self.take_sets();
            cells.insert(*coord);
            match new_state {
                TBCell::Bomb => {
                    bombs.insert(*coord);
                },
                TBCell::Target => {
                    bombs.remove(coord);
                },
            }
            self.put_sets(cells, bombs);
            assert(self@ =~= old(self)@.insert(*coord, new_state));
            Ok(new_state)
        } else {
            Err(TBError::InvalidCellPosition(*coord))
        }
    }

    /// Empties the cell at `coord`, whatever it held.
    pub fn clear(&mut self, coord: &Coord)
        ensures
            final(self)@ == old(self)@.remove(*coord),
            final(self).side() == old(self).side(),
    {
        proof {
            use_type_invariant(&*self);
        }
        let (mut cells, mut bombs) = self.take_sets();
        cells.remove(coord);
        bombs.remove(coord);
        self.put_sets(cells, bombs);
        assert(self@ =~= old(self)@.remove(*coord));
    }

    /// Toggles a target at `coord`: a cell that holds a state is emptied, an
    /// empty cell gets a target. A coordinate that is not on the board is
    /// refused, and the board stays as it was.
    pub fn mark_target(&mut self, coord: &Coord) -> (result: Result<(), TBError>)
        ensures
            final(self).side() == old(self).side(),
            final(self)@ == marked(old(self)@, old(self).side(), *coord),
            result == if on_board(*coord, old(self).side()) {
                Ok::<(), TBError>(())
            } else {
                Err::<(), TBError>(TBError::InvalidCellPosition(*coord))
            },
    {
        if self.fetch(coord).is_some() {
            self.clear(coord);
            Ok(())
        } else {
            match self.set(coord, TBCell::Target) {
                Ok(_) => Ok(()),
                Err(error) => Err(error),
            }
        }
    }

    /// The rule over the first row.
    pub fn render_board_top(&self) -> (line: String)
        ensures
            line@ == rule(self.side() as nat, '╭', '┬', '╮'),
    {
        proof {
            reveal_strlit("╭");
            reveal_strlit("┬");
            reveal_strlit("╮");
        }
        rule_line(self.size, "╭", "┬", "╮")
    }

    /// The rule under the last row.
    pub fn render_board_bottom(&self) -> (line: String)
        ensures
            line@ == rule(self.side() as nat, '╰', '┴', '╯'),
    {
        proof {
            reveal_strlit("╰");
            reveal_strlit("┴");
            reveal_strlit("╯");
        }
        rule_line(self.size, "╰", "┴", "╯")
    }

    /// The rule between two rows.
    pub fn render_board_row_sep(&self) -> (line: String)
        ensures
            line@ == rule(self.side() as nat, '├', '┼', '┤'),
    {
        proof {
            reveal_strlit("├");
            reveal_strlit("┼");
            reveal_strlit("┤");
        }
        rule_line(self.size, "├", "┼", "┤")
    }

    /// Row `y` of the board: its cells between bars.
    pub fn render_board_row(&self, y: usize) -> (line: String)
        ensures
            line@ == row_text(self@, self.side() as nat, y),
    {
        proof {
            reveal_strlit("│");
            reveal_strlit("X");
            reveal_strlit("O");
            reveal_strlit(" ");
        }
        let mut line = String::new();
        let mut x: usize = 0;
        while x < self.size
            invariant
                x <= self.size,
                line@.len() == 2 * x,
                forall|j: int|
                    0 <= j < 2 * x ==> line@[j] == (if j % 2 == 0 {
                        '│'
                    } else {
                        cell_symbol(self@, Coord { x: (j / 2) as usize, y })
                    }),
            decreases self.size - x,
        {
            proof {
                reveal_strlit("│");
                reveal_strlit("X");
                reveal_strlit("O");
                reveal_strlit(" ");
            }
            line.append("│");
            match self.fetch(&Coord { x, y }) {
                Some(TBCell::Bomb) => line.append("X"),
                Some(TBCell::Target) => line.append("O"),
                None => line.append(" "),
            }
            x += 1;
        }
        line.append("│");
        assert(line@ =~= row_text(self@, self.side() as nat, y));
        line
    }

    /// The whole board as text, with column and row numbers.
    pub fn to_string(&self) -> (text: String)
        ensures
            text@ == board_text(self@, self.side() as nat),
    {
        proof {
            reveal_strlit(" ");
            reveal_strlit("\n");
        }
        let size = self.size;
        let mut text = blank_string(4);
        let mut x: usize = 0;
        while x < size
            invariant
                x <= size,
                text@ == blanks(4) + column_numbers(x as nat),
            decreases size - x,
        {
            proof {
                reveal_strlit(" ");
            }
            text.append(" ");
            text.append(decimal_string(x).as_str());
            x += 1;
            assert(text@ =~= blanks(4) + column_numbers(x as nat));
        }
        text.append("\n");
        let ghost head = text@;
        assert(head + rows_text(self@, size as nat, 0) =~= head);
        let mut y: usize = 0;
        while y < size
            invariant
                y <= size,
                size == self.side(),
                text@ == head + rows_text(self@, size as nat, y as nat),
            decreases size - y,
        {
            proof {
                reveal_strlit(" ");
                reveal_strlit("\n");
            }
            text.append(blank_string(4).as_str());
            if y == 0 {
                text.append(self.render_board_top().as_str());
            } else {
                text.append(self.render_board_row_sep().as_str());
            }
            text.append("\n");
            text.append(right_aligned_string(y, 3).as_str());
            text.append(" ");
            text.append(self.render_board_row(y).as_str());
            text.append("\n");
            y += 1;
            assert(text@ =~= head + rows_text(self@, size as nat, y as nat));
        }
        text.append(blank_string(4).as_str());
        text.append(self.render_board_bottom().as_str());
        text.append("\n");
        assert(text@ =~= board_text(self@, size as nat));
        text
    }

    /// Searches two cells for bombs that eliminate every occupied cell, and
    /// puts a bomb into each where it finds them. Where it finds none the
    /// board stays as it was.
    pub fn find_bombs(&mut self) -> (bombs: Option<(Coord, Coord)>)
        ensures
            final(self).side() == old(self).side(),
            match bombs {
                Some((first, second)) => {
                    &&& is_solution(old(self)@.dom(), old(self).side(), first, second)
                    &&& on_board(first, old(self).side())
                    &&& on_board(second, old(self).side())
                    &&& final(self)@ == old(self)@.insert(first, TBCell::Bomb).insert(
                        second,
                        TBCell::Bomb,
                    )
                },
                None => {
                    &&& final(self)@ == old(self)@
                    &&& forall|first: Coord, second: Coord|
                        !is_solution(old(self)@.dom(), old(self).side(), first, second)
                },
            },
    {
        let targets = self.targets();
        let bombs = crate::search::find_bombs(&targets, self.size);
        if let Some((first, second)) = bombs {
            proof {
                lemma_attack_points_on_grid(targets@, self.size);
                lemma_attack_points_on_grid(survivors(first, targets@), self.size);
                assert(attack_points(targets@, self.size).contains(first));
                assert(attack_points(survivors(first, targets@), self.size).contains(second));
            }
            self.set(&first, TBCell::Bomb).expect("Invalid board coordinate for bomb!");
            self.set(&second, TBCell::Bomb).expect("Invalid board coordinate for bomb!");
        }
        bombs
    }
}

/// A game: one board.
pub struct TBGame {
    pub board: TBBoard,
}

impl TBGame {
    /// The board of the game.
    pub fn get_board(&self) -> (board: &TBBoard)
        ensures
            *board == self.board,
    {
        &self.board
    }

    /// A game on an empty board of side `size`.
    pub fn new_anysize(size: usize) -> (game: TBGame)
        ensures
            game.board@ == Map::<Coord, TBCell>::empty(),
            game.board.side() == size,
    {
        TBGame { board: TBBoard::new_anysize(size) }
    }

    /// A game on an empty board of side 3.
    pub fn new() -> (game: TBGame)
        ensures
            game.board@ == Map::<Coord, TBCell>::empty(),
            game.board.side() == 3,
    {
        TBGame::new_anysize(3)
    }
}

} // verus!
