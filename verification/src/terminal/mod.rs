//! The game on a terminal: what is drawn where, and what the player's input
//! means.

pub mod cxterm;
pub mod settings;

use vstd::prelude::*;
use vstd::string::StringExecFns;
use crate::coord::Coord;
use crate::errors::TBError;
use crate::search::is_solution;
use crate::terminal::cxterm::{joined, line_ops, op_views, CxTerm, DrawOp, DrawOpView};
use crate::terminal::settings::RenderSettings;
use crate::text::{decimal, decimal_string};
use crate::twobombs::{marked, on_board, row_text, rule, TBCell, TBGame};

verus! {

/// What the player asks for.
#[derive(Debug, Clone, Copy, PartialEq, Eq, Structural)]
pub enum GameAction {
    MarkTarget(Coord),
    Solve,
    Quit,
}

/// A key of the keyboard, as far as the game tells keys apart.
#[derive(Debug, Clone, Copy, PartialEq, Eq, Structural)]
pub enum Key {
    Left,
    Right,
    Up,
    Down,
    Enter,
    Esc,
    Char(char),
    Other,
}

/// An event of the terminal, as far as the game reads it: a key with whether
/// it was pressed (not held or released), the mouse with whether a button
/// went down and where, or anything else.
#[derive(Debug, Clone, Copy, PartialEq, Eq, Structural)]
pub enum InputEvent {
    Key { code: Key, pressed: bool },
    Mouse { down: bool, column: u16, row: u16 },
    Other,
}

/// How a turn ended: the game goes on under a new title, with a message for
/// the log where there is one, or the player quit.
#[derive(Debug)]
pub enum TurnOutcome {
    Continue { title: String, message: Option<String> },
    Quit,
}

/// The instructions shown to the player.
pub const INSTRUCTIONS: &'static str =
    "Press 'S', or 's' to solve.\nPress 'Q', 'q', or <Esc> to quit.\nTo make a move:\n1. Mouse click in square, or\n2. Arrows to move and <Space> or <Enter> to select.";

/// The position of row `row` of the drawn board: under the board's origin.
pub open spec fn board_row_origin(settings: RenderSettings, row: int) -> Coord {
    Coord { x: settings.board_origin().x, y: (settings.board_origin().y + row) as usize }
}

/// What draws the first `count` rows of the board, each under its rule.
pub open spec fn board_rows_ops(
    settings: RenderSettings,
    cells: Map<Coord, TBCell>,
    size: nat,
    count: nat,
) -> Seq<DrawOpView>
    decreases count,
{
    if count == 0 {
        Seq::<DrawOpView>::empty()
    } else {
        let r = (count - 1) as nat;
        board_rows_ops(settings, cells, size, r) + line_ops(
            board_row_origin(settings, 2 * r as int),
            if r == 0 {
                rule(size, '╭', '┬', '╮')
            } else {
                rule(size, '├', '┼', '┤')
            },
        ) + line_ops(board_row_origin(settings, 2 * r as int + 1), row_text(cells, size, r as usize))
    }
}

/// What draws a frame of the game: the title, the rows of the board under
/// their rules, and the bottom rule.
pub open spec fn frame_ops(
    settings: RenderSettings,
    cells: Map<Coord, TBCell>,
    size: nat,
    title: Seq<char>,
) -> Seq<DrawOpView> {
    line_ops(settings.title_origin(), title) + board_rows_ops(settings, cells, size, size)
        + line_ops(board_row_origin(settings, 2 * size as int), rule(size, '╰', '┴', '╯'))
}

/// What draws the game under `title`.
pub fn render_board(term: &CxTerm, game: &TBGame, title: &str) -> (ops: Vec<DrawOp>)
    requires
        term.settings().board_origin().y + 2 * game.board.side() <= usize::MAX,
    ensures
        op_views(ops@) == frame_ops(term.settings(), game.board@, game.board.side() as nat, title@),
{
    let board_size = game.board.get_size();
    let ghost settings = term.settings();
    let ghost cells = game.board@;
    let mut ops = term.write_title(title);
    let ghost head = op_views(ops@);
    assert(head + board_rows_ops(settings, cells, board_size as nat, 0) =~= head);
    let mut board_row: usize = 0;
    while board_row < board_size
        invariant
            board_row <= board_size,
            board_size == game.board.side(),
            settings == term.settings(),
            cells == game.board@,
            settings.board_origin().y + 2 * board_size <= usize::MAX,
            op_views(ops@) == head + board_rows_ops(
                settings,
                cells,
                board_size as nat,
                board_row as nat,
            ),
        decreases board_size - board_row,
    {
        let rendered_board_row: usize = board_row * 2;
        let rule_ops = if board_row == 0 {
            term.write_rendered_board_row(rendered_board_row, game.board.render_board_top().as_str())
        } else {
            term.write_rendered_board_row(
                rendered_board_row,
                game.board.render_board_row_sep().as_str(),
            )
        };
        let row_ops = term.write_rendered_board_row(
            rendered_board_row + 1,
            game.board.render_board_row(board_row).as_str(),
        );
        ops = joined(joined(ops, rule_ops), row_ops);
        board_row += 1;
        assert(op_views(ops@) =~= head + board_rows_ops(
            settings,
            cells,
            board_size as nat,
            board_row as nat,
        ));
    }
    let bottom_ops = term.write_rendered_board_row(
        board_size * 2,
        game.board.render_board_bottom().as_str(),
    );
    ops = joined(ops, bottom_ops);
    ops
}

/// The title after a target was toggled: the number of occupied cells, and
/// the words " fields marked".
pub open spec fn marked_title(count: nat) -> Seq<char> {
    decimal(count) + " fields marked"@
}

/// Plays one turn: toggles the target, or searches the bombs, as the player
/// asked. A target off the board is refused, and the board stays as it was.
pub fn play_turn(game: &mut TBGame, action: &GameAction) -> (result: Result<TurnOutcome, TBError>)
    ensures
        final(game).board.side() == old(game).board.side(),
        match *action {
            GameAction::MarkTarget(coord) => {
                &&& final(game).board@ == marked(old(game).board@, old(game).board.side(), coord)
                &&& if on_board(coord, old(game).board.side()) {
                    &&& result matches Ok(TurnOutcome::Continue { title, message })
                    &&& title@ == marked_title(final(game).board@.dom().len())
                    &&& message is None
                } else {
                    &&& result matches Err(error)
                    &&& error == TBError::InvalidCellPosition(coord)
                }
            },
            GameAction::Solve => {
                let cells = old(game).board@;
                let side = old(game).board.side();
                if exists|first: Coord, second: Coord| is_solution(cells.dom(), side, first, second) {
                    &&& exists|first: Coord, second: Coord|
                        {
                            &&& is_solution(cells.dom(), side, first, second)
                            &&& final(game).board@ == cells.insert(first, TBCell::Bomb).insert(
                                second,
                                TBCell::Bomb,
                            )
                        }
                    &&& result matches Ok(TurnOutcome::Continue { title, message })
                    &&& title@ == "Solution found!"@
                    &&& message matches Some(text)
                    &&& text@ == "Solution found!"@
                } else {
                    &&& final(game).board@ == cells
                    &&& result matches Ok(TurnOutcome::Continue { title, message })
                    &&& title@ == "No solution found!"@
                    &&& message matches Some(text)
                    &&& text@ == "No solution found!"@
                }
            },
            GameAction::Quit => {
                &&& final(game).board@ == old(game).board@
                &&& result matches Ok(TurnOutcome::Quit)
            },
        },
{
    match action {
        GameAction::MarkTarget(coord) => {
            match game.board.mark_target(coord) {
                Ok(_) => {
                    let mut title = decimal_string(game.board.len());
                    title.append(" fields marked");
                    Ok(TurnOutcome::Continue { title, message: None })
                },
                Err(error) => Err(error),
            }
        },
        GameAction::Solve => {
            match game.board.find_bombs() {
                Some((first, second)) => {
                    assert(is_solution(
                        old(game).board@.dom(),
                        old(game).board.side(),
                        first,
                        second,
                    ));
                    Ok(
                        TurnOutcome::Continue {
                            title: String::from_str("Solution found!"),
                            message: Some(String::from_str("Solution found!")),
                        },
                    )
                },
                None => Ok(
                    TurnOutcome::Continue {
                        title: String::from_str("No solution found!"),
                        message: Some(String::from_str("No solution found!")),
                    },
                ),
            }
        },
        GameAction::Quit => Ok(TurnOutcome::Quit),
    }
}

} // verus!
