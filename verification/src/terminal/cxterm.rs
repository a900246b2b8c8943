//! The state of the game's screen: its layout and the cell under the cursor.
//! Nothing here writes: each drawing is returned as the list of instructions
//! that whoever holds the terminal sends to it, in their order.

use vstd::prelude::*;
use vstd::string::StringExecFns;
use crate::coord::Coord;
use crate::terminal::settings::RenderSettings;
use crate::terminal::{GameAction, InputEvent, Key};
use crate::text::{lines_of, split_lines};

verus! {

/// The number of lines of the message log.
pub const MAX_MSGLOG_LINES: usize = 4;

/// One instruction for the terminal.
#[derive(Debug)]
pub enum DrawOp {
    EnterAlternateScreen,
    LeaveAlternateScreen,
    EnableMouseCapture,
    DisableMouseCapture,
    HideCursor,
    ShowCursor,
    EnableBlinking,
    ClearAll,
    ClearCurrentLine,
    /// Move the cursor to a column and a row.
    MoveTo(u16, u16),
    Print(String),
}

/// An instruction with its text as a sequence of characters.
pub enum DrawOpView {
    EnterAlternateScreen,
    LeaveAlternateScreen,
    EnableMouseCapture,
    DisableMouseCapture,
    HideCursor,
    ShowCursor,
    EnableBlinking,
    ClearAll,
    ClearCurrentLine,
    MoveTo(u16, u16),
    Print(Seq<char>),
}

impl View for DrawOp {
    type V = DrawOpView;

    open spec fn view(&self) -> DrawOpView {
        match *self {
            DrawOp::EnterAlternateScreen => DrawOpView::EnterAlternateScreen,
            DrawOp::LeaveAlternateScreen => DrawOpView::LeaveAlternateScreen,
            DrawOp::EnableMouseCapture => DrawOpView::EnableMouseCapture,
            DrawOp::DisableMouseCapture => DrawOpView::DisableMouseCapture,
            DrawOp::HideCursor => DrawOpView::HideCursor,
            DrawOp::ShowCursor => DrawOpView::ShowCursor,
            DrawOp::EnableBlinking => DrawOpView::EnableBlinking,
            DrawOp::ClearAll => DrawOpView::ClearAll,
            DrawOp::ClearCurrentLine => DrawOpView::ClearCurrentLine,
            DrawOp::MoveTo(column, row) => DrawOpView::MoveTo(column, row),
            DrawOp::Print(text) => DrawOpView::Print(text@),
        }
    }
}

/// The instructions of `ops`, one for one, by their views.
pub open spec fn op_views(ops: Seq<DrawOp>) -> Seq<DrawOpView> {
    ops.map_values(|op: DrawOp| op@)
}

/// A column or row as the terminal counts it: in sixteen bits, so that
/// larger numbers wrap round.
pub open spec fn screen_index(index: usize) -> u16 {
    (index % 0x1_0000) as u16
}

/// The instruction that moves the cursor to `coord`.
pub open spec fn move_to(coord: Coord) -> DrawOpView {
    DrawOpView::MoveTo(screen_index(coord.x), screen_index(coord.y))
}

/// What clears the line of `coord`: the cursor moves there, and its line is
/// cleared.
pub open spec fn clear_line_ops(coord: Coord) -> Seq<DrawOpView> {
    seq![move_to(coord), DrawOpView::ClearCurrentLine]
}

/// What draws `text` at `coord`: the line is cleared, then the cursor moves
/// to `coord` and the text is printed.
pub open spec fn line_ops(coord: Coord, text: Seq<char>) -> Seq<DrawOpView> {
    clear_line_ops(coord) + seq![move_to(coord), DrawOpView::Print(text)]
}

/// What shows the cursor at `coord`, blinking.
pub open spec fn blink_cursor_ops(coord: Coord) -> Seq<DrawOpView> {
    seq![move_to(coord), DrawOpView::ShowCursor, DrawOpView::EnableBlinking]
}

/// What prepares the terminal for the game: the alternate screen, the mouse,
/// no cursor, and a cleared screen.
pub open spec fn reset_display_ops() -> Seq<DrawOpView> {
    seq![
        DrawOpView::EnterAlternateScreen,
        DrawOpView::EnableMouseCapture,
        DrawOpView::HideCursor,
        DrawOpView::ClearAll,
    ]
}

/// What gives the terminal back after the game.
pub open spec fn restore_display_ops() -> Seq<DrawOpView> {
    seq![
        DrawOpView::ShowCursor,
        DrawOpView::DisableMouseCapture,
        DrawOpView::LeaveAlternateScreen,
    ]
}

/// The position of a cell after a move, held on a board of side `size`.
pub open spec fn clamped(cell: Coord, size: usize) -> Coord {
    Coord {
        x: if cell.x > size - 1 {
            (size - 1) as usize
        } else {
            cell.x
        },
        y: if cell.y > size - 1 {
            (size - 1) as usize
        } else {
            cell.y
        },
    }
}

/// Where line `num` of the message log is drawn.
pub open spec fn msglog_row(settings: RenderSettings, num: int) -> Coord {
    settings.msglog_origin().moved_by(Coord { x: 0, y: num as usize })
}

/// What clears the first `count` lines of the message log.
pub open spec fn clear_lines_ops(settings: RenderSettings, count: nat) -> Seq<DrawOpView>
    decreases count,
{
    if count == 0 {
        Seq::<DrawOpView>::empty()
    } else {
        clear_lines_ops(settings, (count - 1) as nat) + clear_line_ops(
            msglog_row(settings, count - 1),
        )
    }
}

/// What clears the message log: each of its lines is cleared.
pub open spec fn clear_msglog_ops(settings: RenderSettings) -> Seq<DrawOpView> {
    clear_lines_ops(settings, MAX_MSGLOG_LINES as nat)
}

/// What draws the first `count` of `lines` into the message log.
pub open spec fn msglog_lines_ops(
    settings: RenderSettings,
    lines: Seq<Seq<char>>,
    count: nat,
) -> Seq<DrawOpView>
    decreases count,
{
    if count == 0 {
        Seq::<DrawOpView>::empty()
    } else {
        msglog_lines_ops(settings, lines, (count - 1) as nat) + line_ops(
            msglog_row(settings, count - 1),
            lines[count - 1],
        )
    }
}

/// How many lines of a message are drawn: all of them, up to the size of the
/// message log.
pub open spec fn msglog_count(lines: Seq<Seq<char>>) -> nat {
    if lines.len() < MAX_MSGLOG_LINES {
        lines.len()
    } else {
        MAX_MSGLOG_LINES as nat
    }
}

/// The instruction that moves the cursor to `coord`.
fn move_cursor_to(coord: &Coord) -> (op: DrawOp)
    ensures
        op@ == move_to(*coord),
{
    DrawOp::MoveTo((coord.x % 0x1_0000) as u16, (coord.y % 0x1_0000) as u16)
}

/// The instructions of `first` and then those of `second`.
pub fn joined(first: Vec<DrawOp>, second: Vec<DrawOp>) -> (both: Vec<DrawOp>)
    ensures
        op_views(both@) == op_views(first@) + op_views(second@),
{
    let mut both = first;
    let mut rest = second;
    both.append(&mut rest);
    assert(op_views(both@) =~= op_views(first@) + op_views(second@));
    both
}

/// The cell to the left of `coord`.
fn one_left(coord: &Coord) -> (next: Coord)
    ensures
        next == coord.moved_back_by(Coord { x: 1, y: 0 }),
{
    *coord - Coord { x: 1, y: 0 }
}

/// The cell to the right of `coord`.
fn one_right(coord: &Coord) -> (next: Coord)
    ensures
        next == coord.moved_by(Coord { x: 1, y: 0 }),
{
    *coord + Coord { x: 1, y: 0 }
}

/// The cell above `coord`.
fn one_up(coord: &Coord) -> (next: Coord)
    ensures
        next == coord.moved_back_by(Coord { x: 0, y: 1 }),
{
    *coord - Coord { x: 0, y: 1 }
}

/// The cell below `coord`.
fn one_down(coord: &Coord) -> (next: Coord)
    ensures
        next == coord.moved_by(Coord { x: 0, y: 1 }),
{
    *coord + Coord { x: 0, y: 1 }
}

/// The screen of the game.
pub struct CxTerm {
    settings: RenderSettings,
    active_cell: Option<Coord>,
}

impl CxTerm {
    /// The layout of the screen.
    pub closed spec fn settings(&self) -> RenderSettings {
        self.settings
    }

    /// The cell under the cursor, once the cursor was moved.
    pub closed spec fn active_cell(&self) -> Option<Coord> {
        self.active_cell
    }

    /// The cell under the cursor: the first cell until the cursor is moved.
    pub open spec fn active_board_cell(&self) -> Coord {
        match self.active_cell() {
            Some(cell) => cell,
            None => Coord { x: 0, y: 0 },
        }
    }

    /// Whether `event` moves the cursor: an arrow key was pressed.
    pub open spec fn moves_cursor(event: InputEvent) -> bool {
        event matches InputEvent::Key { code, pressed: true } && (code == Key::Left || code
            == Key::Right || code == Key::Up || code == Key::Down)
    }

    /// The cell under the cursor after `event`: an arrow key that is pressed
    /// moves it by one cell, held on the board.
    pub open spec fn active_cell_after(&self, event: InputEvent) -> Option<Coord> {
        let active = self.active_board_cell();
        let size = self.settings().board_size();
        match event {
            InputEvent::Key { code: Key::Left, pressed: true } => Some(
                clamped(active.moved_back_by(Coord { x: 1, y: 0 }), size),
            ),
            InputEvent::Key { code: Key::Right, pressed: true } => Some(
                clamped(active.moved_by(Coord { x: 1, y: 0 }), size),
            ),
            InputEvent::Key { code: Key::Up, pressed: true } => Some(
                clamped(active.moved_back_by(Coord { x: 0, y: 1 }), size),
            ),
            InputEvent::Key { code: Key::Down, pressed: true } => Some(
                clamped(active.moved_by(Coord { x: 0, y: 1 }), size),
            ),
            _ => self.active_cell(),
        }
    }

    /// What `event` asks for, if anything: Enter or the space bar marks the
    /// cell under the cursor, a mouse button marks the cell under the mouse,
    /// `s` solves, `q` or Esc quits. Keys count when they are pressed.
    pub open spec fn action_of(&self, event: InputEvent) -> Option<GameAction> {
        match event {
            InputEvent::Key { code, pressed: true } => match code {
                Key::Enter => Some(GameAction::MarkTarget(self.active_board_cell())),
                Key::Esc => Some(GameAction::Quit),
                Key::Char(c) => if c == ' ' {
                    Some(GameAction::MarkTarget(self.active_board_cell()))
                } else if c == 's' || c == 'S' {
                    Some(GameAction::Solve)
                } else if c == 'q' || c == 'Q' {
                    Some(GameAction::Quit)
                } else {
                    None
                },
                _ => None,
            },
            InputEvent::Mouse { down: true, column, row } => Some(
                GameAction::MarkTarget(
                    self.settings().cell_at(Coord { x: column as usize, y: row as usize }),
                ),
            ),
            _ => None,
        }
    }

    /// A screen with the given layout, the cursor not yet moved.
    pub fn new(settings: RenderSettings) -> (term: CxTerm)
        ensures
            term.settings() == settings,
            term.active_cell() is None,
    {
        CxTerm { settings, active_cell: None }
    }

    /// The layout of the screen.
    pub fn get_settings(&self) -> (settings: &RenderSettings)
        ensures
            *settings == self.settings(),
    {
        &self.settings
    }

    /// What prepares the terminal for the game.
    pub fn reset_display(&self) -> (ops: Vec<DrawOp>)
        ensures
            op_views(ops@) == reset_display_ops(),
    {
        let mut ops = Vec::new();
        ops.push(DrawOp::EnterAlternateScreen);
        ops.push(DrawOp::EnableMouseCapture);
        ops.push(DrawOp::HideCursor);
        ops.push(DrawOp::ClearAll);
        assert(op_views(ops@) =~= reset_display_ops());
        ops
    }

    /// What gives the terminal back after the game.
    pub fn restore_display(&self) -> (ops: Vec<DrawOp>)
        ensures
            op_views(ops@) == restore_display_ops(),
    {
        let mut ops = Vec::new();
        ops.push(DrawOp::ShowCursor);
        ops.push(DrawOp::DisableMouseCapture);
        ops.push(DrawOp::LeaveAlternateScreen);
        assert(op_views(ops@) =~= restore_display_ops());
        ops
    }

    /// What clears the line of `coord`.
    pub fn clear_line(&self, coord: &Coord) -> (ops: Vec<DrawOp>)
        ensures
            op_views(ops@) == clear_line_ops(*coord),
    {
        let mut ops = Vec::new();
        ops.push(move_cursor_to(coord));
        ops.push(DrawOp::ClearCurrentLine);
        assert(op_views(ops@) =~= clear_line_ops(*coord));
        ops
    }

    /// What draws `text` at `coord`.
    pub fn draw_line(&self, coord: &Coord, text: &str) -> (ops: Vec<DrawOp>)
        ensures
            op_views(ops@) == line_ops(*coord, text@),
    {
        let mut ops = self.clear_line(coord);
        let ghost cleared = ops@;
        let print = DrawOp::Print(String::from_str(text));
        assert(print@ == DrawOpView::Print(text@));
        ops.push(move_cursor_to(coord));
        ops.push(print);
        assert(op_views(ops@) =~= op_views(cleared) + seq![move_to(*coord), print@]);
        ops
    }

    /// What draws the title.
    pub fn write_title(&self, title: &str) -> (ops: Vec<DrawOp>)
        ensures
            op_views(ops@) == line_ops(self.settings().title_origin(), title@),
    {
        self.draw_line(&self.settings.get_title_origin(), title)
    }

    /// What draws the status line.
    pub fn write_status(&self, status: &str) -> (ops: Vec<DrawOp>)
        requires
            self.settings().status_row() <= usize::MAX,
        ensures
            op_views(ops@) == line_ops(self.settings().status_origin(), status@),
    {
        self.draw_line(&self.settings.get_status_origin(), status)
    }

    /// What clears the message log.
    pub fn clear_msglog(&self) -> (ops: Vec<DrawOp>)
        requires
            self.settings().status_row() <= usize::MAX,
        ensures
            op_views(ops@) == clear_msglog_ops(self.settings()),
    {
        let mut ops: Vec<DrawOp> = Vec::new();
        let mut num: usize = 0;
        assert(op_views(ops@) =~= clear_lines_ops(self.settings(), 0));
        while num < MAX_MSGLOG_LINES
            invariant
                num <= MAX_MSGLOG_LINES,
                self.settings().status_row() <= usize::MAX,
                op_views(ops@) == clear_lines_ops(self.settings(), num as nat),
            decreases MAX_MSGLOG_LINES - num,
        {
            let coord = self.settings.get_msglog_origin() + Coord { x: 0, y: num };
            ops = joined(ops, self.clear_line(&coord));
            num += 1;
        }
        ops
    }

    /// What writes `status` into the message log: the log is cleared, then
    /// the lines of `status` are drawn, as many as the log has lines.
    pub fn write_msglog(&self, status: &str) -> (ops: Vec<DrawOp>)
        requires
            self.settings().status_row() <= usize::MAX,
        ensures
            op_views(ops@) == clear_msglog_ops(self.settings()) + msglog_lines_ops(
                self.settings(),
                lines_of(status@),
                msglog_count(lines_of(status@)),
            ),
    {
        let mut ops = self.clear_msglog();
        let ghost cleared = op_views(ops@);
        let lines = split_lines(status);
        let ghost texts = lines_of(status@);
        assert(cleared + msglog_lines_ops(self.settings(), texts, 0) =~= cleared);
        let mut num: usize = 0;
        while num < lines.len() && num < MAX_MSGLOG_LINES
            invariant
                num <= lines.len(),
                num <= MAX_MSGLOG_LINES,
                self.settings().status_row() <= usize::MAX,
                crate::text::texts(lines@) == texts,
                op_views(ops@) == cleared + msglog_lines_ops(self.settings(), texts, num as nat),
            decreases lines.len() - num,
        {
            let coord = self.settings.get_msglog_origin() + Coord { x: 0, y: num };
            assert(crate::text::texts(lines@)[num as int] == lines@[num as int]@);
            ops = joined(ops, self.draw_line(&coord, lines[num].as_str()));
            num += 1;
            assert(op_views(ops@) =~= cleared + msglog_lines_ops(
                self.settings(),
                texts,
                num as nat,
            ));
        }
        assert(texts.len() == lines@.len());
        ops
    }

    /// What draws `line_draw` as row `row` of the drawn board.
    pub fn write_rendered_board_row(&self, row: usize, line_draw: &str) -> (ops: Vec<DrawOp>)
        requires
            self.settings().board_origin().y + row <= usize::MAX,
        ensures
            op_views(ops@) == line_ops(
                crate::terminal::board_row_origin(self.settings(), row as int),
                line_draw@,
            ),
    {
        let mut board_row_origin = self.settings.get_board_origin();
        board_row_origin.y += row;
        self.draw_line(&board_row_origin, line_draw)
    }

    /// What shows the cursor at `coord`, blinking.
    pub fn blink_cursor(&self, coord: &Coord) -> (ops: Vec<DrawOp>)
        ensures
            op_views(ops@) == blink_cursor_ops(*coord),
    {
        let mut ops = Vec::new();
        ops.push(move_cursor_to(coord));
        ops.push(DrawOp::ShowCursor);
        ops.push(DrawOp::EnableBlinking);
        assert(op_views(ops@) =~= blink_cursor_ops(*coord));
        ops
    }

    /// What hides the cursor.
    pub fn hide_cursor(&self) -> (ops: Vec<DrawOp>)
        ensures
            op_views(ops@) == seq![DrawOpView::HideCursor],
    {
        let mut ops = Vec::new();
        ops.push(DrawOp::HideCursor);
        assert(op_views(ops@) =~= seq![DrawOpView::HideCursor]);
        ops
    }

    /// The cell under the cursor: the first cell until the cursor is moved.
    pub fn get_active_board_cell(&self) -> (cell: Coord)
        ensures
            cell == self.active_board_cell(),
    {
        match self.active_cell {
            Some(cell) => cell,
            None => Coord::default(),
        }
    }

    /// Moves the cursor to the cell that `update` gives for the cell under the
    /// cursor, held on the board.
    pub fn update_active_board_cell<F: Fn(&Coord) -> Coord>(&mut self, update: F)
        requires
            old(self).settings().board_size() > 0,
            call_requires(update, (&old(self).active_board_cell(),)),
        ensures
            final(self).settings() == old(self).settings(),
            exists|next: Coord|
                {
                    &&& call_ensures(update, (&old(self).active_board_cell(),), next)
                    &&& final(self).active_cell() == Some(
                        clamped(next, old(self).settings().board_size()),
                    )
                },
    {
        let active = self.get_active_board_cell();
        let board_size = self.settings.get_board_size();
        let mut next = update(&active);
        let ghost given = next;

        if next.x > board_size - 1 {
            next.x = board_size - 1;
        }

        if next.y > board_size - 1 {
            next.y = board_size - 1;
        }

        self.active_cell = Some(next);
        assert(call_ensures(update, (&old(self).active_board_cell(),), given));
        assert(self.active_cell() == Some(clamped(given, old(self).settings().board_size())));
    }

    /// Takes one event of the terminal: an arrow key moves the cursor, and
    /// what else the game reads is returned as the player's wish.
    pub fn get_game_action(&mut self, event: &InputEvent) -> (action: Option<GameAction>)
        requires
            Self::moves_cursor(*event) ==> old(self).settings().board_size() > 0,
        ensures
            final(self).settings() == old(self).settings(),
            final(self).active_cell() == old(self).active_cell_after(*event),
            action == old(self).action_of(*event),
    {
        let active_cell = self.get_active_board_cell();
        match event {
            InputEvent::Key { code, pressed } => {
                if !*pressed {
                    return None;
                }
                match code {
                    Key::Left => {
                        self.update_active_board_cell(one_left);
                        None
                    },
                    Key::Right => {
                        self.update_active_board_cell(one_right);
                        None
                    },
                    Key::Up => {
                        self.update_active_board_cell(one_up);
                        None
                    },
                    Key::Down => {
                        self.update_active_board_cell(one_down);
                        None
                    },
                    Key::Enter => Some(GameAction::MarkTarget(active_cell)),
                    Key::Esc => Some(GameAction::Quit),
                    Key::Char(c) => {
                        if *c == ' ' {
                            Some(GameAction::MarkTarget(active_cell))
                        } else if *c == 's' || *c == 'S' {
                            Some(GameAction::Solve)
                        } else if *c == 'q' || *c == 'Q' {
                            Some(GameAction::Quit)
                        } else {
                            None
                        }
                    },
                    Key::Other => None,
                }
            },
            InputEvent::Mouse { down, column, row } => {
                if *down {
                    let game_coord = self.settings.term_coord_to_cell_coord(
                        &Coord { x: *column as usize, y: *row as usize },
                    );
                    Some(GameAction::MarkTarget(game_coord))
                } else {
                    None
                }
            },
            InputEvent::Other => None,
        }
    }
}

} // verus!
