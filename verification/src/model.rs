//! The editing engine as a state machine over mathematical values: what each
//! action does to the lines, the viewport, the cursor, the mode and the
//! pending command.

use vstd::prelude::*;
use crate::buffer::{line_with_char, line_with_text, line_without_char, lines_merged, lines_split};
use crate::command::{parse_spec, CommandView};
use crate::error::EditError;
use crate::mode::{command_prefix, Action, Mode};
use crate::text::join_lines;

verus! {

/// The state of a session.
///
/// `x` and `y` are the screen cursor. Outside command mode it stands in the
/// text area, on line `top + y` of the buffer. In command mode it stands on
/// the command row, and `saved_x`, `saved_y` keep the place in the text to
/// which it returns.
pub struct State {
    pub lines: Seq<Seq<char>>,
    pub file: Option<Seq<char>>,
    pub top: int,
    pub left: int,
    pub x: int,
    pub y: int,
    pub saved_x: int,
    pub saved_y: int,
    pub columns: int,
    pub rows: int,
    pub padding: int,
    pub mode: Mode,
    pub command: Seq<char>,
    pub running: bool,
}

/// What the host is asked to do after a step.
pub enum Request {
    /// Nothing.
    Nothing,
    /// Write `contents` to the file `path`.
    Save { path: Seq<char>, contents: Seq<char> },
    /// Read the file `path` and hand its text to the session.
    Load { path: Seq<char> },
}

/// The largest value of a screen coordinate.
pub open spec fn coordinate_max() -> int {
    u16::MAX as int
}

/// `n`, held at the largest screen coordinate.
pub open spec fn capped(n: int) -> int {
    if n > coordinate_max() {
        coordinate_max()
    } else {
        n
    }
}

/// The text that the tab key inserts: four spaces.
pub open spec fn tab_text() -> Seq<char> {
    seq![' ', ' ', ' ', ' ']
}

/// A pending command that holds the prefix only.
pub open spec fn fresh_command() -> Seq<char> {
    seq![command_prefix()]
}

impl State {
    /// The number of text rows: all rows but the status row and the command
    /// row.
    pub open spec fn height(self) -> int {
        self.rows - 2
    }

    /// The buffer line that the screen cursor stands on.
    pub open spec fn row(self) -> int {
        self.top + self.y
    }

    /// The text of the line that the screen cursor stands on.
    pub open spec fn line(self) -> Seq<char> {
        self.lines[self.row()]
    }

    /// The column at which an edit happens: the cursor column, held at the
    /// end of the line.
    pub open spec fn column(self) -> int {
        if self.x > self.line().len() {
            self.line().len() as int
        } else {
            self.x
        }
    }

    /// Whether a cursor at screen row `y` stands on a text row that shows a
    /// line of the buffer.
    pub open spec fn on_text(self, y: int) -> bool {
        0 <= y < self.height() && self.top + y < self.lines.len()
    }

    /// The invariant of a session: at least one line; room for one text row;
    /// the padding fits the text area; every coordinate is a screen
    /// coordinate; the pending command starts with the prefix; and the cursor
    /// (in command mode: the saved cursor) stands on a line of the buffer.
    pub open spec fn valid(self) -> bool {
        &&& self.lines.len() >= 1
        &&& 0 <= self.columns <= coordinate_max()
        &&& 3 <= self.rows <= coordinate_max()
        &&& 1 <= self.padding <= self.height()
        &&& 0 <= self.top <= coordinate_max()
        &&& self.left == 0
        &&& 0 <= self.x <= coordinate_max()
        &&& 0 <= self.y <= coordinate_max()
        &&& 0 <= self.saved_x <= coordinate_max()
        &&& 0 <= self.saved_y <= coordinate_max()
        &&& self.command.len() >= 1
        &&& self.command[0] == command_prefix()
        &&& if self.mode == Mode::Command {
            self.y == self.rows && self.on_text(self.saved_y)
        } else {
            self.on_text(self.y)
        }
    }

    /// Up: above the padding the viewport scrolls up instead of the cursor,
    /// unless it already shows the first line; the cursor never leaves the
    /// first row upwards.
    pub open spec fn up(self) -> State {
        if self.y < self.padding && self.top > 0 {
            State { top: self.top - 1, ..self }
        } else if self.y > 0 {
            State { y: self.y - 1, ..self }
        } else {
            self
        }
    }

    /// Whether the last line of the buffer is on the screen, so that there is
    /// nothing to scroll down to.
    pub open spec fn shows_last_line(self) -> bool {
        self.height() >= self.lines.len() - self.top
    }

    /// Down: nothing below the last line. While the last line is on the
    /// screen, or the cursor is above the bottom padding, the cursor moves;
    /// otherwise the viewport scrolls and the cursor keeps its row.
    pub open spec fn down(self) -> State {
        if self.row() + 1 >= self.lines.len() {
            self
        } else if self.shows_last_line() || self.y < self.height() - self.padding {
            State { y: self.y + 1, ..self }
        } else if self.top < coordinate_max() {
            State { top: self.top + 1, ..self }
        } else {
            self
        }
    }

    /// Left: one column, not below the left edge of the viewport.
    pub open spec fn left_step(self) -> State {
        let x = if self.x > 0 {
            self.x - 1
        } else {
            0
        };
        State { x: if x < self.left { self.left } else { x }, ..self }
    }

    /// Right: one column; the line's length is no limit.
    pub open spec fn right_step(self) -> State {
        State { x: capped(self.x + 1), ..self }
    }

    /// A movement, which the text cursor makes outside command mode only.
    pub open spec fn moved(self, action: Action) -> State {
        if self.mode == Mode::Command {
            self
        } else {
            match action {
                Action::MoveUp => self.up(),
                Action::MoveDown => self.down(),
                Action::MoveLeft => self.left_step(),
                Action::MoveRight => self.right_step(),
                _ => self,
            }
        }
    }

    /// Typing `c`: in insert mode it goes into the line at the cursor column
    /// and the cursor steps over it; in command mode it goes to the end of the
    /// pending command.
    pub open spec fn typed(self, c: char) -> State {
        match self.mode {
            Mode::Normal => self,
            Mode::Insert => State {
                lines: self.lines.update(self.row(), line_with_char(self.line(), self.column(), c)),
                x: capped(self.column() + 1),
                ..self
            },
            Mode::Command => State {
                command: self.command.push(c),
                x: capped(self.command.len() as int + 1),
                ..self
            },
        }
    }

    /// The tab key: in insert mode, four spaces at the cursor column.
    pub open spec fn tabbed(self) -> State {
        if self.mode == Mode::Insert {
            State {
                lines: self.lines.update(
                    self.row(),
                    line_with_text(self.line(), self.column(), tab_text()),
                ),
                x: capped(self.column() + 4),
                ..self
            }
        } else {
            self
        }
    }

    /// Backspace in insert mode: the character before the cursor goes; at
    /// column 0 of a row below the first the line joins the one above, and
    /// the cursor goes to where that one ended; at column 0 of the first row
    /// nothing goes.
    pub open spec fn erased(self) -> State {
        if self.column() > 0 {
            State {
                lines: self.lines.update(
                    self.row(),
                    line_without_char(self.line(), self.column()),
                ),
                x: self.column() - 1,
                ..self
            }
        } else if self.y > 0 {
            State {
                lines: lines_merged(self.lines, self.row()),
                x: capped(self.lines[self.row() - 1].len() as int),
                y: self.y - 1,
                ..self
            }
        } else {
            State { x: 0, ..self }
        }
    }

    /// Backspace: in command mode the last character of the pending command
    /// goes, but never the prefix.
    pub open spec fn backspaced(self) -> State {
        match self.mode {
            Mode::Normal => self,
            Mode::Insert => self.erased(),
            Mode::Command => if self.command.len() > 1 {
                State {
                    command: self.command.drop_last(),
                    x: if self.x > 0 {
                        self.x - 1
                    } else {
                        0
                    },
                    ..self
                }
            } else {
                self
            },
        }
    }

    /// Enter in insert mode: the line breaks at the cursor column, and the
    /// cursor goes down, as `down` goes, to column 0 of the new line.
    pub open spec fn broken(self) -> State {
        State { x: 0, ..(State {
            lines: lines_split(self.lines, self.row(), self.column()),
            ..self
        }).down() }
    }

    /// Changing the mode. Entering command mode keeps the place in the text,
    /// puts the cursor at the start of the command row and starts a fresh
    /// command; leaving it puts the cursor back.
    pub open spec fn switched(self, mode: Mode) -> State {
        if mode == Mode::Command {
            if self.mode == Mode::Command {
                State { x: 0, command: fresh_command(), ..self }
            } else {
                State {
                    saved_x: self.x,
                    saved_y: self.y,
                    x: 0,
                    y: self.rows,
                    command: fresh_command(),
                    mode,
                    ..self
                }
            }
        } else if self.mode == Mode::Command {
            State { x: self.saved_x, y: self.saved_y, mode, ..self }
        } else {
            State { mode, ..self }
        }
    }

    /// Enter in command mode: the pending command is carried out, the command
    /// line is fresh again, and the session is back in normal mode.
    pub open spec fn submitted(self) -> State {
        let back = State { command: fresh_command(), ..self.switched(Mode::Normal) };
        match parse_spec(self.command) {
            CommandView::Quit => State { running: false, ..back },
            CommandView::WriteAs(name) => State { file: Some(name), ..back },
            _ => back,
        }
    }

    /// What a submitted command asks of the host, or the failure it ends in.
    pub open spec fn submission(self) -> Result<Request, EditError> {
        match parse_spec(self.command) {
            CommandView::Write => match self.file {
                Some(path) => Ok(Request::Save { path, contents: join_lines(self.lines) }),
                None => Err(EditError::NoFileName),
            },
            CommandView::WriteAs(name) => Ok(
                Request::Save { path: name, contents: join_lines(self.lines) },
            ),
            CommandView::Edit(name) => Ok(Request::Load { path: name }),
            _ => Ok(Request::Nothing),
        }
    }

    /// Enter: in normal mode the cursor goes down; in insert mode the line
    /// breaks; in command mode the command is carried out.
    pub open spec fn entered(self) -> State {
        match self.mode {
            Mode::Normal => self.down(),
            Mode::Insert => self.broken(),
            Mode::Command => self.submitted(),
        }
    }

    /// The state after `action`.
    pub open spec fn step(self, action: Action) -> State {
        match action {
            Action::Typing(c) => self.typed(c),
            Action::EnterKey => self.entered(),
            Action::TabKey => self.tabbed(),
            Action::Backspace => self.backspaced(),
            Action::SetMode(mode) => self.switched(mode),
            _ => self.moved(action),
        }
    }

    /// What `action` asks of the host: nothing, unless it submits a command.
    pub open spec fn outcome(self, action: Action) -> Result<Request, EditError> {
        if action == Action::EnterKey && self.mode == Mode::Command {
            self.submission()
        } else {
            Ok(Request::Nothing)
        }
    }

    /// The state after the text of the file `name` replaced the buffer: the
    /// viewport and the cursor are back at the start of the text.
    pub open spec fn loaded(self, name: Seq<char>, text: Seq<char>) -> State {
        let fresh = State {
            lines: crate::text::split_lines(text),
            file: Some(name),
            top: 0,
            ..self
        };
        if self.mode == Mode::Command {
            State { saved_x: 0, saved_y: 0, ..fresh }
        } else {
            State { x: 0, y: 0, ..fresh }
        }
    }

    /// The state after a run of actions.
    pub open spec fn run(self, actions: Seq<Action>) -> State
        decreases actions.len(),
    {
        if actions.len() == 0 {
            self
        } else {
            self.run(actions.drop_last()).step(actions.last())
        }
    }
}

} // verus!
