//! The session: the buffer, the viewport, the cursor, the mode and the bars,
//! driven by key presses. The host paints the screen, reads the keys and
//! touches the files; everything else happens here.

use vstd::prelude::*;
use vstd::string::*;
use crate::buffer::{Buffer, SaveRequest};
use crate::command::{parse_command, Command};
use crate::command_bar::CommandBar;
use crate::config::CommandBarSettings;
use crate::error::EditError;
use crate::laws::{lemma_loaded_keeps_valid, lemma_step_keeps_valid};
use crate::mode::{command_action, insert_action, key_action, normal_action, Action, Key, Mode};
use crate::model::{tab_text, Request, State};
use crate::modules::BarModule;
use crate::status_bar::StatusBar;
use crate::text::{decimal, decimal_string, lemma_decimal_u64};

verus! {

/// What the host is asked to do after a step.
pub enum Effect {
    /// Nothing.
    Nothing,
    /// Write a file.
    Save(SaveRequest),
    /// Read the named file and hand its text to `Editor::load_file`.
    Load(String),
}

impl View for Effect {
    type V = Request;

    open spec fn view(&self) -> Request {
        match self {
            Effect::Nothing => Request::Nothing,
            Effect::Save(request) => Request::Save {
                path: request.path@,
                contents: request.contents@,
            },
            Effect::Load(path) => Request::Load { path: path@ },
        }
    }
}

/// The view of what a step returns.
pub open spec fn outcome_view(r: Result<Effect, EditError>) -> Result<Request, EditError> {
    match r {
        Ok(effect) => Ok(effect@),
        Err(e) => Err(e),
    }
}

/// A session of the editor.
pub struct Editor {
    pub buffer: Buffer,
    pub viewport_top: u16,
    pub viewport_left: u16,
    pub cursor_x: u16,
    pub cursor_y: u16,
    pub saved_x: u16,
    pub saved_y: u16,
    pub running: bool,
    pub size: (u16, u16),
    pub mode: Mode,
    pub enable_status_bar: bool,
    pub status_bar: StatusBar,
    pub command_bar: CommandBar,
    pub scrolling_padding: u16,
}

impl View for Editor {
    type V = State;

    open spec fn view(&self) -> State {
        State {
            lines: self.buffer@.lines,
            file: self.buffer@.file,
            top: self.viewport_top as int,
            left: self.viewport_left as int,
            x: self.cursor_x as int,
            y: self.cursor_y as int,
            saved_x: self.saved_x as int,
            saved_y: self.saved_y as int,
            columns: self.size.0 as int,
            rows: self.size.1 as int,
            padding: self.scrolling_padding as int,
            mode: self.mode,
            command: self.command_bar.command@,
            running: self.running,
        }
    }
}

/// One text row of the screen: the number of the line it shows, and the
/// line. A row below the end of the text has no number and no text.
pub struct ScreenRow {
    pub number: Option<String>,
    pub text: String,
}

/// The name shown for a buffer without a file.
pub open spec fn no_name() -> Seq<char> {
    "[No Name]"@
}

impl Editor {
    /// The invariant of a session.
    pub open spec fn wf(&self) -> bool {
        self@.valid()
    }

    /// Whether the bars of `self` look as those of `other` do.
    pub open spec fn same_bars(&self, other: &Editor) -> bool {
        &&& self.status_bar == other.status_bar
        &&& self.enable_status_bar == other.enable_status_bar
        &&& self.command_bar.background_color == other.command_bar.background_color
        &&& self.command_bar.font_color == other.command_bar.font_color
    }

    /// The state in which a session on `buffer` starts on a terminal of
    /// `size` columns and rows: normal mode, viewport and cursor at the start
    /// of the text, a padding of one row.
    pub open spec fn initial(buffer: crate::buffer::BufferView, size: (u16, u16)) -> State {
        State {
            lines: buffer.lines,
            file: buffer.file,
            top: 0,
            left: 0,
            x: 0,
            y: 0,
            saved_x: 0,
            saved_y: 0,
            columns: size.0 as int,
            rows: size.1 as int,
            padding: 1,
            mode: Mode::Normal,
            command: crate::model::fresh_command(),
            running: true,
        }
    }

    /// Starts a session on `buf` on a terminal of `size` columns and rows.
    /// Fails when the terminal has fewer than three rows.
    pub fn new(buf: Buffer, size: (u16, u16), settings: &CommandBarSettings) -> (r: Result<
        Editor,
        EditError,
    >)
        requires
            buf.wf(),
        ensures
            size.1 < 3 ==> r is Err && r->Err_0 == EditError::TerminalTooSmall,
            size.1 >= 3 ==> r is Ok && r->Ok_0.wf() && r->Ok_0@ == Self::initial(buf@, size)
                && r->Ok_0.enable_status_bar && r->Ok_0.status_bar.is_new()
                && r->Ok_0.command_bar.background_color == settings.background_color
                && r->Ok_0.command_bar.font_color == settings.font_color,
    {
        if size.1 < 3 {
            return Err(EditError::TerminalTooSmall);
        }
        Ok(
            Editor {
                buffer: buf,
                viewport_left: 0,
                viewport_top: 0,
                scrolling_padding: 1,
                cursor_x: 0,
                cursor_y: 0,
                saved_x: 0,
                saved_y: 0,
                running: true,
                size,
                mode: Mode::Normal,
                enable_status_bar: true,
                status_bar: StatusBar::new(),
                command_bar: CommandBar::new(settings),
            },
        )
    }

    /// Whether the session is valid. Every session that `new` made and that
    /// was changed through the functions of this type only is.
    pub fn is_valid(&self) -> (valid: bool)
        ensures
            valid == self.wf(),
    {
        let count = self.buffer.lines.len();
        if count < 1 || self.size.1 < 3 || self.viewport_left != 0 {
            return false;
        }
        let height = self.size.1 - 2;
        if self.scrolling_padding < 1 || self.scrolling_padding > height {
            return false;
        }
        let command = self.command_bar.command.as_str();
        if command.unicode_len() < 1 {
            return false;
        }
        if command.get_char(0) != ':' {
            return false;
        }
        let y = match self.mode {
            Mode::Command => {
                if self.cursor_y != self.size.1 {
                    return false;
                }
                self.saved_y
            },
            _ => self.cursor_y,
        };
        y < height && self.viewport_top as usize + (y as usize) < count
    }

    /// The number of text rows.
    pub fn viewport_height(&self) -> (height: usize)
        requires
            self.size.1 >= 2,
        ensures
            height == self.size.1 - 2,
    {
        self.size.1 as usize - 2
    }

    /// The number of columns.
    pub fn viewport_width(&self) -> (width: u16)
        ensures
            width == self.size.0,
    {
        self.size.0
    }

    /// The action that `key` stands for in the present mode.
    pub fn handel_event(&self, key: Key) -> (action: Option<Action>)
        ensures
            action == key_action(self.mode, key),
    {
        match self.mode {
            Mode::Normal => self.handle_normal_event(key),
            Mode::Insert => self.handle_insert_event(key),
            Mode::Command => self.handle_command_event(key),
        }
    }

    /// The action that `key` stands for in normal mode.
    pub fn handle_normal_event(&self, key: Key) -> (action: Option<Action>)
        ensures
            action == normal_action(key),
    {
        match key {
            Key::Char(c) => {
                if c == ':' {
                    Some(Action::SetMode(Mode::Command))
                } else if c == 'k' {
                    Some(Action::MoveUp)
                } else if c == 'j' {
                    Some(Action::MoveDown)
                } else if c == 'h' {
                    Some(Action::MoveLeft)
                } else if c == 'l' {
                    Some(Action::MoveRight)
                } else if c == 'i' {
                    Some(Action::SetMode(Mode::Insert))
                } else {
                    None
                }
            },
            Key::Up => Some(Action::MoveUp),
            Key::Down => Some(Action::MoveDown),
            Key::Left => Some(Action::MoveLeft),
            Key::Right => Some(Action::MoveRight),
            Key::Enter => Some(Action::EnterKey),
            _ => None,
        }
    }

    /// The action that `key` stands for in insert mode.
    pub fn handle_insert_event(&self, key: Key) -> (action: Option<Action>)
        ensures
            action == insert_action(key),
    {
        match key {
            Key::Char(v) => Some(Action::Typing(v)),
            Key::Esc => Some(Action::SetMode(Mode::Normal)),
            Key::Enter => Some(Action::EnterKey),
            Key::Tab => Some(Action::TabKey),
            Key::Backspace => Some(Action::Backspace),
            _ => None,
        }
    }

    /// The action that `key` stands for in command mode.
    pub fn handle_command_event(&self, key: Key) -> (action: Option<Action>)
        ensures
            action == command_action(key),
    {
        match key {
            Key::Char(v) => Some(Action::Typing(v)),
            Key::Esc => Some(Action::SetMode(Mode::Normal)),
            Key::Enter => Some(Action::EnterKey),
            Key::Backspace => Some(Action::Backspace),
            _ => None,
        }
    }

    /// The buffer line that the cursor stands on.
    fn cursor_line(&self) -> (line: usize)
        requires
            self.wf(),
            self.mode != Mode::Command,
        ensures
            line == self@.row(),
            line < self.buffer@.lines.len(),
    {
        self.viewport_top as usize + self.cursor_y as usize
    }

    /// The column at which an edit happens.
    fn edit_column(&self) -> (column: u16)
        requires
            self.wf(),
            self.mode != Mode::Command,
        ensures
            column == self@.column(),
            column <= self@.line().len(),
    {
        let len = self.buffer.line_len(self.cursor_line());
        if self.cursor_x as usize > len {
            len as u16
        } else {
            self.cursor_x
        }
    }

    /// Moves the cursor up, or scrolls up.
    fn move_up(&mut self)
        requires
            old(self).wf(),
            old(self).mode != Mode::Command,
        ensures
            final(self)@ == old(self)@.up(),
            final(self).same_bars(old(self)),
    {
        if self.cursor_y < self.scrolling_padding && self.viewport_top > 0 {
            self.viewport_top = self.viewport_top - 1;
        } else if self.cursor_y > 0 {
            self.cursor_y = self.cursor_y - 1;
        }
    }

    /// Moves the cursor down, or scrolls down.
    fn move_down(&mut self)
        requires
            old(self).wf(),
            old(self).mode != Mode::Command,
        ensures
            final(self)@ == old(self)@.down(),
            final(self).same_bars(old(self)),
    {
        let count = self.buffer.get_file_lenght();
        let top = self.viewport_top as usize;
        let height = self.viewport_height();
        if top + self.cursor_y as usize + 1 >= count {
            return ;
        }
        let shows_last_line = height >= count - top;
        if shows_last_line || (self.cursor_y as usize) < height - self.scrolling_padding as usize {
            self.cursor_y = self.cursor_y + 1;
        } else if self.viewport_top < u16::MAX {
            self.viewport_top = self.viewport_top + 1;
        }
    }

    /// Moves the cursor one column to the left.
    fn move_left(&mut self)
        requires
            old(self).wf(),
        ensures
            final(self)@ == old(self)@.left_step(),
            final(self).same_bars(old(self)),
    {
        self.cursor_x = self.cursor_x.saturating_sub(1);
        if self.cursor_x < self.viewport_left {
            self.cursor_x = self.viewport_left;
        }
    }

    /// Moves the cursor one column to the right.
    fn move_right(&mut self)
        requires
            old(self).wf(),
        ensures
            final(self)@ == old(self)@.right_step(),
            final(self).same_bars(old(self)),
    {
        self.cursor_x = self.cursor_x.saturating_add(1);
    }

    /// Takes a typed character into the line or into the pending command.
    fn handle_changing(&mut self, v: char)
        requires
            old(self).wf(),
        ensures
            final(self)@ == old(self)@.typed(v),
            final(self).same_bars(old(self)),
    {
        match self.mode {
            Mode::Insert => {
                let line = self.cursor_line();
                let column = self.edit_column();
                self.buffer.insert_char(line, column as usize, v);
                self.cursor_x = column.saturating_add(1);
            },
            Mode::Command => {
                let len = self.command_bar.command.as_str().unicode_len();
                self.cursor_x = if len >= u16::MAX as usize {
                    u16::MAX
                } else {
                    (len + 1) as u16
                };
                self.command_bar.command.push(v);
            },
            Mode::Normal => {},
        }
    }

    /// Inserts four spaces in insert mode.
    fn handle_tab(&mut self)
        requires
            old(self).wf(),
        ensures
            final(self)@ == old(self)@.tabbed(),
            final(self).same_bars(old(self)),
    {
        match self.mode {
            Mode::Insert => {
                let line = self.cursor_line();
                let column = self.edit_column();
                proof {
                    reveal_strlit("    ");
                    assert("    "@ =~= tab_text());
                }
                self.buffer.insert_text(line, column as usize, "    ");
                self.cursor_x = column.saturating_add(4);
            },
            _ => {},
        }
    }

    /// Deletes backwards in the line or in the pending command.
    fn handle_backspace(&mut self)
        requires
            old(self).wf(),
        ensures
            final(self)@ == old(self)@.backspaced(),
            final(self).same_bars(old(self)),
    {
        match self.mode {
            Mode::Command => {
                if self.command_bar.command.as_str().unicode_len() > 1 {
                    self.cursor_x = self.cursor_x.saturating_sub(1);
                    self.command_bar.command.pop();
                }
            },
            Mode::Insert => {
                let line = self.cursor_line();
                let column = self.edit_column();
                if column > 0 {
                    self.buffer.delete_char(line, column as usize);
                    self.cursor_x = column - 1;
                } else if self.cursor_y > 0 {
                    let len = self.buffer.line_len(line - 1);
                    self.buffer.merge_lines(line);
                    self.cursor_y = self.cursor_y - 1;
                    self.cursor_x = if len > u16::MAX as usize {
                        u16::MAX
                    } else {
                        len as u16
                    };
                } else {
                    self.cursor_x = 0;
                }
            },
            Mode::Normal => {},
        }
    }

    /// Changes the mode and moves the cursor between the text and the
    /// command row.
    fn set_mode(&mut self, mode: Mode)
        requires
            old(self).wf(),
        ensures
            final(self)@ == old(self)@.switched(mode),
            final(self).same_bars(old(self)),
    {
        match mode {
            Mode::Command => {
                if self.mode != Mode::Command {
                    self.saved_x = self.cursor_x;
                    self.saved_y = self.cursor_y;
                    self.cursor_y = self.size.1;
                }
                self.cursor_x = 0;
                self.command_bar.reset();
                self.mode = Mode::Command;
            },
            _ => {
                if self.mode == Mode::Command {
                    self.cursor_x = self.saved_x;
                    self.cursor_y = self.saved_y;
                }
                self.mode = mode;
            },
        }
    }

    /// Carries out the pending command and returns to normal mode.
    fn execute_command(&mut self) -> (r: Result<Effect, EditError>)
        requires
            old(self).wf(),
            old(self).mode == Mode::Command,
        ensures
            final(self)@ == old(self)@.submitted(),
            outcome_view(r) == old(self)@.submission(),
            final(self).same_bars(old(self)),
    {
        let command = parse_command(self.command_bar.command.as_str());
        self.set_mode(Mode::Normal);
        self.command_bar.reset();
        match command {
            Command::Quit => {
                self.running = false;
                Ok(Effect::Nothing)
            },
            Command::Write => match self.buffer.save() {
                Ok(request) => Ok(Effect::Save(request)),
                Err(e) => Err(e),
            },
            Command::WriteAs(name) => Ok(Effect::Save(self.buffer.save_by_name(name.as_str()))),
            Command::Edit(name) => Ok(Effect::Load(name)),
            Command::Unknown => Ok(Effect::Nothing),
        }
    }

    /// Moves down, breaks the line or submits the command, as the mode asks.
    fn handle_enter(&mut self) -> (r: Result<Effect, EditError>)
        requires
            old(self).wf(),
        ensures
            final(self)@ == old(self)@.entered(),
            outcome_view(r) == old(self)@.outcome(Action::EnterKey),
            final(self).same_bars(old(self)),
    {
        match self.mode {
            Mode::Command => self.execute_command(),
            Mode::Insert => {
                let line = self.cursor_line();
                let column = self.edit_column();
                self.buffer.split_line(line, column as usize);
                self.move_down();
                self.cursor_x = 0;
                Ok(Effect::Nothing)
            },
            Mode::Normal => {
                self.move_down();
                Ok(Effect::Nothing)
            },
        }
    }

    /// Carries out `action`. The session stays valid; the result says what
    /// the host has to do, or how a submitted command failed.
    pub fn apply(&mut self, action: Action) -> (r: Result<Effect, EditError>)
        requires
            old(self).wf(),
        ensures
            final(self).wf(),
            final(self)@ == old(self)@.step(action),
            outcome_view(r) == old(self)@.outcome(action),
            final(self).same_bars(old(self)),
    {
        proof {
            lemma_step_keeps_valid(self@, action);
        }
        match action {
            Action::SetMode(mode) => {
                self.set_mode(mode);
                Ok(Effect::Nothing)
            },
            Action::MoveUp => {
                if self.mode != Mode::Command {
                    self.move_up();
                }
                Ok(Effect::Nothing)
            },
            Action::MoveDown => {
                if self.mode != Mode::Command {
                    self.move_down();
                }
                Ok(Effect::Nothing)
            },
            Action::MoveRight => {
                if self.mode != Mode::Command {
                    self.move_right();
                }
                Ok(Effect::Nothing)
            },
            Action::MoveLeft => {
                if self.mode != Mode::Command {
                    self.move_left();
                }
                Ok(Effect::Nothing)
            },
            Action::Typing(v) => {
                self.handle_changing(v);
                Ok(Effect::Nothing)
            },
            Action::EnterKey => self.handle_enter(),
            Action::TabKey => {
                self.handle_tab();
                Ok(Effect::Nothing)
            },
            Action::Backspace => {
                self.handle_backspace();
                Ok(Effect::Nothing)
            },
        }
    }

    /// Reads `key` in the present mode and carries out what it stands for.
    /// A key that stands for nothing changes nothing.
    pub fn step(&mut self, key: Key) -> (r: Result<Effect, EditError>)
        requires
            old(self).wf(),
        ensures
            final(self).wf(),
            final(self).same_bars(old(self)),
            match key_action(old(self).mode, key) {
                Some(action) => final(self)@ == old(self)@.step(action) && outcome_view(r) == old(
                    self,
                )@.outcome(action),
                None => final(self)@ == old(self)@ && r is Ok && r->Ok_0 is Nothing,
            },
    {
        match self.handel_event(key) {
            Some(action) => self.apply(action),
            None => Ok(Effect::Nothing),
        }
    }

    /// Ends the work of `Effect::Load`: takes the text read from the file
    /// `name`, or `None` where it could not be read. Then nothing changes and
    /// the failure is reported.
    pub fn load_file(&mut self, name: &str, contents: Option<&str>) -> (r: Result<(), EditError>)
        requires
            old(self).wf(),
        ensures
            final(self).wf(),
            final(self).same_bars(old(self)),
            contents is None ==> r == Err::<(), EditError>(EditError::FileNotFound) && final(self)@
                == old(self)@,
            contents is Some ==> r is Ok && final(self)@ == old(self)@.loaded(
                name@,
                contents->0@,
            ),
    {
        proof {
            if contents is Some {
                lemma_loaded_keeps_valid(self@, name@, contents->0@);
            }
        }
        match self.buffer.load_file(name, contents) {
            Err(e) => Err(e),
            Ok(()) => {
                self.viewport_top = 0;
                if self.mode == Mode::Command {
                    self.saved_x = 0;
                    self.saved_y = 0;
                } else {
                    self.cursor_x = 0;
                    self.cursor_y = 0;
                }
                Ok(())
            },
        }
    }

    /// The line shown in text row `n`, if the text reaches that far.
    pub fn viewport_line(&self, n: u16) -> (line: Option<String>)
        ensures
            self@.top + n < self@.lines.len() ==> line is Some && line->0@ == self@.lines[self@.top
                + n],
            self@.top + n >= self@.lines.len() ==> line is None,
    {
        self.buffer.get(self.viewport_top as usize + n as usize)
    }

    /// The number written beside text row `number`: lines count from one.
    pub fn number_line(&self, number: u16) -> (text: Option<String>)
        ensures
            text is Some,
            text->0@ == decimal((self@.top + number + 1) as nat),
    {
        Some(decimal_string(self.viewport_top as u64 + number as u64 + 1))
    }

    /// The width of the gutter: room for the number of the last line, and
    /// one column more.
    pub fn gutter_width(&self) -> (width: usize)
        ensures
            width == decimal(self@.lines.len()).len() + 1,
            2 <= width <= 21,
    {
        let count = self.buffer.get_file_lenght() as u64;
        proof {
            lemma_decimal_u64(count);
        }
        decimal_string(count).as_str().unicode_len() + 1
    }

    /// Where the terminal's cursor belongs: the screen cursor, moved right
    /// by the gutter and held at the largest screen coordinate.
    pub fn cursor_position(&self) -> (at: (u16, u16))
        ensures
            at.0 == crate::model::capped(self@.x + decimal(self@.lines.len()).len() + 1),
            at.1 == self@.y,
    {
        let gutter = self.gutter_width();
        let x = self.cursor_x as usize + gutter;
        (
            if x > u16::MAX as usize {
                u16::MAX
            } else {
                x as u16
            },
            self.cursor_y,
        )
    }

    /// What the text area shows: one row for each text row of the screen,
    /// from the top down.
    pub fn draw_viewport(&self) -> (rows: Vec<ScreenRow>)
        requires
            self.wf(),
        ensures
            rows@.len() == self@.height(),
            forall|i: int|
                0 <= i < rows@.len() ==> if self@.top + i < self@.lines.len() {
                    &&& (#[trigger] rows@[i]).number is Some
                    &&& rows@[i].number->0@ == decimal((self@.top + i + 1) as nat)
                    &&& rows@[i].text@ == self@.lines[self@.top + i]
                } else {
                    (#[trigger] rows@[i]).number is None && rows@[i].text@.len() == 0
                },
    {
        let height = self.viewport_height();
        let mut rows: Vec<ScreenRow> = Vec::new();
        let mut i: usize = 0;
        while i < height
            invariant
                i <= height,
                height == self@.height(),
                self.wf(),
                rows@.len() == i,
                forall|k: int|
                    0 <= k < i ==> if self@.top + k < self@.lines.len() {
                        &&& (#[trigger] rows@[k]).number is Some
                        &&& rows@[k].number->0@ == decimal((self@.top + k + 1) as nat)
                        &&& rows@[k].text@ == self@.lines[self@.top + k]
                    } else {
                        (#[trigger] rows@[k]).number is None && rows@[k].text@.len() == 0
                    },
            decreases height - i,
        {
            let row = match self.viewport_line(i as u16) {
                Some(text) => ScreenRow { number: self.number_line(i as u16), text },
                None => ScreenRow { number: None, text: String::new() },
            };
            rows.push(row);
            i += 1;
        }
        rows
    }

    /// Tells the status bar the mode and the name of the file, `[No Name]`
    /// where the buffer has none.
    pub fn update_status_bar(&mut self)
        ensures
            final(self)@ == old(self)@,
            final(self).enable_status_bar == old(self).enable_status_bar,
            final(self).command_bar == old(self).command_bar,
            final(self).status_bar.modules@.len() == old(self).status_bar.modules@.len(),
            forall|i: int|
                0 <= i < old(self).status_bar.modules@.len() ==> (
                #[trigger] final(self).status_bar.modules@[i]).informed(
                    &old(self).status_bar.modules@[i],
                    old(self).mode,
                    match old(self)@.file {
                        Some(name) => name,
                        None => no_name(),
                    },
                ),
    {
        let name = match &self.buffer.file {
            Some(name) => name.clone(),
            None => String::from_str("[No Name]"),
        };
        self.status_bar.get_editor_info((self.mode, Box::new(name)));
    }

    /// The text of the status bar, brought up to date, or `None` where the
    /// bar is switched off.
    pub fn draw_status_bar(&mut self) -> (text: Option<String>)
        ensures
            final(self)@ == old(self)@,
            final(self).enable_status_bar == old(self).enable_status_bar,
            final(self).command_bar == old(self).command_bar,
            !old(self).enable_status_bar ==> text is None && final(self).status_bar == old(
                self,
            ).status_bar,
            old(self).enable_status_bar ==> text is Some && text->0@ == crate::status_bar::bar_text(
                final(self).status_bar.modules@,
                old(self).status_bar.sepatator@,
            ),
    {
        if self.enable_status_bar {
            Some(self.status_bar.render())
        } else {
            None
        }
    }

    /// The text of the command bar: the pending command in command mode,
    /// `None` in the other modes, where the bar is blank.
    pub fn draw_command_bar(&self) -> (text: Option<String>)
        ensures
            self.mode == Mode::Command ==> text is Some && text->0@ == self@.command,
            self.mode != Mode::Command ==> text is None,
    {
        match self.mode {
            Mode::Command => Some(self.command_bar.command.clone()),
            _ => None,
        }
    }
}

} // verus!
