//! The line buffer: the text of one open file as a never-empty list of lines,
//! with the line-level edits that the editing engine is built from.

use vstd::prelude::*;
use vstd::string::*;
use crate::error::EditError;
use crate::text::{join_lines, join_text, lines_view, split_lines, split_text};

verus! {

/// The text of one open file and the name it is saved under.
pub struct Buffer {
    pub file: Option<String>,
    pub lines: Vec<String>,
}

/// What a buffer stands for: its file name, if any, and its lines.
pub struct BufferView {
    pub file: Option<Seq<char>>,
    pub lines: Seq<Seq<char>>,
}

/// A file to be written by the host: where, and what.
pub struct SaveRequest {
    pub path: String,
    pub contents: String,
}

/// The view of an optional file name.
pub open spec fn name_view(file: Option<String>) -> Option<Seq<char>> {
    match file {
        Some(name) => Some(name@),
        None => None,
    }
}

/// `line` with `c` put in front of column `x`.
pub open spec fn line_with_char(line: Seq<char>, x: int, c: char) -> Seq<char> {
    line.insert(x, c)
}

/// `line` with `s` put in front of column `x`.
pub open spec fn line_with_text(line: Seq<char>, x: int, s: Seq<char>) -> Seq<char> {
    line.take(x) + s + line.skip(x)
}

/// `line` without the character before column `x`.
pub open spec fn line_without_char(line: Seq<char>, x: int) -> Seq<char> {
    line.remove(x - 1)
}

/// `lines` with line `y` broken in front of column `x`: the left part stays at
/// `y`, the right part becomes line `y + 1`.
pub open spec fn lines_split(lines: Seq<Seq<char>>, y: int, x: int) -> Seq<Seq<char>> {
    lines.update(y, lines[y].take(x)).insert(y + 1, lines[y].skip(x))
}

/// `lines` with line `y` appended to line `y - 1` and then removed.
pub open spec fn lines_merged(lines: Seq<Seq<char>>, y: int) -> Seq<Seq<char>> {
    lines.update(y - 1, lines[y - 1] + lines[y]).remove(y)
}

impl View for Buffer {
    type V = BufferView;

    open spec fn view(&self) -> BufferView {
        BufferView { file: name_view(self.file), lines: lines_view(self.lines@) }
    }
}

impl Buffer {
    /// A buffer always holds at least one line.
    pub open spec fn wf(&self) -> bool {
        self.lines@.len() >= 1
    }

    /// Builds the buffer of a session from the file name that was asked for
    /// and the text read from that file, `None` where it could not be read.
    /// Without both, the buffer is one empty line without a name.
    pub fn from_file(file: Option<String>, contents: Option<&str>) -> (buffer: Buffer)
        ensures
            buffer.wf(),
            file is Some && contents is Some ==> buffer@ == (BufferView {
                file: Some(file->0@),
                lines: split_lines(contents->0@),
            }),
            file is None || contents is None ==> buffer@ == (BufferView {
                file: None,
                lines: seq![Seq::<char>::empty()],
            }),
    {
        match (file, contents) {
            (Some(name), Some(text)) => {
                proof {
                    crate::text::lemma_split_lines_len(text@);
                }
                Buffer { file: Some(name), lines: split_text(text) }
            },
            _ => {
                let mut lines: Vec<String> = Vec::new();
                lines.push(String::new());
                assert(lines_view(lines@) == seq![Seq::<char>::empty()]);
                Buffer { file: None, lines }
            },
        }
    }

    /// Replaces the buffer by the text read from `file`. When the file could
    /// not be read (`contents` is `None`) the buffer stays as it is and the
    /// failure is reported.
    pub fn load_file(&mut self, file: &str, contents: Option<&str>) -> (r: Result<(), EditError>)
        requires
            old(self).wf(),
        ensures
            final(self).wf(),
            contents is None ==> r == Err::<(), EditError>(EditError::FileNotFound) && *final(self)
                == *old(self),
            contents is Some ==> r is Ok && final(self)@ == (BufferView {
                file: Some(file@),
                lines: split_lines(contents->0@),
            }),
    {
        match contents {
            None => Err(EditError::FileNotFound),
            Some(text) => {
                proof {
                    crate::text::lemma_split_lines_len(text@);
                }
                self.lines = split_text(text);
                self.file = Some(String::from_str(file));
                Ok(())
            },
        }
    }

    /// The line at index `line`, if there is one.
    pub fn get(&self, line: usize) -> (r: Option<String>)
        ensures
            line < self@.lines.len() ==> r is Some && r->0@ == self@.lines[line as int],
            line >= self@.lines.len() ==> r is None,
    {
        if line < self.lines.len() {
            Some(self.lines[line].clone())
        } else {
            None
        }
    }

    /// The number of lines.
    pub fn get_file_lenght(&self) -> (n: usize)
        ensures
            n == self@.lines.len(),
    {
        self.lines.len()
    }

    /// The text of the file: every line followed by one line feed.
    pub fn contents(&self) -> (text: String)
        ensures
            text@ == join_lines(self@.lines),
    {
        join_text(&self.lines)
    }

    /// Prepares writing the buffer to its own file. Fails, and says so, when
    /// the buffer has no file name.
    pub fn save(&self) -> (r: Result<SaveRequest, EditError>)
        ensures
            self@.file is None ==> r == Err::<SaveRequest, EditError>(EditError::NoFileName),
            self@.file is Some ==> r is Ok && r->Ok_0.path@ == self@.file->0 && r->Ok_0.contents@
                == join_lines(self@.lines),
    {
        match &self.file {
            None => Err(EditError::NoFileName),
            Some(name) => Ok(SaveRequest { path: name.clone(), contents: self.contents() }),
        }
    }

    /// Adopts `name` as the buffer's file name and prepares writing the buffer
    /// to it. The lines stay as they are.
    pub fn save_by_name(&mut self, name: &str) -> (r: SaveRequest)
        ensures
            final(self)@ == (BufferView { file: Some(name@), lines: old(self)@.lines }),
            r.path@ == name@,
            r.contents@ == join_lines(old(self)@.lines),
    {
        self.file = Some(String::from_str(name));
        SaveRequest { path: String::from_str(name), contents: self.contents() }
    }

    /// The number of characters of line `line`.
    pub fn line_len(&self, line: usize) -> (n: usize)
        requires
            line < self@.lines.len(),
        ensures
            n == self@.lines[line as int].len(),
    {
        self.lines[line].as_str().unicode_len()
    }

    /// Puts `text` in the place of line `line`.
    fn replace_line(&mut self, line: usize, text: String)
        requires
            line < old(self)@.lines.len(),
        ensures
            final(self)@ == (BufferView {
                file: old(self)@.file,
                lines: old(self)@.lines.update(line as int, text@),
            }),
    {
        self.lines[line] = text;
        assert(lines_view(self.lines@) =~= lines_view(old(self).lines@).update(line as int, text@));
    }

    /// Inserts `c` into line `line` in front of column `column`.
    pub fn insert_char(&mut self, line: usize, column: usize, c: char)
        requires
            line < old(self)@.lines.len(),
            column <= old(self)@.lines[line as int].len(),
        ensures
            final(self)@ == (BufferView {
                file: old(self)@.file,
                lines: old(self)@.lines.update(
                    line as int,
                    line_with_char(old(self)@.lines[line as int], column as int, c),
                ),
            }),
    {
        let old_line = self.lines[line].as_str();
        let n = old_line.unicode_len();
        let mut new_line = String::from_str(old_line.substring_char(0, column));
        new_line.push(c);
        new_line.append(old_line.substring_char(column, n));
        self.replace_line(line, new_line);
    }

    /// Inserts `text` into line `line` in front of column `column`.
    pub fn insert_text(&mut self, line: usize, column: usize, text: &str)
        requires
            line < old(self)@.lines.len(),
            column <= old(self)@.lines[line as int].len(),
        ensures
            final(self)@ == (BufferView {
                file: old(self)@.file,
                lines: old(self)@.lines.update(
                    line as int,
                    line_with_text(old(self)@.lines[line as int], column as int, text@),
                ),
            }),
    {
        let old_line = self.lines[line].as_str();
        let n = old_line.unicode_len();
        let mut new_line = String::from_str(old_line.substring_char(0, column));
        new_line.append(text);
        new_line.append(old_line.substring_char(column, n));
        self.replace_line(line, new_line);
    }

    /// Deletes the character before column `column` of line `line`.
    pub fn delete_char(&mut self, line: usize, column: usize)
        requires
            line < old(self)@.lines.len(),
            0 < column <= old(self)@.lines[line as int].len(),
        ensures
            final(self)@ == (BufferView {
                file: old(self)@.file,
                lines: old(self)@.lines.update(
                    line as int,
                    line_without_char(old(self)@.lines[line as int], column as int),
                ),
            }),
    {
        let old_line = self.lines[line].as_str();
        let n = old_line.unicode_len();
        let mut new_line = String::from_str(old_line.substring_char(0, column - 1));
        new_line.append(old_line.substring_char(column, n));
        self.replace_line(line, new_line);
    }

    /// Breaks line `line` in front of column `column`: what stood from that
    /// column on becomes a new line right after it.
    pub fn split_line(&mut self, line: usize, column: usize)
        requires
            line < old(self)@.lines.len(),
            column <= old(self)@.lines[line as int].len(),
        ensures
            final(self)@ == (BufferView {
                file: old(self)@.file,
                lines: lines_split(old(self)@.lines, line as int, column as int),
            }),
    {
        let old_line = self.lines[line].as_str();
        let n = old_line.unicode_len();
        let left = String::from_str(old_line.substring_char(0, column));
        let right = String::from_str(old_line.substring_char(column, n));
        self.replace_line(line, left);
        let count = self.lines.len();
        assert(line < count);
        self.lines.insert(line + 1, right);
        assert(lines_view(self.lines@) =~= lines_split(
            lines_view(old(self).lines@),
            line as int,
            column as int,
        ));
    }

    /// Appends line `line` to the line before it and removes it.
    pub fn merge_lines(&mut self, line: usize)
        requires
            0 < line < old(self)@.lines.len(),
        ensures
            final(self)@ == (BufferView {
                file: old(self)@.file,
                lines: lines_merged(old(self)@.lines, line as int),
            }),
    {
        let mut joined = self.lines[line - 1].clone();
        joined.append(self.lines[line].as_str());
        self.replace_line(line - 1, joined);
        self.lines.remove(line);
        assert(lines_view(self.lines@) =~= lines_merged(lines_view(old(self).lines@), line as int));
    }
}

} // verus!
