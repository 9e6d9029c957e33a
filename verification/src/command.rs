//! The command line: what a submitted command string asks for.

use vstd::prelude::*;
use crate::text::{chars_of, is_space, is_whitespace, string_of, trim, trim_bounds};

verus! {

/// What a submitted command line asks for.
pub enum Command {
    /// End the session without saving.
    Quit,
    /// Write the buffer to its own file.
    Write,
    /// Write the buffer to the named file and adopt the name.
    WriteAs(String),
    /// Replace the buffer by the named file.
    Edit(String),
    /// Anything else: nothing is done.
    Unknown,
}

/// A command with its file name as a sequence of characters.
pub enum CommandView {
    Quit,
    Write,
    WriteAs(Seq<char>),
    Edit(Seq<char>),
    Unknown,
}

impl View for Command {
    type V = CommandView;

    open spec fn view(&self) -> CommandView {
        match self {
            Command::Quit => CommandView::Quit,
            Command::Write => CommandView::Write,
            Command::WriteAs(name) => CommandView::WriteAs(name@),
            Command::Edit(name) => CommandView::Edit(name@),
            Command::Unknown => CommandView::Unknown,
        }
    }
}

/// The longest tail of `s` that holds no white space.
pub open spec fn last_word(s: Seq<char>) -> Seq<char>
    decreases s.len(),
{
    if s.len() == 0 || is_space(s.last()) {
        Seq::<char>::empty()
    } else {
        last_word(s.drop_last()).push(s.last())
    }
}

/// The command that ends the session.
pub open spec fn quit_token() -> Seq<char> {
    seq![':', 'q']
}

/// The command that writes the buffer.
pub open spec fn write_token() -> Seq<char> {
    seq![':', 'w']
}

/// The command that opens another file.
pub open spec fn edit_token() -> Seq<char> {
    seq![':', 'e']
}

/// `s` is `token`, then white space, then more.
pub open spec fn has_argument(s: Seq<char>, token: Seq<char>) -> bool {
    &&& s.len() > token.len()
    &&& s.take(token.len() as int) == token
    &&& is_space(s[token.len() as int])
}

/// The meaning of a command line. The line is trimmed first; then the forms
/// are tried in this order: the quit token alone, the write token alone, the
/// write token with a file name, the edit token with a file name. The file
/// name is the last word of the line. Every other line means nothing.
pub open spec fn parse_spec(input: Seq<char>) -> CommandView {
    let line = trim(input);
    if line == quit_token() {
        CommandView::Quit
    } else if line == write_token() {
        CommandView::Write
    } else if has_argument(line, write_token()) {
        CommandView::WriteAs(last_word(line))
    } else if has_argument(line, edit_token()) {
        CommandView::Edit(last_word(line))
    } else {
        CommandView::Unknown
    }
}

/// The last word of `s` starts at `j` when `s[j..]` holds no white space and
/// `j` is 0 or follows white space.
proof fn lemma_last_word_from(s: Seq<char>, j: int)
    requires
        0 <= j <= s.len(),
        forall|k: int| j <= k < s.len() ==> !is_space(s[k]),
        j == 0 || is_space(s[j - 1]),
    ensures
        last_word(s) == s.skip(j),
    decreases s.len(),
{
    if j < s.len() {
        lemma_last_word_from(s.drop_last(), j);
        assert(s.drop_last().skip(j).push(s.last()) == s.skip(j));
    } else {
        assert(s.skip(j) == Seq::<char>::empty());
    }
}

/// Reads a command line.
pub fn parse_command(input: &str) -> (command: Command)
    ensures
        command@ == parse_spec(input@),
{
    let chars = chars_of(input);
    let (start, end) = trim_bounds(&chars, 0, chars.len());
    let ghost line = chars@.subrange(start as int, end as int);
    proof {
        assert(chars@.subrange(0, chars@.len() as int) == chars@);
        assert(trim(input@) == line);
    }
    let len = end - start;
    if len == 2 && chars[start] == ':' && chars[start + 1] == 'q' {
        assert(line == quit_token());
        return Command::Quit;
    }
    if len == 2 && chars[start] == ':' && chars[start + 1] == 'w' {
        assert(line == write_token());
        return Command::Write;
    }
    assert(line != quit_token() && line != write_token()) by {
        if line == quit_token() || line == write_token() {
            assert(line.len() == 2);
            assert(line[0] == ':');
        }
    }
    if len > 2 && chars[start] == ':' && is_whitespace(chars[start + 2]) && (chars[start + 1] == 'w'
        || chars[start + 1] == 'e') {
        let mut from: usize = end;
        while from > start && !is_whitespace(chars[from - 1])
            invariant
                start <= from <= end <= chars@.len(),
                forall|k: int| from <= k < end ==> !is_space(chars@[k]),
            decreases from,
        {
            from -= 1;
        }
        let name = string_of(&chars, from, end);
        proof {
            lemma_last_word_from(line, from - start);
            assert(line.skip(from - start) == chars@.subrange(from as int, end as int));
        }
        if chars[start + 1] == 'w' {
            assert(line.take(2) == write_token());
            Command::WriteAs(name)
        } else {
            assert(line.take(2) == edit_token());
            assert(!has_argument(line, write_token())) by {
                if has_argument(line, write_token()) {
                    assert(line.take(2)[1] == 'w');
                }
            }
            Command::Edit(name)
        }
    } else {
        assert(!has_argument(line, write_token()) && !has_argument(line, edit_token())) by {
            if has_argument(line, write_token()) {
                assert(line.take(2)[0] == ':' && line.take(2)[1] == 'w');
            }
            if has_argument(line, edit_token()) {
                assert(line.take(2)[0] == ':' && line.take(2)[1] == 'e');
            }
        }
        Command::Unknown
    }
}

} // verus!
