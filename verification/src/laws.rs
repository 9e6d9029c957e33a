//! What holds of every session: the invariant that every step keeps, and the
//! laws that relate steps to each other.

use vstd::prelude::*;
use crate::buffer::{lines_merged, lines_split};
use crate::mode::{Action, Mode};
use crate::model::{capped, State};
use crate::text::{join_lines, lemma_split_lines_len, line_feed, split_lines, split_on};

verus! {

/// No character of `s` is `c`.
pub open spec fn free_of(s: Seq<char>, c: char) -> bool {
    forall|i: int| 0 <= i < s.len() ==> s[i] != c
}

/// Text without a separator, put behind `s`, lengthens the last piece of
/// `s` and leaves the others as they are.
pub proof fn lemma_split_on_append(s: Seq<char>, t: Seq<char>, sep: char)
    requires
        free_of(t, sep),
    ensures
        split_on(s + t, sep) == split_on(s, sep).update(
            split_on(s, sep).len() - 1,
            split_on(s, sep).last() + t,
        ),
    decreases t.len(),
{
    crate::text::lemma_split_on_len(s, sep);
    let pieces = split_on(s, sep);
    if t.len() == 0 {
        assert(s + t == s);
        assert(pieces.last() + t == pieces.last());
        assert(pieces.update(pieces.len() - 1, pieces.last()) == pieces);
    } else {
        lemma_split_on_append(s, t.drop_last(), sep);
        assert((s + t).drop_last() == s + t.drop_last());
        assert((s + t).last() == t.last());
        assert((pieces.last() + t.drop_last()).push(t.last()) == pieces.last() + t);
    }
}

/// A file that was written and is read again holds the lines that were
/// written and one empty line more, provided that no line holds a line feed.
pub proof fn lemma_join_then_split(lines: Seq<Seq<char>>)
    requires
        forall|i: int| 0 <= i < lines.len() ==> free_of(#[trigger] lines[i], line_feed()),
    ensures
        split_lines(join_lines(lines)) == lines.push(Seq::<char>::empty()),
    decreases lines.len(),
{
    if lines.len() == 0 {
        assert(lines.push(Seq::<char>::empty()) == seq![Seq::<char>::empty()]);
    } else {
        let before = lines.drop_last();
        lemma_join_then_split(before);
        let head = join_lines(before);
        lemma_split_on_append(head, lines.last(), line_feed());
        let whole = head + lines.last().push(line_feed());
        assert(whole.drop_last() == head + lines.last());
        assert(whole.last() == line_feed());
        assert(Seq::<char>::empty() + lines.last() == lines.last());
        assert(before.push(Seq::<char>::empty()).update(before.len() as int, lines.last())
            == lines);
    }
}

/// Breaking a line and then joining the two parts again gives back the
/// lines as they were.
pub proof fn lemma_split_then_merge(lines: Seq<Seq<char>>, y: int, x: int)
    requires
        0 <= y < lines.len(),
        0 <= x <= lines[y].len(),
    ensures
        lines_merged(lines_split(lines, y, x), y + 1) == lines,
{
    let split = lines_split(lines, y, x);
    assert(split[y] + split[y + 1] == lines[y]);
    assert(lines_merged(split, y + 1) =~= lines);
}

/// Every step keeps the session valid. In particular the buffer never
/// loses its last line.
pub proof fn lemma_step_keeps_valid(s: State, action: Action)
    requires
        s.valid(),
    ensures
        s.step(action).valid(),
        s.step(action).lines.len() >= 1,
{
}

/// Every run of steps keeps the session valid, and the buffer holds at
/// least one line after it.
pub proof fn lemma_run_keeps_valid(s: State, actions: Seq<Action>)
    requires
        s.valid(),
    ensures
        s.run(actions).valid(),
        s.run(actions).lines.len() >= 1,
    decreases actions.len(),
{
    if actions.len() > 0 {
        lemma_run_keeps_valid(s, actions.drop_last());
        lemma_step_keeps_valid(s.run(actions.drop_last()), actions.last());
    }
}

/// Loading a file keeps the session valid.
pub proof fn lemma_loaded_keeps_valid(s: State, name: Seq<char>, text: Seq<char>)
    requires
        s.valid(),
    ensures
        s.loaded(name, text).valid(),
{
    lemma_split_lines_len(text);
}

/// In insert mode, enter and then backspace give back the lines as they
/// were and put the cursor where the line was broken, whenever the cursor
/// stood on the new line and below the first row in between.
pub proof fn lemma_break_then_erase(s: State)
    requires
        s.valid(),
        s.mode == Mode::Insert,
        s.step(Action::EnterKey).row() == s.row() + 1,
        s.step(Action::EnterKey).y > 0,
    ensures
        s.step(Action::EnterKey).step(Action::Backspace).lines == s.lines,
        s.step(Action::EnterKey).step(Action::Backspace).row() == s.row(),
        s.step(Action::EnterKey).step(Action::Backspace).x == capped(s.column()),
{
    lemma_split_then_merge(s.lines, s.row(), s.column());
}

/// In insert mode, a character typed with the cursor at or past the end of
/// the line goes to the end of the line, also after one more step to the
/// right, and the cursor then stands behind it.
pub proof fn lemma_typing_past_the_end(s: State, c: char)
    requires
        s.valid(),
        s.mode == Mode::Insert,
        s.x >= s.line().len(),
    ensures
        s.step(Action::Typing(c)).lines == s.lines.update(s.row(), s.line().push(c)),
        s.step(Action::Typing(c)).x == capped(s.line().len() as int + 1),
        s.step(Action::MoveRight).step(Action::Typing(c)) == s.step(Action::Typing(c)),
{
    assert(s.line().insert(s.line().len() as int, c) =~= s.line().push(c));
}

/// In insert mode, after typing, the tab key, backspace or enter the cursor
/// stands on a line of the buffer and at a column within that line.
pub proof fn lemma_edit_keeps_cursor_in_line(s: State, action: Action)
    requires
        s.valid(),
        s.mode == Mode::Insert,
        action is Typing || action is TabKey || action is Backspace || action is EnterKey,
    ensures
        0 <= s.step(action).row() < s.step(action).lines.len(),
        0 <= s.step(action).x <= s.step(action).line().len(),
{
    lemma_step_keeps_valid(s, action);
}

/// Whatever was typed, a submitted command leaves a fresh command line and
/// normal mode behind, with the cursor back in the text.
pub proof fn lemma_submit_returns_to_normal(s: State)
    requires
        s.valid(),
        s.mode == Mode::Command,
    ensures
        s.step(Action::EnterKey).mode == Mode::Normal,
        s.step(Action::EnterKey).command == crate::model::fresh_command(),
        s.step(Action::EnterKey).x == s.saved_x,
        s.step(Action::EnterKey).y == s.saved_y,
        s.step(Action::EnterKey).lines == s.lines,
{
}

/// Going down scrolls by one line at most, and only while a line is hidden
/// below the text area: after a scroll every text row still shows a line.
pub proof fn lemma_down_scrolls_into_text(s: State)
    requires
        s.valid(),
        s.mode != Mode::Command,
    ensures
        s.step(Action::MoveDown).top == s.top || (s.step(Action::MoveDown).top == s.top + 1
            && s.step(Action::MoveDown).y == s.y && s.top + 1 + s.height() <= s.lines.len()),
        s.step(Action::MoveDown).row() == s.row() || s.step(Action::MoveDown).row() == s.row()
            + 1,
{
}

/// Going up scrolls by one line at most, and the cursor goes up by one line
/// or stays.
pub proof fn lemma_up_scrolls_by_one(s: State)
    requires
        s.valid(),
        s.mode != Mode::Command,
    ensures
        s.step(Action::MoveUp).top == s.top || (s.step(Action::MoveUp).top == s.top - 1
            && s.step(Action::MoveUp).y == s.y),
        s.step(Action::MoveUp).row() == s.row() || s.step(Action::MoveUp).row() == s.row() - 1,
        s.row() == 0 ==> s.step(Action::MoveUp) == s,
{
}

/// `count` times the action `MoveDown`.
pub open spec fn downs(count: nat) -> Seq<Action> {
    Seq::new(count, |i: int| Action::MoveDown)
}

/// While the last line is on the screen, going down never scrolls: after
/// any number of steps down the viewport is where it was, and the cursor has
/// gone down by that number of rows or stopped on the last line.
pub proof fn lemma_down_without_scrolling(s: State, count: nat)
    requires
        s.valid(),
        s.mode != Mode::Command,
        s.shows_last_line(),
    ensures
        s.run(downs(count)).top == s.top,
        s.run(downs(count)).y == if s.row() + count < s.lines.len() {
            s.y + count
        } else {
            s.lines.len() - 1 - s.top
        },
        s.run(downs(count)) == (State { y: s.run(downs(count)).y, ..s }),
    decreases count,
{
    if count > 0 {
        let before = (count - 1) as nat;
        lemma_down_without_scrolling(s, before);
        assert(downs(count).drop_last() =~= downs(before));
        assert(downs(count).last() == Action::MoveDown);
    }
}

/// Backspace with the cursor at column 0 of the first row changes nothing.
pub proof fn lemma_backspace_at_origin(s: State)
    requires
        s.valid(),
        s.x == 0,
        s.y == 0,
    ensures
        s.step(Action::Backspace) == s,
{
}

} // verus!
