use modal_editor::buffer::Buffer;
use modal_editor::config::CommandBarSettings;
use modal_editor::editor::{Editor, Effect};
use modal_editor::error::EditError;
use modal_editor::mode::{Action, Key, Mode};

fn settings() -> CommandBarSettings {
    CommandBarSettings { background_color: (255, 255, 255), font_color: (0, 0, 0) }
}

fn session(text: &str, rows: u16) -> Editor {
    let buffer = Buffer::from_file(Some("notes.txt".to_string()), Some(text));
    Editor::new(buffer, (80, rows), &settings()).unwrap()
}

fn lines(editor: &Editor) -> Vec<&str> {
    editor.buffer.lines.iter().map(|l| l.as_str()).collect()
}

fn press(editor: &mut Editor, keys: &[Key]) {
    for key in keys {
        editor.step(*key).unwrap();
    }
}

fn is_nothing(effect: &Effect) -> bool {
    matches!(effect, Effect::Nothing)
}

#[test]
fn new_session_starts_at_the_origin_in_normal_mode() {
    let editor = session("ab\ncd", 12);
    assert!(editor.running);
    assert!(editor.mode == Mode::Normal);
    assert_eq!((editor.cursor_x, editor.cursor_y), (0, 0));
    assert_eq!(editor.viewport_top, 0);
    assert_eq!(editor.viewport_left, 0);
    assert_eq!(editor.scrolling_padding, 1);
    assert_eq!(editor.command_bar.command, ":");
    assert_eq!(editor.viewport_height(), 10);
    assert_eq!(editor.viewport_width(), 80);
}

#[test]
fn new_session_needs_three_rows() {
    let buffer = Buffer::from_file(None, None);
    assert!(matches!(Editor::new(buffer, (80, 2), &settings()), Err(EditError::TerminalTooSmall)));
    let buffer = Buffer::from_file(None, None);
    assert!(Editor::new(buffer, (80, 3), &settings()).is_ok());
}

#[test]
fn confirm_at_end_of_line_opens_an_empty_line() {
    let mut editor = session("ab\ncd", 12);
    press(&mut editor, &[Key::Right, Key::Right, Key::Char('i')]);
    assert!(editor.mode == Mode::Insert);
    let effect = editor.apply(Action::EnterKey).unwrap();
    assert!(is_nothing(&effect));
    assert_eq!(lines(&editor), vec!["ab", "", "cd"]);
    assert_eq!((editor.cursor_x, editor.cursor_y), (0, 1));
    assert_eq!(editor.viewport_top, 0);
}

#[test]
fn confirm_inside_a_line_splits_it() {
    let mut editor = session("hello", 12);
    press(&mut editor, &[Key::Right, Key::Right, Key::Char('i'), Key::Enter]);
    assert_eq!(lines(&editor), vec!["he", "llo"]);
    assert_eq!((editor.cursor_x, editor.cursor_y), (0, 1));
}

#[test]
fn typing_inserts_at_the_cursor() {
    let mut editor = session("abc", 12);
    press(&mut editor, &[Key::Right, Key::Char('i'), Key::Char('X')]);
    assert_eq!(lines(&editor), vec!["aXbc"]);
    assert_eq!(editor.cursor_x, 2);
    assert_eq!(editor.cursor_y, 0);
}

#[test]
fn typing_at_column_zero_prepends() {
    let mut editor = session("abc", 12);
    press(&mut editor, &[Key::Char('i'), Key::Char('X')]);
    assert_eq!(lines(&editor), vec!["Xabc"]);
    assert_eq!(editor.cursor_x, 1);
}

#[test]
fn typing_past_the_end_appends_to_the_line() {
    let mut editor = session("abc", 12);
    press(&mut editor, &[Key::Right; 9]);
    assert_eq!(editor.cursor_x, 9);
    press(&mut editor, &[Key::Char('i'), Key::Char('!')]);
    assert_eq!(lines(&editor), vec!["abc!"]);
    assert_eq!(editor.cursor_x, 4);
}

#[test]
fn typing_counts_characters_not_bytes() {
    let mut editor = session("héllo", 12);
    press(&mut editor, &[Key::Right, Key::Right, Key::Char('i'), Key::Char('ß')]);
    assert_eq!(lines(&editor), vec!["héßllo"]);
    assert_eq!(editor.cursor_x, 3);
    press(&mut editor, &[Key::Backspace, Key::Backspace]);
    assert_eq!(lines(&editor), vec!["hllo"]);
    assert_eq!(editor.cursor_x, 1);
}

#[test]
fn tab_inserts_four_spaces() {
    let mut editor = session("abc", 12);
    press(&mut editor, &[Key::Right, Key::Char('i'), Key::Tab]);
    assert_eq!(lines(&editor), vec!["a    bc"]);
    assert_eq!(editor.cursor_x, 5);
}

#[test]
fn tab_means_nothing_outside_insert_mode() {
    let mut editor = session("abc", 12);
    editor.apply(Action::TabKey).unwrap();
    assert_eq!(lines(&editor), vec!["abc"]);
    assert_eq!(editor.cursor_x, 0);
    assert!(editor.handel_event(Key::Tab).is_none());
}

#[test]
fn backspace_deletes_the_character_before_the_cursor() {
    let mut editor = session("abc", 12);
    press(&mut editor, &[Key::Right, Key::Right, Key::Char('i'), Key::Backspace]);
    assert_eq!(lines(&editor), vec!["ac"]);
    assert_eq!(editor.cursor_x, 1);
}

#[test]
fn backspace_at_column_zero_joins_the_lines() {
    let mut editor = session("ab\ncd\nef", 12);
    press(&mut editor, &[Key::Down, Key::Char('i'), Key::Backspace]);
    assert_eq!(lines(&editor), vec!["abcd", "ef"]);
    assert_eq!((editor.cursor_x, editor.cursor_y), (2, 0));
}

#[test]
fn backspace_at_the_origin_changes_nothing() {
    let mut editor = session("ab\ncd", 12);
    press(&mut editor, &[Key::Char('i'), Key::Backspace]);
    assert_eq!(lines(&editor), vec!["ab", "cd"]);
    assert_eq!((editor.cursor_x, editor.cursor_y), (0, 0));
    assert_eq!(editor.viewport_top, 0);
    assert!(editor.mode == Mode::Insert);
}

#[test]
fn backspace_clamps_the_column_first() {
    let mut editor = session("abc", 12);
    press(&mut editor, &[Key::Right; 7]);
    press(&mut editor, &[Key::Char('i'), Key::Backspace]);
    assert_eq!(lines(&editor), vec!["ab"]);
    assert_eq!(editor.cursor_x, 2);
}

#[test]
fn split_then_backspace_restores_the_line() {
    let mut editor = session("one\nhello world\nthree", 12);
    press(&mut editor, &[Key::Down, Key::Right, Key::Right, Key::Right, Key::Right, Key::Right]);
    press(&mut editor, &[Key::Char('i'), Key::Enter]);
    assert_eq!(lines(&editor), vec!["one", "hello", " world", "three"]);
    press(&mut editor, &[Key::Backspace]);
    assert_eq!(lines(&editor), vec!["one", "hello world", "three"]);
    assert_eq!((editor.cursor_x, editor.cursor_y), (5, 1));
}

#[test]
fn down_stops_at_the_last_line_without_scrolling() {
    let mut editor = session("a\nb\nc", 12);
    assert_eq!(editor.viewport_height(), 10);
    let mut rows = Vec::new();
    for _ in 0..6 {
        editor.apply(Action::MoveDown).unwrap();
        assert_eq!(editor.viewport_top, 0);
        rows.push(editor.cursor_y);
    }
    assert_eq!(rows, vec![1, 2, 2, 2, 2, 2]);
}

#[test]
fn down_scrolls_once_the_cursor_reaches_the_padding() {
    // Five text rows, twelve lines.
    let mut editor = session("0\n1\n2\n3\n4\n5\n6\n7\n8\n9\n10\n11", 7);
    let mut seen = Vec::new();
    for _ in 0..13 {
        editor.apply(Action::MoveDown).unwrap();
        seen.push((editor.viewport_top, editor.cursor_y));
    }
    assert_eq!(
        seen,
        vec![
            (0, 1),
            (0, 2),
            (0, 3),
            (0, 4),
            (1, 4),
            (2, 4),
            (3, 4),
            (4, 4),
            (5, 4),
            (6, 4),
            (7, 4),
            (7, 4),
            (7, 4)
        ]
    );
}

#[test]
fn up_scrolls_back_before_the_cursor_leaves_the_first_row() {
    let mut editor = session("0\n1\n2\n3\n4\n5\n6\n7\n8\n9\n10\n11", 7);
    for _ in 0..6 {
        editor.apply(Action::MoveDown).unwrap();
    }
    assert_eq!((editor.viewport_top, editor.cursor_y), (2, 4));
    let mut seen = Vec::new();
    for _ in 0..8 {
        editor.apply(Action::MoveUp).unwrap();
        seen.push((editor.viewport_top, editor.cursor_y));
    }
    assert_eq!(
        seen,
        vec![(2, 3), (2, 2), (2, 1), (2, 0), (1, 0), (0, 0), (0, 0), (0, 0)]
    );
}

#[test]
fn left_stops_at_the_left_edge_and_right_has_no_limit() {
    let mut editor = session("ab", 12);
    editor.apply(Action::MoveLeft).unwrap();
    assert_eq!(editor.cursor_x, 0);
    for _ in 0..5 {
        editor.apply(Action::MoveRight).unwrap();
    }
    assert_eq!(editor.cursor_x, 5);
    editor.apply(Action::MoveLeft).unwrap();
    assert_eq!(editor.cursor_x, 4);
    editor.cursor_x = u16::MAX;
    editor.apply(Action::MoveRight).unwrap();
    assert_eq!(editor.cursor_x, u16::MAX);
}

#[test]
fn confirm_in_normal_mode_moves_down_and_keeps_the_text() {
    let mut editor = session("a\nb", 12);
    press(&mut editor, &[Key::Enter]);
    assert_eq!(editor.cursor_y, 1);
    press(&mut editor, &[Key::Enter]);
    assert_eq!(editor.cursor_y, 1);
    assert_eq!(lines(&editor), vec!["a", "b"]);
}

#[test]
fn confirm_on_the_last_text_row_scrolls() {
    // One text row only.
    let mut editor = session("ab", 3);
    press(&mut editor, &[Key::Right, Key::Char('i'), Key::Enter]);
    assert_eq!(lines(&editor), vec!["a", "b"]);
    assert_eq!((editor.viewport_top, editor.cursor_x, editor.cursor_y), (1, 0, 0));
    // On the first row backspace joins nothing.
    press(&mut editor, &[Key::Backspace]);
    assert_eq!(lines(&editor), vec!["a", "b"]);
}

#[test]
fn line_count_never_drops_below_one() {
    let mut editor = session("", 12);
    assert_eq!(lines(&editor), vec![""]);
    let keys = [
        Key::Char('i'),
        Key::Backspace,
        Key::Backspace,
        Key::Enter,
        Key::Backspace,
        Key::Backspace,
        Key::Char('x'),
        Key::Backspace,
        Key::Backspace,
        Key::Esc,
        Key::Up,
        Key::Down,
    ];
    for key in keys {
        editor.step(key).unwrap();
        assert!(editor.buffer.get_file_lenght() >= 1);
    }
    assert_eq!(lines(&editor), vec![""]);
}

#[test]
fn keys_in_normal_mode() {
    let editor = session("a", 12);
    assert!(editor.handle_normal_event(Key::Char(':')) == Some(Action::SetMode(Mode::Command)));
    assert!(editor.handle_normal_event(Key::Char('i')) == Some(Action::SetMode(Mode::Insert)));
    assert!(editor.handle_normal_event(Key::Up) == Some(Action::MoveUp));
    assert!(editor.handle_normal_event(Key::Char('k')) == Some(Action::MoveUp));
    assert!(editor.handle_normal_event(Key::Down) == Some(Action::MoveDown));
    assert!(editor.handle_normal_event(Key::Char('j')) == Some(Action::MoveDown));
    assert!(editor.handle_normal_event(Key::Left) == Some(Action::MoveLeft));
    assert!(editor.handle_normal_event(Key::Char('h')) == Some(Action::MoveLeft));
    assert!(editor.handle_normal_event(Key::Right) == Some(Action::MoveRight));
    assert!(editor.handle_normal_event(Key::Char('l')) == Some(Action::MoveRight));
    assert!(editor.handle_normal_event(Key::Enter) == Some(Action::EnterKey));
    assert!(editor.handle_normal_event(Key::Char('x')).is_none());
    assert!(editor.handle_normal_event(Key::Esc).is_none());
    assert!(editor.handle_normal_event(Key::Tab).is_none());
    assert!(editor.handle_normal_event(Key::Backspace).is_none());
    assert!(editor.handle_normal_event(Key::Other).is_none());
}

#[test]
fn keys_in_insert_mode() {
    let editor = session("a", 12);
    assert!(editor.handle_insert_event(Key::Char('j')) == Some(Action::Typing('j')));
    assert!(editor.handle_insert_event(Key::Esc) == Some(Action::SetMode(Mode::Normal)));
    assert!(editor.handle_insert_event(Key::Enter) == Some(Action::EnterKey));
    assert!(editor.handle_insert_event(Key::Tab) == Some(Action::TabKey));
    assert!(editor.handle_insert_event(Key::Backspace) == Some(Action::Backspace));
    assert!(editor.handle_insert_event(Key::Up).is_none());
    assert!(editor.handle_insert_event(Key::Other).is_none());
}

#[test]
fn keys_in_command_mode() {
    let editor = session("a", 12);
    assert!(editor.handle_command_event(Key::Char('w')) == Some(Action::Typing('w')));
    assert!(editor.handle_command_event(Key::Esc) == Some(Action::SetMode(Mode::Normal)));
    assert!(editor.handle_command_event(Key::Enter) == Some(Action::EnterKey));
    assert!(editor.handle_command_event(Key::Backspace) == Some(Action::Backspace));
    assert!(editor.handle_command_event(Key::Tab).is_none());
    assert!(editor.handle_command_event(Key::Down).is_none());
}

#[test]
fn unknown_key_changes_nothing() {
    let mut editor = session("ab\ncd", 12);
    press(&mut editor, &[Key::Down, Key::Right]);
    let effect = editor.step(Key::Other).unwrap();
    assert!(is_nothing(&effect));
    assert_eq!((editor.cursor_x, editor.cursor_y), (1, 1));
    assert!(editor.mode == Mode::Normal);
}

#[test]
fn entering_command_mode_moves_the_cursor_to_the_command_row() {
    let mut editor = session("ab\ncd", 12);
    press(&mut editor, &[Key::Down, Key::Right, Key::Char(':')]);
    assert!(editor.mode == Mode::Command);
    assert_eq!((editor.cursor_x, editor.cursor_y), (0, 12));
    assert_eq!(editor.command_bar.command, ":");
    press(&mut editor, &[Key::Char('w'), Key::Char('q')]);
    assert_eq!(editor.command_bar.command, ":wq");
    assert_eq!(editor.cursor_x, 3);
    press(&mut editor, &[Key::Esc]);
    assert!(editor.mode == Mode::Normal);
    assert_eq!((editor.cursor_x, editor.cursor_y), (1, 1));
    // Entering again starts a fresh command.
    press(&mut editor, &[Key::Char(':')]);
    assert_eq!(editor.command_bar.command, ":");
}

#[test]
fn command_backspace_keeps_the_prefix() {
    let mut editor = session("ab", 12);
    press(&mut editor, &[Key::Char(':'), Key::Char('w'), Key::Backspace]);
    assert_eq!(editor.command_bar.command, ":");
    assert_eq!(editor.cursor_x, 1);
    press(&mut editor, &[Key::Backspace, Key::Backspace]);
    assert_eq!(editor.command_bar.command, ":");
    assert_eq!(editor.cursor_x, 1);
    assert!(editor.mode == Mode::Command);
}

#[test]
fn movement_means_nothing_in_command_mode() {
    let mut editor = session("ab\ncd", 12);
    press(&mut editor, &[Key::Char(':')]);
    editor.apply(Action::MoveDown).unwrap();
    editor.apply(Action::MoveRight).unwrap();
    assert_eq!((editor.cursor_x, editor.cursor_y), (0, 12));
    press(&mut editor, &[Key::Esc]);
    assert_eq!((editor.cursor_x, editor.cursor_y), (0, 0));
}

#[test]
fn quit_command_ends_the_session() {
    let mut editor = session("ab", 12);
    press(&mut editor, &[Key::Char(':'), Key::Char('q')]);
    let effect = editor.step(Key::Enter).unwrap();
    assert!(is_nothing(&effect));
    assert!(!editor.running);
    assert!(editor.mode == Mode::Normal);
    assert_eq!(editor.command_bar.command, ":");
}

#[test]
fn write_command_asks_for_the_file_to_be_written() {
    let mut editor = session("ab\ncd", 12);
    press(&mut editor, &[Key::Char(':'), Key::Char('w')]);
    match editor.step(Key::Enter).unwrap() {
        Effect::Save(request) => {
            assert_eq!(request.path, "notes.txt");
            assert_eq!(request.contents, "ab\ncd\n");
        },
        _ => panic!("expected a save"),
    }
    assert!(editor.running);
    assert!(editor.mode == Mode::Normal);
    assert_eq!(editor.command_bar.command, ":");
}

#[test]
fn write_command_without_a_file_name_fails() {
    let buffer = Buffer::from_file(None, None);
    let mut editor = Editor::new(buffer, (80, 12), &settings()).unwrap();
    press(&mut editor, &[Key::Char(':'), Key::Char('w')]);
    assert!(matches!(editor.step(Key::Enter), Err(EditError::NoFileName)));
    assert!(editor.mode == Mode::Normal);
    assert_eq!(editor.command_bar.command, ":");
    assert!(editor.buffer.file.is_none());
    assert!(editor.running);
}

#[test]
fn write_as_command_adopts_the_name() {
    let mut editor = session("ab\ncd", 12);
    press(&mut editor, &[Key::Char(':')]);
    for c in "w out.txt".chars() {
        editor.step(Key::Char(c)).unwrap();
    }
    assert_eq!(editor.command_bar.command, ":w out.txt");
    match editor.step(Key::Enter).unwrap() {
        Effect::Save(request) => {
            assert_eq!(request.path, "out.txt");
            assert_eq!(request.contents, "ab\ncd\n");
        },
        _ => panic!("expected a save"),
    }
    assert_eq!(editor.buffer.file.as_deref(), Some("out.txt"));
    assert_eq!(lines(&editor), vec!["ab", "cd"]);
}

#[test]
fn edit_command_asks_for_the_file_and_loads_it() {
    let mut editor = session("ab\ncd\nef", 12);
    press(&mut editor, &[Key::Down, Key::Down, Key::Right, Key::Char(':')]);
    for c in "e other.txt".chars() {
        editor.step(Key::Char(c)).unwrap();
    }
    match editor.step(Key::Enter).unwrap() {
        Effect::Load(path) => assert_eq!(path, "other.txt"),
        _ => panic!("expected a load"),
    }
    // Nothing is replaced before the host hands the text in.
    assert_eq!(lines(&editor), vec!["ab", "cd", "ef"]);
    assert_eq!(editor.buffer.file.as_deref(), Some("notes.txt"));
    editor.load_file("other.txt", Some("x")).unwrap();
    assert_eq!(lines(&editor), vec!["x"]);
    assert_eq!(editor.buffer.file.as_deref(), Some("other.txt"));
    assert_eq!((editor.viewport_top, editor.cursor_x, editor.cursor_y), (0, 0, 0));
}

#[test]
fn failed_edit_leaves_the_buffer_alone() {
    let mut editor = session("ab\ncd", 12);
    press(&mut editor, &[Key::Down, Key::Right]);
    assert!(matches!(editor.load_file("missing.txt", None), Err(EditError::FileNotFound)));
    assert_eq!(lines(&editor), vec!["ab", "cd"]);
    assert_eq!(editor.buffer.file.as_deref(), Some("notes.txt"));
    assert_eq!((editor.cursor_x, editor.cursor_y), (1, 1));
}

#[test]
fn unknown_command_does_nothing() {
    let mut editor = session("ab", 12);
    press(&mut editor, &[Key::Char(':'), Key::Char('w'), Key::Char('q')]);
    let effect = editor.step(Key::Enter).unwrap();
    assert!(is_nothing(&effect));
    assert!(editor.running);
    assert!(editor.mode == Mode::Normal);
    assert_eq!(editor.command_bar.command, ":");
    assert_eq!(lines(&editor), vec!["ab"]);
}

#[test]
fn viewport_lines_and_numbers_follow_the_scroll() {
    let mut editor = session("0\n1\n2\n3\n4\n5\n6\n7\n8\n9\n10\n11", 7);
    for _ in 0..6 {
        editor.apply(Action::MoveDown).unwrap();
    }
    assert_eq!(editor.viewport_top, 2);
    assert_eq!(editor.viewport_line(0).as_deref(), Some("2"));
    assert_eq!(editor.viewport_line(9).as_deref(), Some("11"));
    assert_eq!(editor.viewport_line(10), None);
    assert_eq!(editor.number_line(0).as_deref(), Some("3"));
    assert_eq!(editor.number_line(7).as_deref(), Some("10"));
    assert_eq!(editor.gutter_width(), 3);
    assert_eq!(editor.cursor_position(), (3, 4));
}

#[test]
fn drawn_rows_show_numbers_and_text() {
    let editor = session("a\nbb", 6);
    let rows = editor.draw_viewport();
    assert_eq!(rows.len(), 4);
    assert_eq!(rows[0].number.as_deref(), Some("1"));
    assert_eq!(rows[0].text, "a");
    assert_eq!(rows[1].number.as_deref(), Some("2"));
    assert_eq!(rows[1].text, "bb");
    assert_eq!(rows[2].number, None);
    assert_eq!(rows[2].text, "");
    assert_eq!(rows[3].number, None);
}

#[test]
fn command_bar_is_drawn_in_command_mode_only() {
    let mut editor = session("a", 12);
    assert_eq!(editor.draw_command_bar(), None);
    press(&mut editor, &[Key::Char(':'), Key::Char('e')]);
    assert_eq!(editor.draw_command_bar().as_deref(), Some(":e"));
}

#[test]
fn scrolling_stops_at_the_largest_coordinate() {
    let text = "x\n".repeat(70_000);
    let mut editor = session(&text, 3);
    assert_eq!(editor.buffer.get_file_lenght(), 70_001);
    editor.viewport_top = u16::MAX;
    assert!(editor.is_valid());
    editor.apply(Action::MoveDown).unwrap();
    assert_eq!((editor.viewport_top, editor.cursor_y), (u16::MAX, 0));
    editor.apply(Action::MoveUp).unwrap();
    assert_eq!((editor.viewport_top, editor.cursor_y), (u16::MAX - 1, 0));
    editor.apply(Action::MoveDown).unwrap();
    assert_eq!((editor.viewport_top, editor.cursor_y), (u16::MAX, 0));
}

#[test]
fn validity_can_be_tested() {
    let mut editor = session("a\nb", 12);
    assert!(editor.is_valid());
    editor.cursor_y = 2;
    assert!(!editor.is_valid());
    editor.cursor_y = 1;
    assert!(editor.is_valid());
    editor.scrolling_padding = 0;
    assert!(!editor.is_valid());
    editor.scrolling_padding = 10;
    assert!(editor.is_valid());
    editor.scrolling_padding = 11;
    assert!(!editor.is_valid());
    editor.scrolling_padding = 1;
    editor.command_bar.command.clear();
    assert!(!editor.is_valid());
    editor.command_bar.command.push('x');
    assert!(!editor.is_valid());
    editor.command_bar.reset();
    editor.step(Key::Char(':')).unwrap();
    assert!(editor.is_valid());
    editor.cursor_y = 1;
    assert!(!editor.is_valid());
}
