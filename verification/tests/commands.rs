use modal_editor::command::{parse_command, Command};
use modal_editor::text::is_whitespace;

fn kind(input: &str) -> String {
    match parse_command(input) {
        Command::Quit => "quit".to_string(),
        Command::Write => "write".to_string(),
        Command::WriteAs(name) => format!("write-as {name}"),
        Command::Edit(name) => format!("edit {name}"),
        Command::Unknown => "unknown".to_string(),
    }
}

#[test]
fn quit_and_write_are_exact_tokens() {
    assert_eq!(kind(":q"), "quit");
    assert_eq!(kind("  :q \t"), "quit");
    assert_eq!(kind(":w"), "write");
    assert_eq!(kind(":w   "), "write");
    assert_eq!(kind(":wq"), "unknown");
    assert_eq!(kind(":q!"), "unknown");
    assert_eq!(kind(":Q"), "unknown");
}

#[test]
fn write_and_edit_take_a_file_name() {
    assert_eq!(kind(":w out.txt"), "write-as out.txt");
    assert_eq!(kind(":w   out.txt  "), "write-as out.txt");
    assert_eq!(kind(":w a b"), "write-as b");
    assert_eq!(kind(":w\tout.txt"), "write-as out.txt");
    assert_eq!(kind(":e other.txt"), "edit other.txt");
    assert_eq!(kind(":e a/b.rs"), "edit a/b.rs");
}

#[test]
fn everything_else_is_unknown() {
    assert_eq!(kind(":"), "unknown");
    assert_eq!(kind(""), "unknown");
    assert_eq!(kind("   "), "unknown");
    assert_eq!(kind(":e"), "unknown");
    assert_eq!(kind(":efile"), "unknown");
    assert_eq!(kind(":wout.txt"), "unknown");
    assert_eq!(kind("w out.txt"), "unknown");
    assert_eq!(kind(":x y"), "unknown");
    assert_eq!(kind("q"), "unknown");
}

#[test]
fn white_space_is_what_the_standard_library_calls_white_space() {
    let mut n: u32 = 0;
    while n <= 0x3100 {
        if let Some(c) = char::from_u32(n) {
            assert_eq!(is_whitespace(c), c.is_whitespace(), "U+{n:04X}");
        }
        n += 1;
    }
}
