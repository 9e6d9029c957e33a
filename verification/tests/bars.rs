use modal_editor::buffer::Buffer;
use modal_editor::clock::{format_clock, seconds_between, Moment, Timer};
use modal_editor::command_bar::CommandBar;
use modal_editor::config::CommandBarSettings;
use modal_editor::editor::Editor;
use modal_editor::mode::{Key, Mode};
use modal_editor::modules::{
    get_modules, BarModule, CurrentFileModule, CurrentModeModule, CurrentTimeModule, Module,
};
use modal_editor::status_bar::{Side, StatusBar};
use modal_editor::viewport::Viewport;

fn moment(seconds: i64, nanos: u32) -> Moment {
    Moment { seconds, nanos, hour: 0, minute: 0 }
}

fn is_clock(text: &str) -> bool {
    let chars: Vec<char> = text.chars().collect();
    chars.len() == 5
        && chars[2] == ':'
        && text[0..2].parse::<u32>().map(|h| h <= 23).unwrap_or(false)
        && text[3..5].parse::<u32>().map(|m| m <= 59).unwrap_or(false)
}

#[test]
fn clock_is_written_with_two_digits_each() {
    assert_eq!(format_clock(0, 0), "00:00");
    assert_eq!(format_clock(9, 5), "09:05");
    assert_eq!(format_clock(23, 59), "23:59");
    assert_eq!(format_clock(10, 7), "10:07");
    assert_eq!(format_clock(123, 4567), "123:4567");
}

#[test]
fn seconds_are_whole_and_round_towards_zero() {
    assert_eq!(seconds_between(moment(10, 0), moment(13, 0)), 3);
    assert_eq!(seconds_between(moment(10, 900_000_000), moment(13, 100_000_000)), 2);
    assert_eq!(seconds_between(moment(10, 100_000_000), moment(13, 900_000_000)), 3);
    assert_eq!(seconds_between(moment(13, 0), moment(10, 0)), -3);
    assert_eq!(seconds_between(moment(13, 100_000_000), moment(10, 900_000_000)), -2);
    assert_eq!(seconds_between(moment(13, 900_000_000), moment(10, 100_000_000)), -3);
    assert_eq!(seconds_between(moment(5, 1), moment(5, 999_999_999)), 0);
    assert_eq!(seconds_between(moment(-4, 0), moment(4, 0)), 8);
}

#[test]
fn seconds_stay_within_the_range_of_the_result() {
    assert_eq!(seconds_between(moment(i64::MIN, 0), moment(i64::MAX, 0)), i64::MAX);
    assert_eq!(seconds_between(moment(i64::MAX, 0), moment(i64::MIN, 0)), i64::MIN);
    assert_eq!(seconds_between(moment(0, 0), moment(i64::MAX, 999_999_999)), i64::MAX);
}

#[test]
fn timer_measures_from_start_to_end() {
    let mut timer = Timer::new();
    assert!(timer.start_time.is_none() && timer.end_time.is_none());
    timer.start();
    assert!(timer.start_time.is_some() && timer.end_time.is_none());
    timer.end();
    let start = timer.start_time.unwrap();
    let end = timer.end_time.unwrap();
    assert!(start.hour <= 23 && start.minute <= 59);
    // A session that began after the year 2001.
    assert!(start.seconds > 1_000_000_000);
    assert_eq!(timer.get_duration_sec(), seconds_between(start, end));
    assert!(timer.get_duration_sec().abs() <= 5);
    let fixed = Timer { start_time: Some(moment(100, 0)), end_time: Some(moment(161, 5)) };
    assert_eq!(fixed.get_duration_sec(), 61);
}

#[test]
fn mode_module_shows_the_mode() {
    let mut module = CurrentModeModule::new();
    assert!(module.enable);
    assert_eq!(module.get_mode_string(), "Normal");
    module.get_editor_info((Mode::Insert, Box::new("a.txt".to_string())));
    assert_eq!(module.give_display(), "Insert");
    module.get_editor_info((Mode::Command, Box::new("a.txt".to_string())));
    assert_eq!(module.get_mode_string(), "Command");
    module.disable();
    assert!(!module.enable);
    assert_eq!(module.give_display(), "Command");
    module.enable();
    assert!(module.enable);
}

#[test]
fn file_module_shows_the_file_name() {
    let mut module = CurrentFileModule::new();
    assert!(!module.enable);
    assert_eq!(module.get_path(), " ");
    assert_eq!(module.path, " ");
    module.get_editor_info((Mode::Normal, Box::new("notes.txt".to_string())));
    assert_eq!(module.get_path(), "notes.txt");
    assert_eq!(module.give_display(), "notes.txt");
    module.change_path("/tmp");
    assert_eq!(module.path, "/tmp");
    assert_eq!(module.get_path(), "notes.txt");
    module.enable();
    assert!(module.enable);
    module.disable();
    assert!(!module.enable);
}

#[test]
fn time_module_shows_the_time_of_day() {
    let mut module = CurrentTimeModule::new();
    assert!(module.updatable);
    assert!(!module.enable);
    let shown = module.get_time_string();
    assert!(is_clock(&shown), "{shown}");
    assert_eq!(shown, format_clock(module.current_time.hour, module.current_time.minute));
    module.current_time = Moment { seconds: 0, nanos: 0, hour: 99, minute: 99 };
    module.update();
    assert!(module.current_time.hour <= 23 && module.current_time.minute <= 59);
    module.get_editor_info((Mode::Insert, Box::new("x".to_string())));
    module.enable();
    assert!(module.enable);
    let shown = module.give_display();
    assert!(is_clock(&shown), "{shown}");
}

#[test]
fn modules_come_in_their_order() {
    let modules = get_modules();
    assert_eq!(modules.len(), 3);
    assert!(matches!(&modules[0], Module::Mode(m) if m.enable && m.current_mode == Mode::Normal));
    assert!(matches!(&modules[1], Module::Time(m) if !m.enable && m.updatable));
    assert!(matches!(&modules[2], Module::File(m) if !m.enable && m.file == " "));
}

#[test]
fn module_of_any_kind_can_be_switched() {
    let mut module = Module::File(CurrentFileModule::new());
    module.enable();
    assert!(matches!(&module, Module::File(m) if m.enable));
    module.disable();
    assert!(matches!(&module, Module::File(m) if !m.enable));
    module.get_editor_info((Mode::Normal, Box::new("b.txt".to_string())));
    assert_eq!(module.give_display(), "b.txt");
}

#[test]
fn status_bar_shows_every_module_and_a_separator() {
    let mut bar = StatusBar::new();
    assert_eq!(bar.sepatator, "◢◤");
    assert!(bar.side == Side::Bottom);
    assert_eq!(bar.background_color, (255, 204, 229));
    bar.get_editor_info((Mode::Insert, Box::new("notes.txt".to_string())));
    let text = bar.render();
    let parts: Vec<&str> = text.split(" ◢◤ ").collect();
    assert_eq!(parts.len(), 4, "{text}");
    assert_eq!(parts[0], "Insert");
    assert!(is_clock(parts[1]), "{text}");
    assert_eq!(parts[2], "notes.txt");
    assert_eq!(parts[3], "");
}

#[test]
fn status_bar_without_modules_is_empty() {
    let mut bar = StatusBar::new();
    bar.modules.clear();
    assert_eq!(bar.render(), "");
}

#[test]
fn status_bar_changes_side_and_colour() {
    let mut bar = StatusBar::new();
    assert_eq!(bar.row((80, 24)), 23);
    bar.change_side();
    assert!(bar.side == Side::Top);
    assert_eq!(bar.row((80, 24)), 0);
    bar.change_side();
    assert!(bar.side == Side::Bottom);
    bar.change_background_color(&(1, 2, 3));
    assert_eq!(bar.background_color, (1, 2, 3));
    assert_eq!(bar.modules.len(), 3);
}

#[test]
fn command_bar_starts_with_the_prefix() {
    let settings = CommandBarSettings { background_color: (9, 8, 7), font_color: (1, 2, 3) };
    let mut bar = CommandBar::new(&settings);
    assert_eq!(bar.command, ":");
    assert_eq!(bar.background_color, (9, 8, 7));
    assert_eq!(bar.font_color, (1, 2, 3));
    bar.change_background_color(&(4, 5, 6));
    assert_eq!(bar.background_color, (4, 5, 6));
    assert_eq!(bar.font_color, (1, 2, 3));
    bar.command.push_str("wq");
    bar.reset();
    assert_eq!(bar.command, ":");
    assert_eq!(bar.background_color, (4, 5, 6));
}

#[test]
fn viewport_keeps_its_size_and_takes_a_buffer() {
    let mut viewport = Viewport::new((80, 24));
    assert!(viewport.buffer.is_none());
    assert_eq!((viewport.top, viewport.left, viewport.width, viewport.height), (0, 0, 80, 24));
    viewport.init_buffer(Box::new(Buffer::from_file(Some("a".to_string()), Some("x\ny"))));
    assert_eq!(viewport.buffer.as_ref().unwrap().lines, vec!["x", "y"]);
    assert_eq!((viewport.top, viewport.left, viewport.width, viewport.height), (0, 0, 80, 24));
}

#[test]
fn editor_tells_the_status_bar_its_mode_and_file() {
    let settings = CommandBarSettings { background_color: (0, 0, 0), font_color: (9, 9, 9) };
    let buffer = Buffer::from_file(Some("notes.txt".to_string()), Some("a"));
    let mut editor = Editor::new(buffer, (80, 12), &settings).unwrap();
    assert_eq!(editor.command_bar.font_color, (9, 9, 9));
    editor.step(Key::Char('i')).unwrap();
    editor.update_status_bar();
    let text = editor.draw_status_bar().unwrap();
    assert!(text.starts_with("Insert ◢◤ "), "{text}");
    assert!(text.ends_with(" ◢◤ notes.txt ◢◤ "), "{text}");
    editor.enable_status_bar = false;
    assert_eq!(editor.draw_status_bar(), None);

    let unnamed = Buffer::from_file(None, None);
    let mut editor = Editor::new(unnamed, (80, 12), &settings).unwrap();
    editor.update_status_bar();
    let text = editor.draw_status_bar().unwrap();
    assert!(text.starts_with("Normal ◢◤ "), "{text}");
    assert!(text.ends_with(" ◢◤ [No Name] ◢◤ "), "{text}");
}
