//! The settings of the editor: colours, the status bar's separator and the
//! names of the commands, each read from the text of the configuration file.

use vstd::prelude::*;
use vstd::string::*;
use crate::settings::{
    color_setting, colors_valid, read_color, read_text, text_setting, texts_valid,
};
use crate::text::{split_lines, split_text};

verus! {

/// The colour of the text.
pub struct EditorSettings {
    pub font_color: (u8, u8, u8),
}

/// The colour and the separator of the status bar.
pub struct StatusBarSettings {
    pub background_color: (u8, u8, u8),
    pub separator_symbol: String,
}

/// The colours of the command bar.
pub struct CommandBarSettings {
    pub background_color: (u8, u8, u8),
    pub font_color: (u8, u8, u8),
}

/// The names of the commands.
pub struct CommandsBindings {
    pub quit: String,
    pub save: String,
    pub edit: String,
}

impl EditorSettings {
    /// The settings that `contents`, the text of the configuration file,
    /// gives; `contents` is `None` where the file could not be read, and the
    /// text is then white. `None` is returned where a line that starts with
    /// `editor_font_color` gives no colour.
    pub fn init(contents: Option<&str>) -> (settings: Option<EditorSettings>)
        ensures
            contents is None ==> settings is Some && settings->0.font_color == (
                255u8,
                255u8,
                255u8,
            ),
            contents matches Some(text) ==> {
                let lines = split_lines(text@);
                &&& settings is Some <==> colors_valid(lines, "editor_font_color"@)
                &&& settings is Some ==> settings->0.font_color == color_setting(
                    lines,
                    "editor_font_color"@,
                    (255u8, 204u8, 229u8),
                )
            },
    {
        match contents {
            None => Some(EditorSettings { font_color: (255, 255, 255) }),
            Some(text) => {
                let lines = split_text(text);
                match read_color(&lines, "editor_font_color", (255, 204, 229)) {
                    Some(font_color) => Some(EditorSettings { font_color }),
                    None => None,
                }
            },
        }
    }

    /// The colour of the text.
    pub fn get_info_color(&self) -> (color: Option<(u8, u8, u8)>)
        ensures
            color == Some(self.font_color),
    {
        Some(self.font_color)
    }
}

impl StatusBarSettings {
    /// The settings that `contents`, the text of the configuration file,
    /// gives; without a file, and for what the file leaves out, the defaults.
    /// `None` is returned where a line that starts with
    /// `status_bar_background_color` gives no colour or one that starts with
    /// `status_bar_separator` gives no text.
    pub fn init(contents: Option<&str>) -> (settings: Option<StatusBarSettings>)
        ensures
            contents is None ==> settings is Some && settings->0.background_color == (
                255u8,
                204u8,
                229u8,
            ) && settings->0.separator_symbol@ == "◢◤"@,
            contents matches Some(text) ==> {
                let lines = split_lines(text@);
                &&& settings is Some <==> colors_valid(lines, "status_bar_background_color"@)
                    && texts_valid(lines, "status_bar_separator"@)
                &&& settings is Some ==> settings->0.background_color == color_setting(
                    lines,
                    "status_bar_background_color"@,
                    (255u8, 204u8, 229u8),
                ) && settings->0.separator_symbol@ == text_setting(
                    lines,
                    "status_bar_separator"@,
                    "◢◤"@,
                )
            },
    {
        match contents {
            None => Some(
                StatusBarSettings {
                    background_color: (255, 204, 229),
                    separator_symbol: String::from_str("◢◤"),
                },
            ),
            Some(text) => {
                let lines = split_text(text);
                let color = read_color(&lines, "status_bar_background_color", (255, 204, 229));
                let separator = read_text(&lines, "status_bar_separator", "◢◤");
                match (color, separator) {
                    (Some(background_color), Some(separator_symbol)) => Some(
                        StatusBarSettings { background_color, separator_symbol },
                    ),
                    _ => None,
                }
            },
        }
    }

    /// The background colour of the status bar.
    pub fn get_info_backcolor(&self) -> (color: Option<(u8, u8, u8)>)
        ensures
            color == Some(self.background_color),
    {
        Some(self.background_color)
    }

    /// The separator that follows each module of the status bar.
    pub fn get_info_separator(&self) -> (separator: Option<String>)
        ensures
            separator is Some,
            separator->0@ == self.separator_symbol@,
    {
        Some(self.separator_symbol.clone())
    }
}

impl CommandBarSettings {
    /// The settings that `contents`, the text of the configuration file,
    /// gives. Without a file the bar is white with black text. `None` is
    /// returned where a line that starts with `command_bar_background_color`
    /// or `command_bar_font_color` gives no colour.
    pub fn init(contents: Option<&str>) -> (settings: Option<CommandBarSettings>)
        ensures
            contents is None ==> settings is Some && settings->0.background_color == (
                255u8,
                255u8,
                255u8,
            ) && settings->0.font_color == (0u8, 0u8, 0u8),
            contents matches Some(text) ==> {
                let lines = split_lines(text@);
                &&& settings is Some <==> colors_valid(lines, "command_bar_background_color"@)
                    && colors_valid(lines, "command_bar_font_color"@)
                &&& settings is Some ==> settings->0.background_color == color_setting(
                    lines,
                    "command_bar_background_color"@,
                    (255u8, 204u8, 229u8),
                ) && settings->0.font_color == color_setting(
                    lines,
                    "command_bar_font_color"@,
                    (0u8, 0u8, 0u8),
                )
            },
    {
        match contents {
            None => Some(
                CommandBarSettings { background_color: (255, 255, 255), font_color: (0, 0, 0) },
            ),
            Some(text) => {
                let lines = split_text(text);
                let background = read_color(
                    &lines,
                    "command_bar_background_color",
                    (255, 204, 229),
                );
                let font = read_color(&lines, "command_bar_font_color", (0, 0, 0));
                match (background, font) {
                    (Some(background_color), Some(font_color)) => Some(
                        CommandBarSettings { background_color, font_color },
                    ),
                    _ => None,
                }
            },
        }
    }

    /// The background colour of the command bar.
    pub fn get_info_backcolor(&self) -> (color: Option<(u8, u8, u8)>)
        ensures
            color == Some(self.background_color),
    {
        Some(self.background_color)
    }

    /// The colour of the command bar's text.
    pub fn get_info_color(&self) -> (color: Option<(u8, u8, u8)>)
        ensures
            color == Some(self.font_color),
    {
        Some(self.font_color)
    }
}

impl CommandsBindings {
    /// The names that `contents`, the text of the configuration file, gives
    /// to the commands; without a file, and for what the file leaves out,
    /// `q`, `w` and `e`. `None` is returned where a line that starts with
    /// `cmd_quit`, `cmd_save` or `cmd_edit` gives no text.
    pub fn init(contents: Option<&str>) -> (bindings: Option<CommandsBindings>)
        ensures
            contents is None ==> bindings is Some && bindings->0.quit@ == "q"@ && bindings->0.save@
                == "w"@ && bindings->0.edit@ == "e"@,
            contents matches Some(text) ==> {
                let lines = split_lines(text@);
                &&& bindings is Some <==> texts_valid(lines, "cmd_quit"@) && texts_valid(
                    lines,
                    "cmd_save"@,
                ) && texts_valid(lines, "cmd_edit"@)
                &&& bindings is Some ==> bindings->0.quit@ == text_setting(
                    lines,
                    "cmd_quit"@,
                    "q"@,
                ) && bindings->0.save@ == text_setting(lines, "cmd_save"@, "w"@)
                    && bindings->0.edit@ == text_setting(lines, "cmd_edit"@, "e"@)
            },
    {
        match contents {
            None => Some(
                CommandsBindings {
                    quit: String::from_str("q"),
                    save: String::from_str("w"),
                    edit: String::from_str("e"),
                },
            ),
            Some(text) => {
                let lines = split_text(text);
                let quit = read_text(&lines, "cmd_quit", "q");
                let save = read_text(&lines, "cmd_save", "w");
                let edit = read_text(&lines, "cmd_edit", "e");
                match (quit, save, edit) {
                    (Some(quit), Some(save), Some(edit)) => Some(
                        CommandsBindings { quit, save, edit },
                    ),
                    _ => None,
                }
            },
        }
    }

    /// The name of the command that ends the session.
    pub fn get_info_quit(&self) -> (name: Option<String>)
        ensures
            name is Some,
            name->0@ == self.quit@,
    {
        Some(self.quit.clone())
    }

    /// The name of the command that writes the buffer.
    pub fn get_info_save(&self) -> (name: Option<String>)
        ensures
            name is Some,
            name->0@ == self.save@,
    {
        Some(self.save.clone())
    }

    /// The name of the command that opens another file.
    pub fn get_info_edit(&self) -> (name: Option<String>)
        ensures
            name is Some,
            name->0@ == self.edit@,
    {
        Some(self.edit.clone())
    }
}

} // verus!
