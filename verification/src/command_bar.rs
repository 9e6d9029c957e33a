//! The command bar: the row that shows the pending command.

use vstd::prelude::*;
use vstd::string::*;
use crate::config::CommandBarSettings;
use crate::mode::command_prefix;

verus! {

/// The command bar with its colours and the pending command.
pub struct CommandBar {
    pub background_color: (u8, u8, u8),
    pub font_color: (u8, u8, u8),
    pub command: String,
}

impl CommandBar {
    /// The pending command starts with the command prefix.
    pub open spec fn wf(&self) -> bool {
        self.command@.len() >= 1 && self.command@[0] == command_prefix()
    }

    /// A command bar in the colours of `settings`, its command the prefix
    /// alone.
    pub fn new(settings: &CommandBarSettings) -> (bar: CommandBar)
        ensures
            bar.wf(),
            bar.command@ == seq![command_prefix()],
            bar.background_color == settings.background_color,
            bar.font_color == settings.font_color,
    {
        let mut command = String::new();
        command.push(':');
        CommandBar {
            command,
            background_color: settings.background_color,
            font_color: settings.font_color,
        }
    }

    /// Gives the bar another background colour.
    pub fn change_background_color(&mut self, new_color: &(u8, u8, u8))
        ensures
            final(self).background_color == *new_color,
            final(self).font_color == old(self).font_color,
            final(self).command == old(self).command,
    {
        self.background_color = *new_color;
    }

    /// Makes the pending command the prefix alone.
    pub fn reset(&mut self)
        ensures
            final(self).wf(),
            final(self).command@ == seq![command_prefix()],
            final(self).background_color == old(self).background_color,
            final(self).font_color == old(self).font_color,
    {
        let mut command = String::new();
        command.push(':');
        self.command = command;
    }
}

} // verus!
