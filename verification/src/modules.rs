//! The modules of the status bar: the mode, the time and the file name.

use vstd::prelude::*;
use vstd::string::*;
use crate::clock::{clock_text, format_clock, local_now, Moment};
use crate::mode::Mode;

verus! {

/// A colour as red, green and blue.
pub type Rgb = (u8, u8, u8);

/// What the editor tells the modules: its mode and the name of its file.
pub type Info = (Mode, Box<String>);

/// A part of the status bar.
pub trait BarModule {
    /// Whether the module is switched on.
    spec fn enabled(&self) -> bool;

    /// What the module shows in its present state.
    spec fn display(&self) -> Seq<char>;

    /// Whether the module is what `before` becomes when it is told `mode`
    /// and `file`.
    spec fn informed(&self, before: &Self, mode: Mode, file: Seq<char>) -> bool;

    /// Switches the module on.
    fn enable(&mut self)
        ensures
            final(self).enabled(),
            final(self).display() == old(self).display(),
    ;

    /// Switches the module off.
    fn disable(&mut self)
        ensures
            !final(self).enabled(),
            final(self).display() == old(self).display(),
    ;

    /// Brings the module up to date and returns what it shows then.
    fn give_display(&mut self) -> (shown: String)
        ensures
            shown@ == final(self).display(),
            final(self).enabled() == old(self).enabled(),
    ;

    /// Tells the module the editor's mode and the name of its file.
    fn get_editor_info(&mut self, info: Info)
        ensures
            final(self).informed(old(self), info.0, info.1@),
    ;
}

/// Shows the name of the open file.
pub struct CurrentFileModule {
    pub path: String,
    pub file: String,
    pub enable: bool,
}

/// Shows the mode.
pub struct CurrentModeModule {
    pub enable: bool,
    pub current_mode: Mode,
}

/// Shows the time of day.
pub struct CurrentTimeModule {
    pub updatable: bool,
    pub current_time: Moment,
    pub enable: bool,
}

/// The name of a mode.
pub open spec fn mode_name(mode: Mode) -> Seq<char> {
    match mode {
        Mode::Normal => "Normal"@,
        Mode::Insert => "Insert"@,
        Mode::Command => "Command"@,
    }
}

impl CurrentFileModule {
    /// A module that is switched off and shows a single space.
    pub fn new() -> (module: CurrentFileModule)
        ensures
            module.path@ == seq![' '],
            module.file@ == seq![' '],
            !module.enable,
    {
        let mut path = String::new();
        path.push(' ');
        let mut file = String::new();
        file.push(' ');
        CurrentFileModule { path, file, enable: false }
    }

    /// The file name that the module shows.
    pub fn get_path(&self) -> (shown: String)
        ensures
            shown@ == self.file@,
    {
        self.file.clone()
    }

    /// Sets the directory path that the module keeps.
    pub fn change_path(&mut self, new_path: &str)
        ensures
            final(self).path@ == new_path@,
            final(self).file == old(self).file,
            final(self).enable == old(self).enable,
    {
        self.path = String::from_str(new_path);
    }
}

impl BarModule for CurrentFileModule {
    open spec fn enabled(&self) -> bool {
        self.enable
    }

    open spec fn display(&self) -> Seq<char> {
        self.file@
    }

    open spec fn informed(&self, before: &Self, mode: Mode, file: Seq<char>) -> bool {
        self.file@ == file && self.path == before.path && self.enable == before.enable
    }

    fn enable(&mut self)
        ensures
            final(self).path == old(self).path,
            final(self).file == old(self).file,
    {
        self.enable = true;
    }

    fn disable(&mut self)
        ensures
            final(self).path == old(self).path,
            final(self).file == old(self).file,
    {
        self.enable = false;
    }

    fn give_display(&mut self) -> (shown: String)
        ensures
            *final(self) == *old(self),
    {
        self.get_path()
    }

    fn get_editor_info(&mut self, info: Info) {
        self.file = *info.1;
    }
}

impl CurrentModeModule {
    /// A module that is switched on and shows normal mode.
    pub fn new() -> (module: CurrentModeModule)
        ensures
            module.enable,
            module.current_mode == Mode::Normal,
    {
        CurrentModeModule { enable: true, current_mode: Mode::Normal }
    }

    /// The name of the mode that the module shows.
    pub fn get_mode_string(&mut self) -> (name: String)
        ensures
            name@ == mode_name(old(self).current_mode),
            *final(self) == *old(self),
    {
        match self.current_mode {
            Mode::Normal => String::from_str("Normal"),
            Mode::Insert => String::from_str("Insert"),
            Mode::Command => String::from_str("Command"),
        }
    }
}

impl BarModule for CurrentModeModule {
    open spec fn enabled(&self) -> bool {
        self.enable
    }

    open spec fn display(&self) -> Seq<char> {
        mode_name(self.current_mode)
    }

    open spec fn informed(&self, before: &Self, mode: Mode, file: Seq<char>) -> bool {
        self.current_mode == mode && self.enable == before.enable
    }

    fn enable(&mut self)
        ensures
            final(self).current_mode == old(self).current_mode,
    {
        self.enable = true;
    }

    fn disable(&mut self)
        ensures
            final(self).current_mode == old(self).current_mode,
    {
        self.enable = false;
    }

    fn give_display(&mut self) -> (shown: String)
        ensures
            *final(self) == *old(self),
    {
        self.get_mode_string()
    }

    fn get_editor_info(&mut self, info: Info) {
        self.current_mode = info.0;
    }
}

impl CurrentTimeModule {
    /// A module that is switched off and holds the present time.
    pub fn new() -> (module: CurrentTimeModule)
        ensures
            module.updatable,
            !module.enable,
            module.current_time.on_the_clock(),
    {
        CurrentTimeModule { current_time: local_now(), updatable: true, enable: false }
    }

    /// Reads the clock again.
    pub fn update(&mut self)
        ensures
            final(self).current_time.on_the_clock(),
            final(self).updatable == old(self).updatable,
            final(self).enable == old(self).enable,
    {
        self.current_time = local_now();
    }

    /// Reads the clock again and returns the time as a wall clock shows it.
    pub fn get_time_string(&mut self) -> (shown: String)
        ensures
            shown@ == clock_text(final(self).current_time.hour, final(self).current_time.minute),
            final(self).current_time.on_the_clock(),
            final(self).updatable == old(self).updatable,
            final(self).enable == old(self).enable,
    {
        self.update();
        format_clock(self.current_time.hour, self.current_time.minute)
    }
}

impl BarModule for CurrentTimeModule {
    open spec fn enabled(&self) -> bool {
        self.enable
    }

    open spec fn display(&self) -> Seq<char> {
        clock_text(self.current_time.hour, self.current_time.minute)
    }

    open spec fn informed(&self, before: &Self, mode: Mode, file: Seq<char>) -> bool {
        *self == *before
    }

    fn enable(&mut self)
        ensures
            final(self).current_time == old(self).current_time,
            final(self).updatable == old(self).updatable,
    {
        self.enable = true;
    }

    fn disable(&mut self)
        ensures
            final(self).current_time == old(self).current_time,
            final(self).updatable == old(self).updatable,
    {
        self.enable = false;
    }

    fn give_display(&mut self) -> (shown: String)
        ensures
            final(self).updatable == old(self).updatable,
    {
        self.get_time_string()
    }

    fn get_editor_info(&mut self, info: Info) {
    }
}

/// One of the modules of the status bar.
pub enum Module {
    Mode(CurrentModeModule),
    Time(CurrentTimeModule),
    File(CurrentFileModule),
}

impl BarModule for Module {
    open spec fn enabled(&self) -> bool {
        match self {
            Module::Mode(m) => m.enabled(),
            Module::Time(m) => m.enabled(),
            Module::File(m) => m.enabled(),
        }
    }

    open spec fn display(&self) -> Seq<char> {
        match self {
            Module::Mode(m) => m.display(),
            Module::Time(m) => m.display(),
            Module::File(m) => m.display(),
        }
    }

    open spec fn informed(&self, before: &Self, mode: Mode, file: Seq<char>) -> bool {
        match (self, before) {
            (Module::Mode(m), Module::Mode(b)) => m.informed(b, mode, file),
            (Module::Time(m), Module::Time(b)) => m.informed(b, mode, file),
            (Module::File(m), Module::File(b)) => m.informed(b, mode, file),
            _ => false,
        }
    }

    fn enable(&mut self) {
        match self {
            Module::Mode(m) => m.enable(),
            Module::Time(m) => m.enable(),
            Module::File(m) => m.enable(),
        }
    }

    fn disable(&mut self) {
        match self {
            Module::Mode(m) => m.disable(),
            Module::Time(m) => m.disable(),
            Module::File(m) => m.disable(),
        }
    }

    fn give_display(&mut self) -> (shown: String)
        ensures
            final(self).same_kind(old(self)),
    {
        match self {
            Module::Mode(m) => m.give_display(),
            Module::Time(m) => m.give_display(),
            Module::File(m) => m.give_display(),
        }
    }

    fn get_editor_info(&mut self, info: Info) {
        match self {
            Module::Mode(m) => m.get_editor_info(info),
            Module::Time(m) => m.get_editor_info(info),
            Module::File(m) => m.get_editor_info(info),
        }
    }
}

impl Module {
    /// Whether `self` and `other` are modules of the same kind, and the same
    /// module where the kind does not read the clock.
    pub open spec fn same_kind(&self, other: &Module) -> bool {
        match (self, other) {
            (Module::Mode(m), Module::Mode(o)) => m == o,
            (Module::Time(m), Module::Time(o)) => m.enable == o.enable && m.updatable
                == o.updatable,
            (Module::File(m), Module::File(o)) => m == o,
            _ => false,
        }
    }
}

/// The modules of a new status bar, from left to right: the mode, switched
/// on and normal; the time, switched off; the file name, switched off and a
/// single space.
pub open spec fn new_modules(modules: Seq<Module>) -> bool {
    &&& modules.len() == 3
    &&& modules[0] matches Module::Mode(m) && m.enable && m.current_mode == Mode::Normal
    &&& modules[1] matches Module::Time(m) && !m.enable && m.updatable
        && m.current_time.on_the_clock()
    &&& modules[2] matches Module::File(m) && !m.enable && m.file@ == seq![' '] && m.path@
        == seq![' ']
}

/// The modules of a status bar, each as it is when new.
pub fn get_modules() -> (modules: Vec<Module>)
    ensures
        new_modules(modules@),
{
    let mut modules: Vec<Module> = Vec::new();
    modules.push(Module::Mode(CurrentModeModule::new()));
    modules.push(Module::Time(CurrentTimeModule::new()));
    modules.push(Module::File(CurrentFileModule::new()));
    modules
}

} // verus!
