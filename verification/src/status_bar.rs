//! The status bar: a row of modules, each followed by a separator.

use vstd::prelude::*;
use vstd::string::*;
use crate::modules::{get_modules, new_modules, BarModule, Info, Module};

verus! {

/// The edge of the screen that the status bar lies at.
#[derive(Clone, Copy, Debug, PartialEq, Eq, Structural)]
pub enum Side {
    Top,
    Bottom,
}

/// The status bar.
pub struct StatusBar {
    pub sepatator: &'static str,
    pub modules: Vec<Module>,
    pub side: Side,
    pub background_color: (u8, u8, u8),
}

/// What the bar shows of one module: its display, a space, the separator
/// and a space.
pub open spec fn module_text(shown: Seq<char>, separator: Seq<char>) -> Seq<char> {
    (shown.push(' ') + separator).push(' ')
}

/// What the bar shows of `modules`, from left to right.
pub open spec fn bar_text(modules: Seq<Module>, separator: Seq<char>) -> Seq<char>
    decreases modules.len(),
{
    if modules.len() == 0 {
        Seq::<char>::empty()
    } else {
        bar_text(modules.drop_last(), separator) + module_text(
            modules.last().display(),
            separator,
        )
    }
}

/// The row of the screen that a bar at `side` lies in, on a screen of
/// `rows` rows.
pub open spec fn bar_row(side: Side, rows: u16) -> int {
    match side {
        Side::Bottom => rows - 1,
        Side::Top => 0,
    }
}

impl StatusBar {
    /// Whether the bar is as a new one is: at the bottom, pink, with the
    /// three new modules.
    pub open spec fn is_new(&self) -> bool {
        &&& self.sepatator@ == "◢◤"@
        &&& self.side == Side::Bottom
        &&& self.background_color == (255u8, 204u8, 229u8)
        &&& new_modules(self.modules@)
    }

    /// A status bar at the bottom with the three modules.
    pub fn new() -> (bar: StatusBar)
        ensures
            bar.is_new(),
    {
        StatusBar {
            sepatator: "◢◤",
            modules: get_modules(),
            side: Side::Bottom,
            background_color: (255, 204, 229),
        }
    }

    /// Brings every module up to date and returns the text of the bar. Only
    /// the modules that read the clock change.
    pub fn render(&mut self) -> (text: String)
        ensures
            text@ == bar_text(final(self).modules@, old(self).sepatator@),
            final(self).modules@.len() == old(self).modules@.len(),
            forall|i: int|
                0 <= i < old(self).modules@.len() ==> (#[trigger] final(self).modules@[i]).same_kind(
                    &old(self).modules@[i],
                ),
            final(self).sepatator == old(self).sepatator,
            final(self).side == old(self).side,
            final(self).background_color == old(self).background_color,
    {
        let mut text = String::new();
        let n = self.modules.len();
        let mut i: usize = 0;
        while i < n
            invariant
                i <= n,
                n == self.modules@.len(),
                n == old(self).modules@.len(),
                self.sepatator == old(self).sepatator,
                self.side == old(self).side,
                self.background_color == old(self).background_color,
                text@ == bar_text(self.modules@.take(i as int), self.sepatator@),
                forall|k: int|
                    0 <= k < i ==> (#[trigger] self.modules@[k]).same_kind(&old(self).modules@[k]),
                forall|k: int| i <= k < n ==> self.modules@[k] == old(self).modules@[k],
            decreases n - i,
        {
            let ghost before = self.modules@;
            let shown = self.modules[i].give_display();
            proof {
                let now = self.modules@;
                assert(now.take(i as int) =~= before.take(i as int));
                assert(now.take(i + 1).drop_last() =~= now.take(i as int));
                assert(now.take(i + 1).last() == now[i as int]);
            }
            text.append(shown.as_str());
            text.push(' ');
            text.append(self.sepatator);
            text.push(' ');
            i += 1;
        }
        proof {
            assert(self.modules@.take(n as int) =~= self.modules@);
        }
        text
    }

    /// Moves the bar to the other edge of the screen.
    pub fn change_side(&mut self)
        ensures
            final(self).side == match old(self).side {
                Side::Bottom => Side::Top,
                Side::Top => Side::Bottom,
            },
            final(self).modules == old(self).modules,
            final(self).sepatator == old(self).sepatator,
            final(self).background_color == old(self).background_color,
    {
        match self.side {
            Side::Bottom => self.side = Side::Top,
            Side::Top => self.side = Side::Bottom,
        }
    }

    /// Gives the bar another background colour.
    pub fn change_background_color(&mut self, new_color: &(u8, u8, u8))
        ensures
            final(self).background_color == *new_color,
            final(self).modules == old(self).modules,
            final(self).sepatator == old(self).sepatator,
            final(self).side == old(self).side,
    {
        self.background_color = *new_color;
    }

    /// Tells every module the editor's mode and the name of its file.
    pub fn get_editor_info(&mut self, info: Info)
        ensures
            final(self).modules@.len() == old(self).modules@.len(),
            forall|i: int|
                0 <= i < old(self).modules@.len() ==> (#[trigger] final(self).modules@[i]).informed(
                    &old(self).modules@[i],
                    info.0,
                    info.1@,
                ),
            final(self).sepatator == old(self).sepatator,
            final(self).side == old(self).side,
            final(self).background_color == old(self).background_color,
    {
        let mode = info.0;
        let file: String = *info.1;
        let n = self.modules.len();
        let mut i: usize = 0;
        while i < n
            invariant
                i <= n,
                n == self.modules@.len(),
                n == old(self).modules@.len(),
                self.sepatator == old(self).sepatator,
                self.side == old(self).side,
                self.background_color == old(self).background_color,
                forall|k: int|
                    0 <= k < i ==> (#[trigger] self.modules@[k]).informed(
                        &old(self).modules@[k],
                        mode,
                        file@,
                    ),
                forall|k: int| i <= k < n ==> self.modules@[k] == old(self).modules@[k],
            decreases n - i,
        {
            self.modules[i].get_editor_info((mode, Box::new(file.clone())));
            i += 1;
        }
    }

    /// The row of the screen that the bar lies in.
    pub fn row(&self, size: (u16, u16)) -> (row: u16)
        requires
            size.1 >= 1,
        ensures
            row == bar_row(self.side, size.1),
    {
        match self.side {
            Side::Bottom => size.1 - 1,
            Side::Top => 0,
        }
    }
}

} // verus!
