//! The failures that the editing engine reports to its host.

use vstd::prelude::*;

verus! {

/// A failure of a session operation. None of them ends the session.
#[derive(Clone, Copy, Debug, PartialEq, Eq, Structural)]
pub enum EditError {
    /// A plain write was asked for while the buffer has no file name.
    NoFileName,
    /// The file to edit could not be read.
    FileNotFound,
    /// The terminal has too few rows for one text row above the two bars.
    TerminalTooSmall,
}

} // verus!
