//! A modal text editing engine: a line buffer, a scrolling viewport with a
//! screen cursor, the three interaction modes and the command line, each with
//! a machine-checked contract.

pub mod buffer;
pub mod clock;
pub mod command;
pub mod command_bar;
pub mod config;
pub mod editor;
pub mod error;
pub mod laws;
pub mod mode;
pub mod model;
pub mod modules;
pub mod settings;
pub mod status_bar;
pub mod text;
pub mod viewport;
