//! Decision logic of a terminal helper for Linux desktops: the key-driven
//! state machines of its screens, the parsing of command output, and the
//! confirmation and dry-run rules that guard every system command.

pub mod commands;
pub mod keys;
pub mod modules;
pub mod privilege;
pub mod shell;
pub mod text;
pub mod tui;
