//! The interface state: the screen tabs, the confirmation dialog, the
//! running command and its result.

pub mod widgets;
pub mod app;
