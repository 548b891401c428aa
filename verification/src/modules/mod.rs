//! The screens of the helper, each a state machine driven by keys.

pub mod optimizations;
pub mod desktop_fixes;
pub mod package_manager;
pub mod network;
pub mod system_info;
pub mod log_viewer;
pub mod systemd;
