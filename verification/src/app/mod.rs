//! Application-level state, configuration and keyboard shortcuts.

pub mod config;
pub mod shortcuts;
pub mod state;
