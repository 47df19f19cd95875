pub mod config;
pub mod git;
pub mod time;
pub mod tui;
pub mod uwu;
pub mod watcher;
