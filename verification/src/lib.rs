//! Decision logic of a desktop shell around the local DeepSeek Harness server:
//! the life of the server process, the watch over it, the upgrade of its package,
//! the autostart switch and the tray menu. Whatever touches the outside world is
//! asked for step by step and answered with plain values.

pub mod autostart;
pub mod lifecycle;
pub mod npm_cache;
pub mod place;
pub mod probe;
pub mod server;
pub mod text;
pub mod tray;
pub mod upgrade;
pub mod watcher;
