//! Verified core of a desktop journaling backend: it builds the requests the
//! journal sends to the Telegram Bot API and a public weather API, interprets
//! their JSON responses, and decides how the main window reacts to tray and
//! close events. All network and filesystem traffic stays outside this crate;
//! the functions here work on plain values and carry proved contracts.

pub mod encode;
pub mod json;
pub mod multipart;
pub mod numfmt;
pub mod state;
pub mod strutil;
pub mod telegram;
pub mod updater;
pub mod weather;

pub use state::AppState;
pub use state::CloseAction;
pub use state::WindowCommand;
