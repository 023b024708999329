//! The workings of a minimal TeamSpeak 3 client.

pub mod api;
pub mod audio;
pub mod client;
pub mod config;
pub mod i18n;
pub mod interface;
pub mod ordering;
pub mod parity;
pub mod session;
pub mod snapshot;
pub mod stream;
pub mod sync;
pub mod text;
pub mod texts;
pub mod tray;
pub mod volumes;
pub mod worker;

pub use sync::{lock, try_lock};
