//! Verified core of a cross-platform clipboard library.
//!
//! The operating system's clipboard is reached by a thin host layer; this
//! crate holds everything that is decided or computed about it: which native
//! format identifiers are recognised, how raw clipboard buffers become
//! portable [`ClipboardItem`] values, what a write installs, and when the
//! clipboard counts as changed.
//!
//! A [`Clipboard`] holds the content that the host last read from the
//! operating system (or that was last written), so every read is a function
//! of that content and every write says exactly what is to be installed.
pub mod macos;
pub mod models;
pub mod monitor;
pub mod text;
pub mod windows;

pub use models::{Clipboard, ClipboardItem, Host, WriteError};
