//! Pick one of several configured destination directories for a magnet link
//! and work out the small metadata file that should be written there.
//!
//! The crate holds the decisions only: which entry is highlighted, what the
//! screen shows, which key does what, and which file with which contents an
//! export produces. Drawing, reading keys and writing files are left to the
//! program built on top of it.

pub mod app;
pub mod config;
pub mod error;
pub mod export;
pub mod input;
pub mod magnet;
pub mod render;
pub mod selection;
pub mod style;
pub mod text;
