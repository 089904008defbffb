//! Decision logic of a small always-on-top "now playing" desktop widget.
//!
//! The widget shows what the active media player reports and forwards
//! play/pause, next and previous back to it. Everything here works on plain
//! values: the caller talks to the media bus, the network and the window
//! system, and asks this library what each answer means and what to do next.

pub mod artwork;
pub mod config;
pub mod metadata;
pub mod runs;
pub mod startup;
pub mod tracker;
pub mod ui;
