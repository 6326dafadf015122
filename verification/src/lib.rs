//! Decision core of a "now playing" exporter for an audio player.
//!
//! The player reports playback events; for the relevant ones the exporter renders a
//! user-configured format expression against the playing track and writes the text to a
//! user-chosen file. Everything the player or the file system does is outside work: the
//! host program performs it and hands back what it got. This crate holds the decisions
//! in between, as state machines whose every step is verified.
//!
//! * [`reactor`]: the plugin's life cycle, and what each of the player's events sets off.
//! * [`exporter`]: one export, from the reading of the output path to the write.
//! * [`formatter`]: one render, from the playing track to the rendered text.
//! * [`protocol`]: the requests that a session makes and the replies that it takes.
//! * [`handle`], [`text`], [`settings`], [`error`]: what the sessions are made of.
//! * [`render_run`], [`export_run`]: what holds of whole renders and whole exports, such
//!   as that every resource handed out is released exactly once.

pub mod error;
pub mod export_run;
pub mod exporter;
pub mod formatter;
pub mod handle;
pub mod protocol;
pub mod reactor;
pub mod render_run;
pub mod settings;
pub mod text;
