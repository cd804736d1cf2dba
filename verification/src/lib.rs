//! Verified adapter layer between a Ghostty-style virtual terminal and an
//! editor front end: key naming, input-encoder configuration, focus
//! encoding, terminal state summaries, render snapshots and callback queues.

pub mod focus;
pub mod key_input;
pub mod keys;
pub mod modes;
pub mod mouse;
pub mod text;
pub mod style;
pub mod summary;
pub mod vt;
pub mod render;
pub mod callbacks;
pub mod paths;
pub mod runtime;
pub mod search;
