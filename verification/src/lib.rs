//! Core engine of a minimal duplex text chat: two peers exchange
//! newline-delimited messages over one byte stream while a terminal
//! interface shows the shared message log and lets a user type new lines.
//!
//! This crate holds the verified heart of that tool: the editor state
//! machine, the append-only message log, the termination and redraw flags,
//! the receiver's per-record transition, and the event-loop key dispatch.
//! Connection setup, terminal handling, rendering and logging are external
//! collaborators driven by the surrounding binary.

pub mod dispatch;
pub mod editor;
pub mod flags;
pub mod log;
pub mod session;
