//! Sends a designated window back to the i3 scratchpad as soon as it loses
//! focus.
//!
//! The library holds the decisions: which window counts as the watched one,
//! when a workspace is empty, and, for each focus event, which command (if
//! any) goes out and what the tracker believes next. Talking to i3 is left to
//! the caller, which sends the command and only then commits the new state.
pub mod command;
pub mod focus;
pub mod laws;
