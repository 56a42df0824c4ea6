//! Command grammar and validation for a line-oriented chat client.
//!
//! A line typed by the user is split into a keyword and arguments, the
//! keyword selects one of eight commands, and that command's validator checks
//! the number and shape of the arguments. The result is either a `Command`
//! whose payload satisfies its validator, or a `ChatError` that says why the
//! line was rejected.
pub mod command;
pub mod error;
pub mod laws;
pub mod room;
pub mod session;
pub mod text;
