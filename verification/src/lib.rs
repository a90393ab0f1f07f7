//! The tab-completion engine of an interactive command shell, and what two
//! of the shell's builtin commands decide.
//!
//! The engine assembles candidate lists, decides which directory a path
//! completion scans, lets the user move through the candidates in a scrolling
//! window and splices the chosen candidate into the edit buffer. Ranking,
//! directory listing and executable lookup are services of the caller: the
//! engine fixes what is handed to them and returns what they give.

pub mod builtins;
pub mod completion;
pub mod context;
pub mod text;
