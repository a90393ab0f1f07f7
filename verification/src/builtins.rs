//! What the builtin commands `export` and `source` decide. Running a file,
//! changing the variable scope and writing to the terminal are the caller's
//! part.

pub mod export;
pub mod source;
