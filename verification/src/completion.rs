//! Candidate generation, navigation and per-command completion policy.

pub mod compgen;
pub mod compspec;
pub mod path;
pub mod selector;

pub use compgen::CompGen;
pub use compgen::Generated;
pub use compspec::CompSpec;
pub use compspec::CompSpecBuilder;
pub use path::cmd_completion;
pub use path::path_completion;
pub use path::scan_directory;
pub use path::CommandLookup;
pub use selector::CompletionSelector;
