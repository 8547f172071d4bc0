//! Files: their identity, and which of them are read.

pub mod file_path;
pub mod files;

pub use file_path::FilePath;
pub use files::{has_rust_extension, next_depth, should_descend};
