//! Source-code intelligence for a tree of Rust files.
//!
//! The declarations of each file (functions, structs, enums and traits) are
//! built into a tree, and the public types of all files are registered by
//! name. Two queries are answered on a path-qualified declaration: what it
//! depends on, and what depends on it.
//!
//! The library works on declarations as plain values. Reading files and
//! parsing them is left to the caller, who hands over one
//! [`file_visitor::RustFileVisitor`] per file; [`map::list_map`] does the
//! rest.

pub mod error;
pub mod file_visitor;
pub mod function_visitor;
pub mod helpers;
pub mod localfs;
pub mod map;
pub mod names;
pub mod print_config;
pub mod registry;
pub mod text;
pub mod tree;
pub mod types;
pub mod writers;

pub use error::ClippyError;
pub use map::{list_map, FileListing};
