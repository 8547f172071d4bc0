//! The tree of one file, and what is built on it: the trees of all files,
//! and the forward and reverse queries.

pub mod builder;
pub mod dependencies;
pub mod dependents;
pub mod initialize;
pub mod local_registry;
pub mod root;
pub mod table;
pub mod tree;

pub use builder::TreeBuilder;
pub use dependencies::{find_dependencies, Dependencies, Dependency};
pub use dependents::{find_dependents, Dependent, Dependents};
pub use initialize::ChunkInitializer;
pub use local_registry::{LocalRegistry, LocalRegistryItem};
pub use root::RootNode;
pub use table::{NodeEntry, NodeTable};
pub use tree::TreeNode;
