use vstd::prelude::*;
use vstd::string::*;
use super::table::{NodeEntry, NodeEntryView, NodeTable};
use super::tree::TreeNode;

verus! {

/// A name that a query has resolved, with what it resolved to.
pub type LocalRegistryItem = NodeEntry;

/// The names that one query has resolved so far in one file, so that a name
/// is looked up in the registry of all files once.
pub struct LocalRegistry {
    table: NodeTable,
}

impl View for LocalRegistry {
    type V = Map<Seq<char>, NodeEntryView>;

    closed spec fn view(&self) -> Map<Seq<char>, NodeEntryView> {
        self.table@
    }
}

impl Default for LocalRegistry {
    fn default() -> (r: Self)
        ensures
            r@ == Map::<Seq<char>, NodeEntryView>::empty(),
    {
        LocalRegistry { table: NodeTable::new() }
    }
}

impl LocalRegistry {
    /// Remembers what `tree_node_name` resolved to.
    pub fn register_item(&mut self, tree_node_name: String, node: TreeNode, source: Option<&str>)
        ensures
            final(self)@ == old(self)@.insert(
                tree_node_name@,
                NodeEntryView { node: node@, source: source.deep_view() },
            ),
    {
        self.table.insert(tree_node_name, node, source);
    }

    /// What `name` resolved to, if it was resolved before.
    pub fn get_item_by_name(&self, name: &str) -> (r: Option<&LocalRegistryItem>)
        ensures
            match r {
                Some(entry) => self@.dom().contains(name@) && entry@ == self@[name@],
                None => !self@.dom().contains(name@),
            },
    {
        self.table.get(name)
    }

    /// The number of names resolved so far.
    pub fn len(&self) -> (r: usize)
        ensures
            self@.dom().finite(),
            r == self@.dom().len(),
    {
        self.table.len()
    }
}

} // verus!
