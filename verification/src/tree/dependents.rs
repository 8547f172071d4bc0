//! What depends on a declaration.

pub mod extract_dependents;
pub mod find_dependents;

pub use find_dependents::find_dependents;

use vstd::prelude::*;
use vstd::string::*;
use super::table::{lists, row_keys, NodeEntry, NodeEntryView, NodeTable};
use super::tree::TreeNode;

verus! {

/// A declaration that refers to the target of a query, with the file that
/// declares it.
pub type Dependent = NodeEntry;

/// The top-level declarations of a file that refer to the target of a
/// query, by their identifiers.
pub struct Dependents {
    table: NodeTable,
}

impl View for Dependents {
    type V = Map<Seq<char>, NodeEntryView>;

    closed spec fn view(&self) -> Map<Seq<char>, NodeEntryView> {
        self.table@
    }
}

impl Dependents {
    /// The identifiers in the order in which they were first registered.
    pub closed spec fn id_order(&self) -> Seq<Seq<char>> {
        self.table.key_order()
    }
}

impl Default for Dependents {
    fn default() -> (r: Self)
        ensures
            r@ == Map::<Seq<char>, NodeEntryView>::empty(),
            r.id_order() == Seq::<Seq<char>>::empty(),
    {
        Dependents { table: NodeTable::new() }
    }
}

impl Dependents {
    /// Records `node` under its identifier, in place of what was recorded
    /// under it.
    pub fn register_item(&mut self, node: TreeNode, source: Option<&str>)
        ensures
            final(self)@ == old(self)@.insert(
                node@.id,
                NodeEntryView { node: node@, source: source.deep_view() },
            ),
            final(self).id_order() == if old(self).id_order().contains(node@.id) {
                old(self).id_order()
            } else {
                old(self).id_order().push(node@.id)
            },
    {
        let id = node.id().to_owned();
        self.table.insert(id, node, source);
    }

    /// The number of declarations recorded.
    pub fn len(&self) -> (r: usize)
        ensures
            self@.dom().finite(),
            r == self@.dom().len(),
            r == self.id_order().len(),
    {
        self.table.len()
    }

    /// What is recorded under `id`, if anything.
    pub fn get(&self, id: &str) -> (r: Option<&Dependent>)
        ensures
            match r {
                Some(entry) => self@.dom().contains(id@) && entry@ == self@[id@],
                None => !self@.dom().contains(id@),
            },
    {
        self.table.get(id)
    }

    /// What is recorded, as a list in the order of first registration.
    pub fn to_vec(&self) -> (rows: Vec<(String, Dependent)>)
        ensures
            lists(rows.deep_view(), self@),
            row_keys(rows.deep_view()) == self.id_order(),
    {
        self.table.to_vec()
    }

    /// The identifier at place `i`, in the order of first registration.
    pub fn id_at(&self, i: usize) -> (r: &str)
        requires
            i < self.id_order().len(),
        ensures
            r@ == self.id_order()[i as int],
            self@.dom().contains(r@),
    {
        self.table.key_at(i)
    }

    /// What is recorded at place `i`, in the order of first registration.
    pub fn item_at(&self, i: usize) -> (r: &Dependent)
        requires
            i < self.id_order().len(),
        ensures
            self@.dom().contains(self.id_order()[i as int]),
            r@ == self@[self.id_order()[i as int]],
    {
        self.table.entry_at(i)
    }
}

} // verus!
