use vstd::prelude::*;
use vstd::string::*;
use crate::names::str_eq;
use super::tree::{TreeNode, TreeNodeView};

verus! {

/// A node with the file that declares it.
#[derive(Debug, PartialEq, Eq)]
pub struct NodeEntry {
    node: TreeNode,
    source: Option<String>,
}

/// The mathematical content of a [`NodeEntry`].
pub struct NodeEntryView {
    pub node: TreeNodeView,
    pub source: Option<Seq<char>>,
}

impl View for NodeEntry {
    type V = NodeEntryView;

    closed spec fn view(&self) -> NodeEntryView {
        NodeEntryView { node: self.node@, source: self.source.deep_view() }
    }
}

impl DeepView for NodeEntry {
    type V = NodeEntryView;

    open spec fn deep_view(&self) -> NodeEntryView {
        self@
    }
}

impl Clone for NodeEntry {
    fn clone(&self) -> (r: Self)
        ensures
            r@ == self@,
    {
        NodeEntry {
            node: self.node.clone(),
            source: match &self.source {
                Some(s) => Some(s.clone()),
                None => None,
            },
        }
    }
}

impl NodeEntry {
    /// `node`, declared in `source`.
    pub fn new(node: TreeNode, source: Option<&str>) -> (r: Self)
        ensures
            r@ == (NodeEntryView { node: node@, source: source.deep_view() }),
    {
        NodeEntry {
            node,
            source: match source {
                Some(s) => Some(s.to_owned()),
                None => None,
            },
        }
    }

    pub fn node(&self) -> (r: &TreeNode)
        ensures
            r@ == self@.node,
    {
        &self.node
    }

    pub fn source(&self) -> (r: Option<&str>)
        ensures
            r.deep_view() == self@.source,
    {
        match &self.source {
            Some(s) => Some(s.as_str()),
            None => None,
        }
    }
}

/// The map that a list of keys and a list of values of the same length
/// stand for: each key leads to the value at its place.
pub open spec fn table_map<V>(keys: Seq<Seq<char>>, values: Seq<V>) -> Map<Seq<char>, V> {
    Map::new(
        |key: Seq<char>| keys.contains(key),
        |key: Seq<char>| values[keys.index_of_first(key).unwrap()],
    )
}

/// A new key at the end is an insertion into the map.
pub proof fn lemma_table_push<V>(keys: Seq<Seq<char>>, values: Seq<V>, key: Seq<char>, value: V)
    requires
        keys.len() == values.len(),
        !keys.contains(key),
    ensures
        table_map(keys.push(key), values.push(value)) == table_map(keys, values).insert(key, value),
{
    let after = keys.push(key);
    let left = table_map(after, values.push(value));
    let right = table_map(keys, values).insert(key, value);
    assert forall|k: Seq<char>| left.dom().contains(k) <==> right.dom().contains(k) by {
        if keys.contains(k) {
            let i = choose|i: int| 0 <= i < keys.len() && keys[i] == k;
            assert(after[i] == k);
        }
        if k == key {
            assert(after[keys.len() as int] == k);
        }
    }
    assert forall|k: Seq<char>| left.dom().contains(k) implies left[k] == right[k] by {
        after.index_of_first_ensures(k);
        if k != key {
            keys.index_of_first_ensures(k);
            let j = keys.index_of_first(k).unwrap();
            assert(after[j] == k);
        }
    }
}

/// A new value at the place of a key is an insertion into the map.
pub proof fn lemma_table_update<V>(keys: Seq<Seq<char>>, values: Seq<V>, i: int, value: V)
    requires
        keys.len() == values.len(),
        keys.no_duplicates(),
        0 <= i < keys.len(),
    ensures
        table_map(keys, values.update(i, value)) == table_map(keys, values).insert(keys[i], value),
{
    let left = table_map(keys, values.update(i, value));
    let right = table_map(keys, values).insert(keys[i], value);
    assert forall|k: Seq<char>| left.dom().contains(k) implies left[k] == right[k] by {
        keys.index_of_first_ensures(k);
    }
}

/// With keys that do not repeat, the map has as many entries as there are
/// keys.
pub proof fn lemma_table_len<V>(keys: Seq<Seq<char>>, values: Seq<V>)
    requires
        keys.no_duplicates(),
    ensures
        table_map(keys, values).dom().finite(),
        table_map(keys, values).dom().len() == keys.len(),
{
    keys.unique_seq_to_set();
}

/// The table after `found` has been recorded in it, one after the other. A
/// later record replaces an earlier one of the same identifier.
pub open spec fn record(
    table: Map<Seq<char>, NodeEntryView>,
    found: Seq<(Seq<char>, NodeEntryView)>,
) -> Map<Seq<char>, NodeEntryView>
    decreases found.len(),
{
    if found.len() == 0 {
        table
    } else {
        record(table, found.drop_last()).insert(found.last().0, found.last().1)
    }
}

/// Recording two lists one after the other is recording their
/// concatenation.
pub proof fn lemma_record_concat(
    table: Map<Seq<char>, NodeEntryView>,
    a: Seq<(Seq<char>, NodeEntryView)>,
    b: Seq<(Seq<char>, NodeEntryView)>,
)
    ensures
        record(record(table, a), b) == record(table, a + b),
    decreases b.len(),
{
    if b.len() > 0 {
        lemma_record_concat(table, a, b.drop_last());
        assert((a + b).drop_last() =~= a + b.drop_last());
    }
}

/// The order of the keys after `found` has been recorded: a key that was
/// not there goes to the end, a key that was there keeps its place.
pub open spec fn record_order(
    order: Seq<Seq<char>>,
    found: Seq<(Seq<char>, NodeEntryView)>,
) -> Seq<Seq<char>>
    decreases found.len(),
{
    if found.len() == 0 {
        order
    } else {
        let before = record_order(order, found.drop_last());
        if before.contains(found.last().0) {
            before
        } else {
            before.push(found.last().0)
        }
    }
}

/// The order after two lists were recorded one after the other is the
/// order after their concatenation was.
pub proof fn lemma_record_order_concat(
    order: Seq<Seq<char>>,
    a: Seq<(Seq<char>, NodeEntryView)>,
    b: Seq<(Seq<char>, NodeEntryView)>,
)
    ensures
        record_order(record_order(order, a), b) == record_order(order, a + b),
    decreases b.len(),
{
    if b.len() > 0 {
        lemma_record_order_concat(order, a, b.drop_last());
        assert((a + b).drop_last() =~= a + b.drop_last());
    }
}

/// Tree nodes by key, each with the file that declares it. A key leads to
/// the node that was last inserted under it.
pub struct NodeTable {
    rows: Vec<(String, NodeEntry)>,
}

/// The keys of a list of rows.
pub open spec fn row_keys(rows: Seq<(Seq<char>, NodeEntryView)>) -> Seq<Seq<char>> {
    Seq::new(rows.len(), |i: int| rows[i].0)
}

/// The entries of a list of rows.
pub open spec fn row_entries(rows: Seq<(Seq<char>, NodeEntryView)>) -> Seq<NodeEntryView> {
    Seq::new(rows.len(), |i: int| rows[i].1)
}

impl NodeTable {
    #[verifier::type_invariant]
    spec fn well_formed(&self) -> bool {
        row_keys(self.rows.deep_view()).no_duplicates()
    }

    /// The keys in the order in which they were first inserted.
    pub closed spec fn key_order(&self) -> Seq<Seq<char>> {
        row_keys(self.rows.deep_view())
    }
}

impl View for NodeTable {
    type V = Map<Seq<char>, NodeEntryView>;

    closed spec fn view(&self) -> Map<Seq<char>, NodeEntryView> {
        table_map(row_keys(self.rows.deep_view()), row_entries(self.rows.deep_view()))
    }
}

/// The place of `key` among the rows, if it is there.
fn find_row(rows: &Vec<(String, NodeEntry)>, key: &str) -> (r: Option<usize>)
    ensures
        match r {
            Some(i) => i < rows.len() && row_keys(rows.deep_view())[i as int] == key@,
            None => !row_keys(rows.deep_view()).contains(key@),
        },
{
    let mut i: usize = 0;
    while i < rows.len()
        invariant
            i <= rows.len(),
            forall|j: int| 0 <= j < i ==> row_keys(rows.deep_view())[j] != key@,
        decreases rows.len() - i,
    {
        if str_eq(rows[i].0.as_str(), key) {
            return Some(i);
        }
        i += 1;
    }
    None
}

/// Whether a list of rows lists a table: every key of the table once, each
/// with what the table holds under it.
pub open spec fn lists(
    rows: Seq<(Seq<char>, NodeEntryView)>,
    table: Map<Seq<char>, NodeEntryView>,
) -> bool {
    &&& row_keys(rows).no_duplicates()
    &&& forall|key: Seq<char>| table.dom().contains(key) <==> row_keys(rows).contains(key)
    &&& forall|i: int| 0 <= i < rows.len() ==> table[(#[trigger] rows[i]).0] == rows[i].1
}

impl NodeTable {
    /// An empty table.
    pub fn new() -> (r: Self)
        ensures
            r@ == Map::<Seq<char>, NodeEntryView>::empty(),
            r.key_order() == Seq::<Seq<char>>::empty(),
    {
        let r = NodeTable { rows: Vec::new() };
        r
    }

    /// Puts `node` under `key`, in place of what was there.
    pub fn insert(&mut self, key: String, node: TreeNode, source: Option<&str>)
        ensures
            final(self)@ == old(self)@.insert(
                key@,
                NodeEntryView { node: node@, source: source.deep_view() },
            ),
            final(self).key_order() == if old(self).key_order().contains(key@) {
                old(self).key_order()
            } else {
                old(self).key_order().push(key@)
            },
            old(self).key_order().contains(key@) == old(self)@.dom().contains(key@),
    {
        proof {
            use_type_invariant(&*self);
        }
        let entry = NodeEntry::new(node, source);
        let mut rows: Vec<(String, NodeEntry)> = Vec::new();
        std::mem::swap(&mut rows, &mut self.rows);
        let ghost keys = row_keys(rows.deep_view());
        let ghost values = row_entries(rows.deep_view());
        match find_row(&rows, key.as_str()) {
            Some(i) => {
                rows.set(i, (key, entry));
                proof {
                    assert(row_keys(rows.deep_view()) =~= keys);
                    assert(row_entries(rows.deep_view()) =~= values.update(i as int, entry@));
                    lemma_table_update(keys, values, i as int, entry@);
                }
            },
            None => {
                rows.push((key, entry));
                proof {
                    assert(row_keys(rows.deep_view()) =~= keys.push(key@));
                    assert(row_entries(rows.deep_view()) =~= values.push(entry@));
                    lemma_table_push(keys, values, key@, entry@);
                }
            },
        }
        self.rows = rows;
    }

    /// The entry under `key`, if there is one.
    pub fn get(&self, key: &str) -> (r: Option<&NodeEntry>)
        ensures
            match r {
                Some(entry) => self@.dom().contains(key@) && entry@ == self@[key@],
                None => !self@.dom().contains(key@),
            },
    {
        proof {
            use_type_invariant(self);
        }
        match find_row(&self.rows, key) {
            Some(i) => {
                proof {
                    row_keys(self.rows.deep_view()).index_of_first_ensures(key@);
                }
                Some(&self.rows[i].1)
            },
            None => None,
        }
    }

    /// Whether there is an entry under `key`.
    pub fn contains_key(&self, key: &str) -> (r: bool)
        ensures
            r == self@.dom().contains(key@),
    {
        find_row(&self.rows, key).is_some()
    }

    /// The number of entries.
    pub fn len(&self) -> (r: usize)
        ensures
            self@.dom().finite(),
            r == self@.dom().len(),
            r == self.key_order().len(),
    {
        proof {
            use_type_invariant(self);
            lemma_table_len(row_keys(self.rows.deep_view()), row_entries(self.rows.deep_view()));
        }
        self.rows.len()
    }

    /// The table as a list, in the order in which the keys were first
    /// inserted.
    pub fn to_vec(&self) -> (rows: Vec<(String, NodeEntry)>)
        ensures
            lists(rows.deep_view(), self@),
            row_keys(rows.deep_view()) == self.key_order(),
    {
        proof {
            use_type_invariant(self);
        }
        let mut out: Vec<(String, NodeEntry)> = Vec::new();
        let mut i: usize = 0;
        while i < self.rows.len()
            invariant
                i <= self.rows.len(),
                out.len() == i,
                forall|j: int| 0 <= j < i ==> out.deep_view()[j] == self.rows.deep_view()[j],
            decreases self.rows.len() - i,
        {
            let ghost before = out.deep_view();
            let row = (self.rows[i].0.clone(), self.rows[i].1.clone());
            out.push(row);
            assert(out.deep_view() =~= before.push(row.deep_view()));
            i += 1;
        }
        proof {
            assert(out.deep_view() =~= self.rows.deep_view());
            let keys = row_keys(self.rows.deep_view());
            assert forall|i: int| 0 <= i < out.len() implies self@[(
            #[trigger] out.deep_view()[i]).0] == out.deep_view()[i].1 by {
                keys.index_of_first_ensures(keys[i]);
            }
        }
        out
    }

    /// The key at place `i`, in the order in which the keys were first
    /// inserted.
    pub fn key_at(&self, i: usize) -> (r: &str)
        requires
            i < self.key_order().len(),
        ensures
            r@ == self.key_order()[i as int],
            self@.dom().contains(r@),
    {
        self.rows[i].0.as_str()
    }

    /// The entry at place `i`, in the order in which the keys were first
    /// inserted.
    pub fn entry_at(&self, i: usize) -> (r: &NodeEntry)
        requires
            i < self.key_order().len(),
        ensures
            self@.dom().contains(self.key_order()[i as int]),
            r@ == self@[self.key_order()[i as int]],
    {
        proof {
            use_type_invariant(self);
            row_keys(self.rows.deep_view()).index_of_first_ensures(self.key_order()[i as int]);
        }
        &self.rows[i].1
    }
}

} // verus!
