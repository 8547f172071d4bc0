use vstd::prelude::*;
use vstd::string::*;
use crate::localfs::file_path::{FilePath, FilePathView};
use crate::names::str_eq;
use crate::print_config::{PrintConfig, PrintConfigBuilder, PrintConfigView};
use crate::types::rust_type::{RustType, RustTypeView};
use super::dependencies::Dependencies;
use super::dependents::Dependents;
use super::table::NodeEntryView;
use super::tree::{
    node_views, print_nodes, printed_by_children, TreeNode, TreeNodeView,
};

verus! {

/// The tree of one file: its top-level declarations, and the answers to
/// the queries that were made on it.
pub struct RootNode {
    file_path: FilePath,
    dependencies: Dependencies,
    dependents: Dependents,
    children: Vec<TreeNode>,
}

/// The mathematical content of a [`RootNode`].
pub struct RootNodeView {
    pub file_path: FilePathView,
    /// What the declarations in the scope of the last forward query depend
    /// on, by identifier.
    pub dependencies: Map<Seq<char>, NodeEntryView>,
    /// The identifiers of the dependencies in the order in which they were
    /// first found.
    pub dependency_order: Seq<Seq<char>>,
    /// The top-level declarations that depend on the target of the last
    /// reverse query, by identifier.
    pub dependents: Map<Seq<char>, NodeEntryView>,
    /// The identifiers of the dependents in the order in which they were
    /// first found.
    pub dependent_order: Seq<Seq<char>>,
    /// The top-level declarations.
    pub children: Seq<TreeNodeView>,
}

impl View for RootNode {
    type V = RootNodeView;

    closed spec fn view(&self) -> RootNodeView {
        RootNodeView {
            file_path: self.file_path@,
            dependencies: self.dependencies@,
            dependency_order: self.dependencies.id_order(),
            dependents: self.dependents@,
            dependent_order: self.dependents.id_order(),
            children: node_views(self.children@),
        }
    }
}

impl DeepView for RootNode {
    type V = RootNodeView;

    open spec fn deep_view(&self) -> RootNodeView {
        self@
    }
}

/// The names of a list of nodes.
pub open spec fn node_names(nodes: Seq<TreeNodeView>) -> Seq<Seq<char>> {
    Seq::new(nodes.len(), |i: int| nodes[i].name)
}

/// The first node called `name`, if there is one.
pub open spec fn find_named(nodes: Seq<TreeNodeView>, name: Seq<char>) -> Option<TreeNodeView> {
    match node_names(nodes).index_of_first(name) {
        Some(i) => Some(nodes[i]),
        None => None,
    }
}

/// The configuration at the root of the tree of `file`: the path holds the
/// file alone.
pub open spec fn root_config(
    file: Seq<char>,
    filter: Option<Seq<char>>,
    use_full_path: bool,
) -> PrintConfigView {
    PrintConfigView { filter, path: seq![file], debug: false, is_linked: false, use_full_path }
}

impl RootNodeView {
    /// The declarations that the tree prints under a query.
    pub open spec fn printed(self, filter: Option<Seq<char>>, use_full_path: bool) -> Seq<
        RustTypeView,
    > {
        printed_by_children(
            self.children,
            root_config(self.file_path.relative_path, filter, use_full_path),
        )
    }
}

/// The configuration at the root of the tree of `file`.
pub fn make_root_config(file: &str, filter: Option<&str>, use_full_path: bool) -> (r:
    PrintConfig)
    ensures
        r@ == root_config(file@, filter.deep_view(), use_full_path),
{
    let mut path: Vec<String> = Vec::new();
    path.push(file.to_owned());
    assert(path.deep_view() =~= seq![file@]);
    let filter = match filter {
        Some(f) => Some(f.to_owned()),
        None => None,
    };
    PrintConfigBuilder::new().filter(filter).path(path).is_linked(false).use_full_path(
        use_full_path,
    ).build()
}

/// The first of `nodes` that is called `name`, if there is one.
pub fn find_node_named<'a>(nodes: &'a Vec<TreeNode>, name: &str) -> (r: Option<&'a TreeNode>)
    ensures
        r.deep_view() == find_named(node_views(nodes@), name@),
{
    let ghost names = node_names(node_views(nodes@));
    let mut i: usize = 0;
    while i < nodes.len()
        invariant
            i <= nodes.len(),
            names == node_names(node_views(nodes@)),
            forall|j: int| 0 <= j < i ==> names[j] != name@,
        decreases nodes.len() - i,
    {
        if str_eq(nodes[i].name(), name) {
            proof {
                assert(names[i as int] == name@);
                names.index_of_first_ensures(name@);
            }
            return Some(&nodes[i]);
        }
        i += 1;
    }
    proof {
        names.index_of_first_ensures(name@);
    }
    None
}

impl RootNode {
    /// The tree of `file_path`, without declarations and without answers.
    pub fn new(file_path: FilePath) -> (r: Self)
        ensures
            r@ == (RootNodeView {
                file_path: file_path@,
                dependencies: Map::empty(),
                dependency_order: Seq::empty(),
                dependents: Map::empty(),
                dependent_order: Seq::empty(),
                children: Seq::empty(),
            }),
    {
        let r = RootNode {
            file_path,
            dependencies: Dependencies::default(),
            dependents: Dependents::default(),
            children: Vec::new(),
        };
        assert(node_views(r.children@) =~= Seq::empty());
        r
    }

    pub fn file_path(&self) -> (r: &FilePath)
        ensures
            r@ == self@.file_path,
    {
        &self.file_path
    }

    pub fn dependencies(&self) -> (r: &Dependencies)
        ensures
            r@ == self@.dependencies,
            r.id_order() == self@.dependency_order,
    {
        &self.dependencies
    }

    pub fn set_dependencies(&mut self, dependencies: Dependencies)
        ensures
            final(self)@ == (RootNodeView {
                dependencies: dependencies@,
                dependency_order: dependencies.id_order(),
                ..old(self)@
            }),
    {
        self.dependencies = dependencies;
    }

    pub fn dependents(&self) -> (r: &Dependents)
        ensures
            r@ == self@.dependents,
            r.id_order() == self@.dependent_order,
    {
        &self.dependents
    }

    pub fn set_dependents(&mut self, dependents: Dependents)
        ensures
            final(self)@ == (RootNodeView {
                dependents: dependents@,
                dependent_order: dependents.id_order(),
                ..old(self)@
            }),
    {
        self.dependents = dependents;
    }

    pub fn children(&self) -> (r: &Vec<TreeNode>)
        ensures
            r.deep_view() == self@.children,
            node_views(r@) == self@.children,
    {
        &self.children
    }

    /// The top-level declarations, to be changed in place.
    pub fn children_mut(&mut self) -> (r: &mut Vec<TreeNode>)
        ensures
            node_views(r@) == old(self)@.children,
            final(self)@ == (RootNodeView { children: node_views(final(r)@), ..old(self)@ }),
    {
        &mut self.children
    }

    /// Appends `child` to the top-level declarations.
    pub fn add_child(&mut self, child: TreeNode)
        ensures
            final(self)@ == (RootNodeView {
                children: old(self)@.children.push(child@),
                ..old(self)@
            }),
    {
        self.children.push(child);
        assert(node_views(self.children@) =~= node_views(old(self).children@).push(child@));
    }

    /// The first top-level declaration called `name`, if there is one.
    pub fn find_child_by_name(&self, name: &str) -> (r: Option<&TreeNode>)
        ensures
            r.deep_view() == find_named(self@.children, name@),
    {
        find_node_named(&self.children, name)
    }

    /// Whether a top-level declaration is called `name`.
    pub fn has_child_named(&self, name: &str) -> (r: bool)
        ensures
            r == find_named(self@.children, name@).is_some(),
            r == node_names(self@.children).contains(name@),
    {
        proof {
            node_names(self@.children).index_of_first_ensures(name@);
        }
        self.find_child_by_name(name).is_some()
    }

    /// Appends to `out` the declarations that the tree prints under a
    /// query.
    pub fn print(&self, out: &mut Vec<RustType>, filter: Option<&str>, use_full_path: bool)
        ensures
            final(out).deep_view() == old(out).deep_view() + self@.printed(
                filter.deep_view(),
                use_full_path,
            ),
    {
        let file = self.file_path.relative_path();
        let config = make_root_config(file.as_str(), filter, use_full_path);
        print_nodes(&self.children, out, &config);
    }
}

} // verus!
