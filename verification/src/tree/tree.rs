use vstd::prelude::*;
use vstd::string::*;
use crate::names::{
    clone_names, join_path_from, join_segments, last_segment, separator, split_path, starts_with, str_eq,
};
use crate::print_config::{PrintConfig, PrintConfigBuilder, PrintConfigView};
use crate::types::rust_type::{RustType, RustTypeView};

verus! {

/// A declaration in the tree of a file, with the nodes below it. A node
/// that carries a link stands for the full definition of a type that is
/// built elsewhere in the same tree: whoever walks the tree goes on at the
/// link's target.
#[derive(Debug, PartialEq, Eq)]
pub struct TreeNode {
    pub id: String,
    pub name: String,
    pub rtype: RustType,
    pub children: Option<Vec<TreeNode>>,
    pub link: Option<Box<TreeNode>>,
}

/// The mathematical content of a [`TreeNode`].
pub struct TreeNodeView {
    pub id: Seq<char>,
    pub name: Seq<char>,
    pub rtype: RustTypeView,
    pub children: Option<Seq<TreeNodeView>>,
    pub link: Option<Box<TreeNodeView>>,
}

impl TreeNodeView {
    /// The children, none where none were added.
    pub open spec fn child_list(self) -> Seq<TreeNodeView> {
        match self.children {
            Some(children) => children,
            None => Seq::empty(),
        }
    }
}

/// The views of a list of nodes.
pub open spec fn node_views(nodes: Seq<TreeNode>) -> Seq<TreeNodeView>
    decreases nodes,
{
    Seq::new(
        nodes.len(),
        |i: int|
            if 0 <= i < nodes.len() {
                node_view(nodes[i])
            } else {
                arbitrary()
            },
    )
}

/// The view of a node.
pub open spec fn node_view(node: TreeNode) -> TreeNodeView
    decreases node,
{
    TreeNodeView {
        id: node.id@,
        name: node.name@,
        rtype: node.rtype@,
        children: match node.children {
            Some(children) => Some(node_views(children@)),
            None => None,
        },
        link: match node.link {
            Some(target) => Some(Box::new(node_view(*target))),
            None => None,
        },
    }
}

impl View for TreeNode {
    type V = TreeNodeView;

    open spec fn view(&self) -> TreeNodeView {
        node_view(*self)
    }
}

impl DeepView for TreeNode {
    type V = TreeNodeView;

    open spec fn deep_view(&self) -> TreeNodeView {
        node_view(*self)
    }
}

/// The deep view of a list of nodes is the list of their views.
pub proof fn lemma_node_views(nodes: Vec<TreeNode>)
    ensures
        nodes.deep_view() == node_views(nodes@),
{
}

/// The query path of a traversal: the path walked so far, joined, without
/// the file in front unless the query itself begins with the file.
pub open spec fn scoped_path(config: PrintConfigView) -> Seq<char> {
    if config.use_full_path || config.path.len() == 0 {
        join_segments(config.path)
    } else {
        join_segments(config.path.skip(1))
    }
}

/// Whether a node called `name`, reached by the path of `config`, is in the
/// scope of the query: always without a query; with one, if the path is the
/// query, or lies below it, or, unless the query begins with the file, if
/// the bare name is the last segment of the query.
pub open spec fn in_scope(config: PrintConfigView, name: Seq<char>) -> bool {
    match config.filter {
        None => true,
        Some(f) => {
            let p = scoped_path(config);
            ||| p == f
            ||| (f.is_prefix_of(p) && separator().is_prefix_of(p.skip(f.len() as int)))
            ||| (!config.use_full_path && name == last_segment(f))
        },
    }
}

/// The configuration one node further down.
pub open spec fn descend(config: PrintConfigView, name: Seq<char>) -> PrintConfigView {
    PrintConfigView { path: config.path.push(name), ..config }
}

/// The configuration inside the link whose target is called `name`: the
/// query is dropped, so that all of the target is in scope, and the path goes
/// on at the target.
pub open spec fn enter_link(config: PrintConfigView, name: Seq<char>) -> PrintConfigView {
    PrintConfigView { filter: None, path: config.path.push(name), is_linked: true, ..config }
}

/// The declarations that the children print, child after child, each one
/// step further down the path.
pub open spec fn printed_by_children(
    children: Seq<TreeNodeView>,
    config: PrintConfigView,
) -> Seq<RustTypeView>
    decreases children, 1int,
{
    if children.len() == 0 {
        Seq::empty()
    } else {
        printed_by_children(children.drop_last(), config) + printed(
            children.last(),
            descend(config, children.last().name),
        )
    }
}

/// The declarations that a node prints. A node out of scope hands over to
/// its children. A node in scope prints its declaration, or, where it
/// carries a link, what the target prints; inside a link no further link is
/// entered.
pub open spec fn printed(node: TreeNodeView, config: PrintConfigView) -> Seq<RustTypeView>
    decreases node, 0int,
{
    if !in_scope(config, node.name) {
        match node.children {
            Some(children) => printed_by_children(children, config),
            None => Seq::empty(),
        }
    } else {
        match node.link {
            Some(target) => {
                if config.is_linked {
                    Seq::empty()
                } else {
                    printed(*target, enter_link(config, target.name))
                }
            },
            None => seq![node.rtype],
        }
    }
}

/// A copy of a list of nodes.
pub fn clone_nodes(nodes: &Vec<TreeNode>) -> (r: Vec<TreeNode>)
    ensures
        r.deep_view() == nodes.deep_view(),
    decreases nodes,
{
    let mut out: Vec<TreeNode> = Vec::new();
    let mut i: usize = 0;
    while i < nodes.len()
        invariant
            i <= nodes.len(),
            out.len() == i,
            forall|j: int| 0 <= j < i ==> node_view(out@[j]) == node_view(nodes@[j]),
        decreases nodes.len() - i,
    {
        let c = clone_node(&nodes[i]);
        out.push(c);
        i += 1;
    }
    out
}

/// A copy of a node with all that is below it.
pub fn clone_node(node: &TreeNode) -> (r: TreeNode)
    ensures
        r@ == node@,
    decreases node,
{
    let children = match &node.children {
        Some(children) => {
            let copies = clone_nodes(children);
            proof {
                lemma_node_views(copies);
                lemma_node_views(*children);
            }
            Some(copies)
        },
        None => None,
    };
    let link = match &node.link {
        Some(target) => Some(Box::new(clone_node(&**target))),
        None => None,
    };
    TreeNode { id: node.id.clone(), name: node.name.clone(), rtype: node.rtype.clone(), children, link }
}

/// Appends to `out` what the nodes print, node after node, each one step
/// further down the path of `config`; says whether there was anything.
pub fn print_nodes(nodes: &Vec<TreeNode>, out: &mut Vec<RustType>, config: &PrintConfig) -> (r:
    bool)
    ensures
        final(out).deep_view() == old(out).deep_view() + printed_by_children(
            node_views(nodes@),
            config@,
        ),
        r == (printed_by_children(node_views(nodes@), config@).len() > 0),
    decreases nodes, 0int,
{
    let mut has_printed = false;
    let ghost views = node_views(nodes@);
    let mut i: usize = 0;
    while i < nodes.len()
        invariant
            i <= nodes.len(),
            views == node_views(nodes@),
            out.deep_view() == old(out).deep_view() + printed_by_children(
                views.take(i as int),
                config@,
            ),
            has_printed == (printed_by_children(views.take(i as int), config@).len() > 0),
        decreases nodes.len() - i,
    {
        let child = &nodes[i];
        let mut child_config = config.clone();
        child_config.add_to_path(child.name.clone());
        proof {
            let next = views.take(i + 1);
            assert(next.drop_last() =~= views.take(i as int));
        }
        let child_printed = child.print(out, child_config);
        has_printed = has_printed || child_printed;
        i += 1;
    }
    assert(views.take(nodes.len() as int) =~= views);
    has_printed
}

impl Clone for TreeNode {
    fn clone(&self) -> (r: Self)
        ensures
            r@ == self@,
    {
        clone_node(self)
    }
}

/// The configuration inside the link whose target is called `name`.
pub fn link_config(config: &PrintConfig, name: &str) -> (r: PrintConfig)
    ensures
        r@ == enter_link(config@, name@),
{
    let mut path = clone_names(config.path());
    path.push(name.to_owned());
    assert(path.deep_view() =~= config@.path.push(name@));
    PrintConfigBuilder::new().filter(None).path(path).debug(config.debug()).is_linked(
        true,
    ).use_full_path(config.use_full_path()).build()
}

impl TreeNode {
    /// A node for `rtype`, without children and without a link.
    pub fn new(rtype: RustType) -> (r: Self)
        ensures
            r@ == (TreeNodeView {
                id: rtype@.id(),
                name: rtype@.name(),
                rtype: rtype@,
                children: None,
                link: None,
            }),
    {
        TreeNode {
            id: rtype.id().to_owned(),
            name: rtype.name().to_owned(),
            rtype,
            children: None,
            link: None,
        }
    }

    pub fn id(&self) -> (r: &str)
        ensures
            r@ == self@.id,
    {
        self.id.as_str()
    }

    pub fn name(&self) -> (r: &str)
        ensures
            r@ == self@.name,
    {
        self.name.as_str()
    }

    pub fn rtype(&self) -> (r: &RustType)
        ensures
            r@ == self@.rtype,
    {
        &self.rtype
    }

    /// The declaration of the node, to be changed in place.
    pub fn rtype_mut(&mut self) -> (r: &mut RustType)
        ensures
            *r == old(self).rtype,
            *final(self) == (TreeNode { rtype: *final(r), ..*old(self) }),
    {
        &mut self.rtype
    }

    /// The children of the node, to be changed in place. A node that had no
    /// children gets an empty list of them.
    pub fn children_mut(&mut self) -> (r: &mut Vec<TreeNode>)
        ensures
            node_views(r@) == old(self)@.child_list(),
            *final(self) == (TreeNode { children: Some(*final(r)), ..*old(self) }),
    {
        let r = self.children.get_or_insert(Vec::new());
        r
    }

    pub fn children(&self) -> (r: &Option<Vec<TreeNode>>)
        ensures
            r.deep_view() == self@.children,
    {
        proof {
            if self.children is Some {
                lemma_node_views(self.children->Some_0);
            }
        }
        &self.children
    }

    /// Appends `child` to the children of the node.
    pub fn add_child(&mut self, child: TreeNode)
        ensures
            final(self)@ == (TreeNodeView {
                children: Some(old(self)@.child_list().push(child@)),
                ..old(self)@
            }),
    {
        match &mut self.children {
            Some(children) => {
                let ghost before = node_views(children@);
                children.push(child);
                assert(node_views(children@) =~= before.push(child@));
            },
            None => {
                let mut children: Vec<TreeNode> = Vec::new();
                children.push(child);
                assert(node_views(children@) =~= Seq::<TreeNodeView>::empty().push(child@));
                self.children = Some(children);
            },
        }
    }

    /// Whether the node, reached by the path of `config`, is in the scope
    /// of the query.
    pub fn should_print(&self, config: &PrintConfig) -> (r: bool)
        ensures
            r == in_scope(config@, self@.name),
    {
        match config.filter() {
            None => true,
            Some(f) => {
                let path = config.path();
                let from: usize = if config.use_full_path() || path.len() == 0 {
                    0
                } else {
                    1
                };
                assert(path.deep_view().skip(0) =~= path.deep_view());
                let p = join_path_from(path, from);
                if str_eq(p.as_str(), f.as_str()) {
                    return true;
                }
                let p_len = p.as_str().unicode_len();
                let f_len = f.as_str().unicode_len();
                if starts_with(p.as_str(), f.as_str()) {
                    let rest = p.as_str().substring_char(f_len, p_len);
                    proof {
                        reveal_strlit("::");
                    }
                    if starts_with(rest, "::") {
                        return true;
                    }
                }
                if config.use_full_path() {
                    return false;
                }
                let segments = split_path(f.as_str());
                let last = &segments[segments.len() - 1];
                str_eq(self.name.as_str(), last.as_str())
            },
        }
    }

    /// Appends to `out` the declarations that the node prints when it is
    /// reached by the path of `config`, and says whether there was any.
    pub fn print(&self, out: &mut Vec<RustType>, config: PrintConfig) -> (r: bool)
        ensures
            final(out).deep_view() == old(out).deep_view() + printed(self@, config@),
            r == (printed(self@, config@).len() > 0),
        decreases self, 1int,
    {
        if !self.should_print(&config) {
            return self.print_children(out, &config);
        }
        if self.link.is_some() {
            self.print_linked_node(out, &config)
        } else {
            out.push(self.rtype.clone());
            true
        }
    }

    fn print_children(&self, out: &mut Vec<RustType>, config: &PrintConfig) -> (r: bool)
        ensures
            final(out).deep_view() == old(out).deep_view() + printed_by_children(
                self@.child_list(),
                config@,
            ),
            r == (printed_by_children(self@.child_list(), config@).len() > 0),
        decreases self, 0int,
    {
        match &self.children {
            Some(children) => print_nodes(children, out, config),
            None => {
                false
            },
        }
    }

    fn print_linked_node(&self, out: &mut Vec<RustType>, config: &PrintConfig) -> (r: bool)
        requires
            self.link is Some,
        ensures
            final(out).deep_view() == old(out).deep_view() + (if config@.is_linked {
                Seq::<RustTypeView>::empty()
            } else {
                printed(*self@.link->Some_0, enter_link(config@, self@.link->Some_0.name))
            }),
            r == (!config@.is_linked && printed(
                *self@.link->Some_0,
                enter_link(config@, self@.link->Some_0.name),
            ).len() > 0),
        decreases self, 0int,
    {
        if config.is_linked() {
            return false;
        }
        match &self.link {
            Some(target) => {
                let linked_config = link_config(config, target.name());
                target.print(out, linked_config)
            },
            None => false,
        }
    }
}

} // verus!
