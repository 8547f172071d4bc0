use vstd::prelude::*;
use vstd::string::*;
use crate::names::contains_name;
use crate::print_config::{PrintConfig, PrintConfigView};
use crate::registry::{
    keyed_by_name, GlobalRegistry, RegistryItemView, RegistryKind, RegistryKindView,
};

use crate::types::rust_function::RustFunctionView;
use crate::types::rust_type::{RustType, RustTypeView};
use super::initialize::{children_of, methods_of};
use super::local_registry::LocalRegistry;
use super::root::{find_named, find_node_named, node_names, RootNode, RootNodeView};
use super::table::{
    lemma_record_concat, lemma_record_order_concat, lists, record, record_order, row_keys,
    NodeEntry, NodeEntryView, NodeTable,
};
use super::tree::{descend, enter_link, in_scope, link_config, node_views, TreeNode, TreeNodeView};

verus! {

/// A declaration that a query found, with the file that declares it.
pub type Dependency = NodeEntry;

/// What the declarations in the scope of a query depend on, by the
/// identifier of the declaration.
pub struct Dependencies {
    table: NodeTable,
}

impl View for Dependencies {
    type V = Map<Seq<char>, NodeEntryView>;

    closed spec fn view(&self) -> Map<Seq<char>, NodeEntryView> {
        self.table@
    }
}

impl Dependencies {
    /// The identifiers in the order in which they were first registered.
    pub closed spec fn id_order(&self) -> Seq<Seq<char>> {
        self.table.key_order()
    }
}

impl Default for Dependencies {
    fn default() -> (r: Self)
        ensures
            r@ == Map::<Seq<char>, NodeEntryView>::empty(),
            r.id_order() == Seq::<Seq<char>>::empty(),
    {
        Dependencies { table: NodeTable::new() }
    }
}

impl Dependencies {
    /// Records `node` under `id`, in place of what was recorded under it.
    pub fn register_item(&mut self, id: String, node: TreeNode, source: Option<&str>)
        ensures
            final(self)@ == old(self)@.insert(
                id@,
                NodeEntryView { node: node@, source: source.deep_view() },
            ),
            final(self).id_order() == if old(self).id_order().contains(id@) {
                old(self).id_order()
            } else {
                old(self).id_order().push(id@)
            },
    {
        self.table.insert(id, node, source);
    }

    /// The number of declarations recorded.
    pub fn len(&self) -> (r: usize)
        ensures
            self@.dom().finite(),
            r == self@.dom().len(),
            r == self.id_order().len(),
    {
        self.table.len()
    }

    /// What is recorded under `id`, if anything.
    pub fn get(&self, id: &str) -> (r: Option<&Dependency>)
        ensures
            match r {
                Some(entry) => self@.dom().contains(id@) && entry@ == self@[id@],
                None => !self@.dom().contains(id@),
            },
    {
        self.table.get(id)
    }

    /// What is recorded, as a list in the order of first registration.
    pub fn to_vec(&self) -> (rows: Vec<(String, Dependency)>)
        ensures
            lists(rows.deep_view(), self@),
            row_keys(rows.deep_view()) == self.id_order(),
    {
        self.table.to_vec()
    }

    /// The identifier at place `i`, in the order of first registration.
    pub fn id_at(&self, i: usize) -> (r: &str)
        requires
            i < self.id_order().len(),
        ensures
            r@ == self.id_order()[i as int],
            self@.dom().contains(r@),
    {
        self.table.key_at(i)
    }

    /// What is recorded at place `i`, in the order of first registration.
    pub fn item_at(&self, i: usize) -> (r: &Dependency)
        requires
            i < self.id_order().len(),
        ensures
            self@.dom().contains(self.id_order()[i as int]),
            r@ == self@[self.id_order()[i as int]],
    {
        self.table.entry_at(i)
    }
}

/// A node without children and without a link.
pub open spec fn plain_node(decl: RustTypeView) -> TreeNodeView {
    TreeNodeView { id: decl.id(), name: decl.name(), rtype: decl, children: None, link: None }
}

/// The node that stands for a registered type: the type, and below it its
/// methods as they are.
pub open spec fn registry_node(kind: RegistryKindView) -> TreeNodeView {
    let methods = kind.as_type().method_list();
    TreeNodeView {
        id: kind.id(),
        name: kind.name(),
        rtype: kind.as_type(),
        children: children_of(
            Seq::new(methods.len(), |i: int| plain_node(RustTypeView::Function(methods[i]))),
        ),
        link: None,
    }
}

/// The file at the head of a path, if the path is not empty.
pub open spec fn file_of(path: Seq<Seq<char>>) -> Option<Seq<char>> {
    if path.len() > 0 {
        Some(path[0])
    } else {
        None
    }
}

/// What a used name resolves to, with the identifier under which it is
/// recorded: first the top-level declaration of that name in the file of
/// the query, tagged with that file; failing that, the registered type of
/// that name, tagged with the file that declares it; failing that,
/// nothing.
pub open spec fn resolve(
    name: Seq<char>,
    path: Seq<Seq<char>>,
    locals: Seq<TreeNodeView>,
    registry: Map<Seq<char>, RegistryItemView>,
) -> Option<(Seq<char>, NodeEntryView)> {
    match find_named(locals, name) {
        Some(local) => Some((local.id, NodeEntryView { node: local, source: file_of(path) })),
        None => {
            if registry.dom().contains(name) {
                let node = registry_node(registry[name].item);
                Some((node.id, NodeEntryView { node, source: registry[name].source }))
            } else {
                None
            }
        },
    }
}

/// What the uses of a function at the end of `path` resolve to, use after
/// use. A name that is on the path is passed over: nothing depends on
/// itself. A name that does not resolve is passed over too.
pub open spec fn collect(
    uses: Seq<Seq<char>>,
    path: Seq<Seq<char>>,
    locals: Seq<TreeNodeView>,
    registry: Map<Seq<char>, RegistryItemView>,
) -> Seq<(Seq<char>, NodeEntryView)>
    decreases uses.len(),
{
    if uses.len() == 0 {
        Seq::empty()
    } else {
        let before = collect(uses.drop_last(), path, locals, registry);
        if path.contains(uses.last()) {
            before
        } else {
            match resolve(uses.last(), path, locals, registry) {
                Some(found) => before.push(found),
                None => before,
            }
        }
    }
}

/// What a node records by itself: nothing out of scope; in scope, what its
/// link's target records, unless the walk is inside a link already, or,
/// for a function without a link, what its uses resolve to.
pub open spec fn own_dependencies(
    node: TreeNodeView,
    config: PrintConfigView,
    locals: Seq<TreeNodeView>,
    registry: Map<Seq<char>, RegistryItemView>,
) -> Seq<(Seq<char>, NodeEntryView)>
    decreases node, 0int,
{
    if !in_scope(config, node.name) {
        Seq::empty()
    } else {
        match node.link {
            Some(target) => {
                if config.is_linked {
                    Seq::empty()
                } else {
                    node_dependencies(*target, enter_link(config, target.name), locals, registry)
                }
            },
            None => match node.rtype {
                RustTypeView::Function(f) => collect(f.uses_list(), config.path, locals, registry),
                _ => Seq::empty(),
            },
        }
    }
}

/// What the walk records at a node and below it: what the node records by
/// itself, then what its children in scope record.
pub open spec fn node_dependencies(
    node: TreeNodeView,
    config: PrintConfigView,
    locals: Seq<TreeNodeView>,
    registry: Map<Seq<char>, RegistryItemView>,
) -> Seq<(Seq<char>, NodeEntryView)>
    decreases node, 1int,
{
    own_dependencies(node, config, locals, registry) + match node.children {
        Some(children) => children_dependencies(children, config, locals, registry),
        None => Seq::empty(),
    }
}

/// What the walk records below a node: child after child, each one step
/// further down the path, and only the children in scope.
pub open spec fn children_dependencies(
    children: Seq<TreeNodeView>,
    config: PrintConfigView,
    locals: Seq<TreeNodeView>,
    registry: Map<Seq<char>, RegistryItemView>,
) -> Seq<(Seq<char>, NodeEntryView)>
    decreases children, 0int,
{
    if children.len() == 0 {
        Seq::empty()
    } else {
        let child = children.last();
        let below = descend(config, child.name);
        children_dependencies(children.drop_last(), config, locals, registry) + if in_scope(
            below,
            child.name,
        ) {
            node_dependencies(child, below, locals, registry)
        } else {
            Seq::empty()
        }
    }
}

/// What the walk records for the first `n` top-level declarations of a
/// file. The walk enters each of them, in scope or not.
pub open spec fn top_dependencies(
    locals: Seq<TreeNodeView>,
    n: nat,
    config: PrintConfigView,
    registry: Map<Seq<char>, RegistryItemView>,
) -> Seq<(Seq<char>, NodeEntryView)>
    decreases n,
{
    if n == 0 || n > locals.len() {
        Seq::empty()
    } else {
        top_dependencies(locals, (n - 1) as nat, config, registry) + node_dependencies(
            locals[n - 1],
            descend(config, locals[n - 1].name),
            locals,
            registry,
        )
    }
}

/// The dependencies of the declarations of a file that are in the scope of
/// a query.
pub open spec fn dependencies_of(
    root: RootNodeView,
    config: PrintConfigView,
    registry: Map<Seq<char>, RegistryItemView>,
) -> Map<Seq<char>, NodeEntryView> {
    record(Map::empty(), top_dependencies(root.children, root.children.len(), config, registry))
}

/// The identifiers of those dependencies in the order in which the walk
/// first finds them.
pub open spec fn dependency_order_of(
    root: RootNodeView,
    config: PrintConfigView,
    registry: Map<Seq<char>, RegistryItemView>,
) -> Seq<Seq<char>> {
    record_order(
        Seq::empty(),
        top_dependencies(root.children, root.children.len(), config, registry),
    )
}

/// Whether what was remembered of earlier look-ups is what a new look-up
/// would give.
pub open spec fn remembers(
    cache: Map<Seq<char>, NodeEntryView>,
    registry: Map<Seq<char>, RegistryItemView>,
) -> bool {
    forall|name: Seq<char>| #[trigger]
        cache.dom().contains(name) ==> registry.dom().contains(name) && cache[name] == (
        NodeEntryView { node: registry_node(registry[name].item), source: registry[name].source })
}

/// The node that stands for a registered type.
pub fn create_node_from_registry(kind: &RegistryKind) -> (node: TreeNode)
    ensures
        node@ == registry_node(kind@),
{
    let rtype = kind.to_rust_type();
    let ghost methods = rtype@.method_list();
    let list = methods_of(&rtype);
    let mut node = TreeNode::new(rtype);
    let ghost base = node@;
    let count = list.len();
    let mut i: usize = 0;
    while i < count
        invariant
            i <= count,
            count == methods.len(),
            list.deep_view() == methods,
            base.children is None,
            node@ == (TreeNodeView {
                children: children_of(
                    Seq::new(i as nat, |k: int| plain_node(RustTypeView::Function(methods[k]))),
                ),
                ..base
            }),
        decreases count - i,
    {
        let child = TreeNode::new(RustType::Function(list[i].clone()));
        node.add_child(child);
        assert(node@.children->Some_0 =~= Seq::new(
            (i + 1) as nat,
            |k: int| plain_node(RustTypeView::Function(methods[k])),
        ));
        i += 1;
    }
    node
}

/// Records what the uses of the function at `tree` resolve to; a node that
/// is no function records nothing.
fn collect_dependencies(
    tree: &TreeNode,
    global_registry: &GlobalRegistry,
    locals: &Vec<TreeNode>,
    dependencies: &mut Dependencies,
    cache: &mut LocalRegistry,
    config: &PrintConfig,
)
    requires
        remembers(old(cache)@, global_registry@),
    ensures
        remembers(final(cache)@, global_registry@),
        final(dependencies)@ == record(
            old(dependencies)@,
            match tree@.rtype {
                RustTypeView::Function(f) => collect(
                    f.uses_list(),
                    config@.path,
                    node_views(locals@),
                    global_registry@,
                ),
                _ => Seq::empty(),
            },
        ),
        final(dependencies).id_order() == record_order(
            old(dependencies).id_order(),
            match tree@.rtype {
                RustTypeView::Function(f) => collect(
                    f.uses_list(),
                    config@.path,
                    node_views(locals@),
                    global_registry@,
                ),
                _ => Seq::empty(),
            },
        ),
{
    match tree.rtype() {
        RustType::Function(function) => {
            let names = function.uses();
            let path = config.path();
            let ghost uses = names.deep_view();
            let ghost items = node_views(locals@);
            let ghost start = dependencies@;
            let ghost start_order = dependencies.id_order();
            let mut i: usize = 0;
            while i < names.len()
                invariant
                    i <= names.len(),
                    uses == names.deep_view(),
                    items == node_views(locals@),
                    path.deep_view() == config@.path,
                    remembers(cache@, global_registry@),
                    dependencies@ == record(
                        start,
                        collect(uses.take(i as int), config@.path, items, global_registry@),
                    ),
                    dependencies.id_order() == record_order(
                        start_order,
                        collect(uses.take(i as int), config@.path, items, global_registry@),
                    ),
                decreases names.len() - i,
            {
                let name = names[i].as_str();
                let ghost before = collect(
                    uses.take(i as int),
                    config@.path,
                    items,
                    global_registry@,
                );
                let ghost found = resolve(name@, config@.path, items, global_registry@);
                proof {
                    let next = uses.take(i + 1);
                    assert(next.drop_last() =~= uses.take(i as int));
                    if found is Some {
                        assert(before.push(found->Some_0).drop_last() =~= before);
                    }
                }
                i += 1;
                if contains_name(path, name) {
                    continue;
                }
                let source = if path.len() > 0 {
                    Some(path[0].as_str())
                } else {
                    None
                };
                match find_node_named(locals, name) {
                    Some(local) => {
                        dependencies.register_item(local.id().to_owned(), local.clone(), source);
                    },
                    None => {
                        match cache.get_item_by_name(name) {
                            Some(hit) => {
                                dependencies.register_item(
                                    hit.node().id().to_owned(),
                                    hit.node().clone(),
                                    hit.source(),
                                );
                            },
                            None => {
                                match global_registry.get_item_by_name(name) {
                                    Some(item) => {
                                        let node = create_node_from_registry(item.item());
                                        cache.register_item(
                                            name.to_owned(),
                                            node.clone(),
                                            item.source(),
                                        );
                                        dependencies.register_item(
                                            node.id().to_owned(),
                                            node,
                                            item.source(),
                                        );
                                    },
                                    None => {},
                                }
                            },
                        }
                    },
                }
            }
            assert(uses.take(names.len() as int) =~= uses);
        },
        _ => {},
    }
}

/// Records what the walk finds at `tree` and below it.
fn find_dependencies_recursive(
    tree: &TreeNode,
    global_registry: &GlobalRegistry,
    dependencies: &mut Dependencies,
    locals: &Vec<TreeNode>,
    cache: &mut LocalRegistry,
    config: &PrintConfig,
)
    requires
        remembers(old(cache)@, global_registry@),
    ensures
        remembers(final(cache)@, global_registry@),
        final(dependencies)@ == record(
            old(dependencies)@,
            node_dependencies(tree@, config@, node_views(locals@), global_registry@),
        ),
        final(dependencies).id_order() == record_order(
            old(dependencies).id_order(),
            node_dependencies(tree@, config@, node_views(locals@), global_registry@),
        ),
    decreases tree, 1int,
{
    let ghost items = node_views(locals@);
    let ghost start = dependencies@;
    let ghost start_order = dependencies.id_order();
    let ghost own = own_dependencies(tree@, config@, items, global_registry@);
    if tree.should_print(config) {
        match &tree.link {
            Some(target) => {
                if !config.is_linked() {
                    let inner = link_config(config, target.name());
                    find_dependencies_recursive(
                        &**target,
                        global_registry,
                        dependencies,
                        locals,
                        cache,
                        &inner,
                    );
                }
            },
            None => {
                collect_dependencies(tree, global_registry, locals, dependencies, cache, config);
            },
        }
    }
    match &tree.children {
        Some(children) => {
            let ghost views = node_views(children@);
            let mut i: usize = 0;
            while i < children.len()
                invariant
                    i <= children.len(),
                    tree.children == Some(*children),
                    views == node_views(children@),
                    items == node_views(locals@),
                    remembers(cache@, global_registry@),
                    dependencies@ == record(
                        record(start, own),
                        children_dependencies(
                            views.take(i as int),
                            config@,
                            items,
                            global_registry@,
                        ),
                    ),
                    dependencies.id_order() == record_order(
                        record_order(start_order, own),
                        children_dependencies(
                            views.take(i as int),
                            config@,
                            items,
                            global_registry@,
                        ),
                    ),
                decreases children.len() - i,
            {
                let child = &children[i];
                let mut inner = config.clone();
                inner.add_to_path(child.name.clone());
                proof {
                    let next = views.take(i + 1);
                    assert(next.drop_last() =~= views.take(i as int));
                    assert(decreases_to!(tree.children => tree.children->Some_0));
                    let before = children_dependencies(
                        views.take(i as int),
                        config@,
                        items,
                        global_registry@,
                    );
                    let step = if in_scope(inner@, child@.name) {
                        node_dependencies(child@, inner@, items, global_registry@)
                    } else {
                        Seq::empty()
                    };
                    lemma_record_concat(record(start, own), before, step);
                    lemma_record_order_concat(record_order(start_order, own), before, step);
                }
                if child.should_print(&inner) {
                    find_dependencies_recursive(
                        child,
                        global_registry,
                        dependencies,
                        locals,
                        cache,
                        &inner,
                    );
                }
                i += 1;
            }
            assert(views.take(children.len() as int) =~= views);
            proof {
                lemma_record_concat(
                    start,
                    own,
                    children_dependencies(views, config@, items, global_registry@),
                );
                lemma_record_order_concat(
                    start_order,
                    own,
                    children_dependencies(views, config@, items, global_registry@),
                );
            }
        },
        None => {},
    }
}

/// Finds what the declarations of a file that are in the scope of the
/// query depend on, and stores the answer in the tree. `config` holds the
/// query; its path holds the file.
pub fn find_dependencies(root: &mut RootNode, registry: &GlobalRegistry, config: &PrintConfig)
    ensures
        final(root)@ == (RootNodeView {
            dependencies: dependencies_of(old(root)@, config@, registry@),
            dependency_order: dependency_order_of(old(root)@, config@, registry@),
            ..old(root)@
        }),
{
    let mut dependencies = Dependencies::default();
    let mut cache = LocalRegistry::default();
    let locals = root.children();
    let ghost items = node_views(locals@);
    let mut i: usize = 0;
    while i < locals.len()
        invariant
            i <= locals.len(),
            items == node_views(locals@),
            remembers(cache@, registry@),
            dependencies@ == record(
                Map::empty(),
                top_dependencies(items, i as nat, config@, registry@),
            ),
            dependencies.id_order() == record_order(
                Seq::empty(),
                top_dependencies(items, i as nat, config@, registry@),
            ),
        decreases locals.len() - i,
    {
        let child = &locals[i];
        let mut inner = config.clone();
        inner.add_to_path(child.name.clone());
        proof {
            lemma_record_concat(
                Map::empty(),
                top_dependencies(items, i as nat, config@, registry@),
                node_dependencies(child@, inner@, items, registry@),
            );
            lemma_record_order_concat(
                Seq::empty(),
                top_dependencies(items, i as nat, config@, registry@),
                node_dependencies(child@, inner@, items, registry@),
            );
        }
        find_dependencies_recursive(child, registry, &mut dependencies, locals, &mut cache, &inner);
        i += 1;
    }
    root.set_dependencies(dependencies);
}

/// What a name resolves to is called by that name.
pub proof fn lemma_resolve_name(
    name: Seq<char>,
    path: Seq<Seq<char>>,
    locals: Seq<TreeNodeView>,
    registry: Map<Seq<char>, RegistryItemView>,
)
    requires
        keyed_by_name(registry),
    ensures
        resolve(name, path, locals, registry) matches Some(found) ==> found.1.node.name == name
            && found.0 == found.1.node.id,
{
    node_names(locals).index_of_first_ensures(name);
}

/// A name that resolves through the registry carries the file that the
/// registry holds for it: the file that declares the type, not the file of
/// the query. A name that resolves in the file of the query carries that
/// file.
pub proof fn lemma_resolve_source(
    name: Seq<char>,
    path: Seq<Seq<char>>,
    locals: Seq<TreeNodeView>,
    registry: Map<Seq<char>, RegistryItemView>,
)
    ensures
        node_names(locals).contains(name) ==> resolve(name, path, locals, registry) is Some
            && resolve(name, path, locals, registry)->Some_0.1.source == file_of(path),
        !node_names(locals).contains(name) && registry.dom().contains(name) ==> resolve(
            name,
            path,
            locals,
            registry,
        ) is Some && resolve(name, path, locals, registry)->Some_0.1.source
            == registry[name].source,
        !node_names(locals).contains(name) && !registry.dom().contains(name) ==> resolve(
            name,
            path,
            locals,
            registry,
        ) is None,
{
    node_names(locals).index_of_first_ensures(name);
}

/// Whether `id` is the identifier of what some use resolves to, a use that
/// is not on the path.
pub open spec fn resolves_to(
    id: Seq<char>,
    uses: Seq<Seq<char>>,
    path: Seq<Seq<char>>,
    locals: Seq<TreeNodeView>,
    registry: Map<Seq<char>, RegistryItemView>,
) -> bool {
    exists|i: int|
        0 <= i < uses.len() && !path.contains(uses[i]) && resolve(
            #[trigger] uses[i],
            path,
            locals,
            registry,
        ) is Some && resolve(uses[i], path, locals, registry)->Some_0.0 == id
}

/// The dependencies of a function are complete and hold nothing else: an
/// identifier is recorded exactly if it was recorded before or some use of
/// the function that is not on the path resolves to it.
pub proof fn lemma_collect_complete(
    table: Map<Seq<char>, NodeEntryView>,
    uses: Seq<Seq<char>>,
    path: Seq<Seq<char>>,
    locals: Seq<TreeNodeView>,
    registry: Map<Seq<char>, RegistryItemView>,
    id: Seq<char>,
)
    ensures
        record(table, collect(uses, path, locals, registry)).dom().contains(id)
            <==> table.dom().contains(id) || resolves_to(id, uses, path, locals, registry),
    decreases uses.len(),
{
    if uses.len() > 0 {
        let rest = uses.drop_last();
        lemma_collect_complete(table, rest, path, locals, registry, id);
        let before = collect(rest, path, locals, registry);
        let last = uses.last();
        if resolves_to(id, uses, path, locals, registry) {
            let i = choose|i: int|
                0 <= i < uses.len() && !path.contains(uses[i]) && resolve(
                    #[trigger] uses[i],
                    path,
                    locals,
                    registry,
                ) is Some && resolve(uses[i], path, locals, registry)->Some_0.0 == id;
            if i < uses.len() - 1 {
                assert(rest[i] == uses[i]);
            }
        }
        if !path.contains(last) && resolve(last, path, locals, registry) is Some {
            let found = resolve(last, path, locals, registry)->Some_0;
            assert(before.push(found).drop_last() =~= before);
        }
    }
}

/// What is recorded for a use is what the use resolves to, as long as no
/// other use resolves to something else of the same identifier.
pub proof fn lemma_collect_entry(
    table: Map<Seq<char>, NodeEntryView>,
    uses: Seq<Seq<char>>,
    path: Seq<Seq<char>>,
    locals: Seq<TreeNodeView>,
    registry: Map<Seq<char>, RegistryItemView>,
    k: int,
)
    requires
        0 <= k < uses.len(),
        !path.contains(uses[k]),
        resolve(uses[k], path, locals, registry) is Some,
        forall|i: int|
            0 <= i < uses.len() && !path.contains(uses[i]) && resolve(
                #[trigger] uses[i],
                path,
                locals,
                registry,
            ) is Some && resolve(uses[i], path, locals, registry)->Some_0.0 == resolve(
                uses[k],
                path,
                locals,
                registry,
            )->Some_0.0 ==> resolve(uses[i], path, locals, registry) == resolve(
                uses[k],
                path,
                locals,
                registry,
            ),
    ensures
        record(table, collect(uses, path, locals, registry)).dom().contains(
            resolve(uses[k], path, locals, registry)->Some_0.0,
        ),
        record(table, collect(uses, path, locals, registry))[resolve(
            uses[k],
            path,
            locals,
            registry,
        )->Some_0.0] == resolve(uses[k], path, locals, registry)->Some_0.1,
    decreases uses.len(),
{
    let rest = uses.drop_last();
    let before = collect(rest, path, locals, registry);
    let last = uses.last();
    if !path.contains(last) && resolve(last, path, locals, registry) is Some {
        let other = resolve(last, path, locals, registry)->Some_0;
        assert(before.push(other).drop_last() =~= before);
    }
    if k < uses.len() - 1 {
        lemma_collect_entry(table, rest, path, locals, registry, k);
    }
}

/// The dependencies of a function that stands in scope, without links and
/// without children, are what its uses resolve to: an identifier is among
/// them exactly if some use of the function that is not on the path resolves
/// to it.
pub proof fn lemma_function_dependencies(
    node: TreeNodeView,
    f: RustFunctionView,
    config: PrintConfigView,
    locals: Seq<TreeNodeView>,
    registry: Map<Seq<char>, RegistryItemView>,
    id: Seq<char>,
)
    requires
        node.rtype == RustTypeView::Function(f),
        node.link is None,
        node.children is None,
        in_scope(config, node.name),
    ensures
        node_dependencies(node, config, locals, registry) == collect(
            f.uses_list(),
            config.path,
            locals,
            registry,
        ),
        record(Map::empty(), node_dependencies(node, config, locals, registry)).dom().contains(id)
            <==> resolves_to(id, f.uses_list(), config.path, locals, registry),
{
    lemma_collect_complete(Map::empty(), f.uses_list(), config.path, locals, registry, id);
}

/// Whether none of the declarations found is called by a name on the
/// path.
pub open spec fn off_path(found: Seq<(Seq<char>, NodeEntryView)>, path: Seq<Seq<char>>) -> bool {
    forall|i: int| 0 <= i < found.len() ==> !path.contains((#[trigger] found[i]).1.node.name)
}

/// Nothing that the uses of a function resolve to is called by a name on
/// the path.
pub proof fn lemma_collect_off_path(
    uses: Seq<Seq<char>>,
    path: Seq<Seq<char>>,
    locals: Seq<TreeNodeView>,
    registry: Map<Seq<char>, RegistryItemView>,
)
    requires
        keyed_by_name(registry),
    ensures
        off_path(collect(uses, path, locals, registry), path),
    decreases uses.len(),
{
    if uses.len() > 0 {
        lemma_collect_off_path(uses.drop_last(), path, locals, registry);
        lemma_resolve_name(uses.last(), path, locals, registry);
    }
}

/// Whatever the uses of a function resolve to is called by one of the
/// uses.
pub proof fn lemma_collect_from_uses(
    uses: Seq<Seq<char>>,
    path: Seq<Seq<char>>,
    locals: Seq<TreeNodeView>,
    registry: Map<Seq<char>, RegistryItemView>,
    i: int,
)
    requires
        keyed_by_name(registry),
        0 <= i < collect(uses, path, locals, registry).len(),
    ensures
        uses.contains(collect(uses, path, locals, registry)[i].1.node.name),
    decreases uses.len(),
{
    let rest = uses.drop_last();
    let before = collect(rest, path, locals, registry);
    if i < before.len() {
        lemma_collect_from_uses(rest, path, locals, registry, i);
    } else {
        lemma_resolve_name(uses.last(), path, locals, registry);
    }
}

/// What is off a longer path is off the shorter one.
pub proof fn lemma_off_path_shorter(
    found: Seq<(Seq<char>, NodeEntryView)>,
    path: Seq<Seq<char>>,
    name: Seq<char>,
)
    requires
        off_path(found, path.push(name)),
    ensures
        off_path(found, path),
{
    assert forall|i: int| 0 <= i < found.len() implies !path.contains(
        (#[trigger] found[i]).1.node.name,
    ) by {
        if path.contains(found[i].1.node.name) {
            let k = choose|k: int| 0 <= k < path.len() && path[k] == found[i].1.node.name;
            assert(path.push(name)[k] == found[i].1.node.name);
        }
    }
}

/// Nothing that a node records by itself is called by a name on the path.
pub proof fn lemma_own_dependencies_off_path(
    node: TreeNodeView,
    config: PrintConfigView,
    locals: Seq<TreeNodeView>,
    registry: Map<Seq<char>, RegistryItemView>,
)
    requires
        keyed_by_name(registry),
    ensures
        off_path(own_dependencies(node, config, locals, registry), config.path),
    decreases node, 0int,
{
    if in_scope(config, node.name) {
        match node.link {
            Some(target) => {
                if !config.is_linked {
                    let inner = enter_link(config, target.name);
                    lemma_node_dependencies_off_path(*target, inner, locals, registry);
                    lemma_off_path_shorter(
                        node_dependencies(*target, inner, locals, registry),
                        config.path,
                        target.name,
                    );
                }
            },
            None => match node.rtype {
                RustTypeView::Function(f) => {
                    lemma_collect_off_path(f.uses_list(), config.path, locals, registry);
                },
                _ => {},
            },
        }
    }
}

/// Nothing that the walk records at a node and below it is called by a
/// name on the path.
pub proof fn lemma_node_dependencies_off_path(
    node: TreeNodeView,
    config: PrintConfigView,
    locals: Seq<TreeNodeView>,
    registry: Map<Seq<char>, RegistryItemView>,
)
    requires
        keyed_by_name(registry),
    ensures
        off_path(node_dependencies(node, config, locals, registry), config.path),
    decreases node, 1int,
{
    lemma_own_dependencies_off_path(node, config, locals, registry);
    match node.children {
        Some(children) => {
            lemma_children_dependencies_off_path(children, config, locals, registry);
        },
        None => {},
    }
}

/// Nothing that the walk records below a node is called by a name on the
/// path.
pub proof fn lemma_children_dependencies_off_path(
    children: Seq<TreeNodeView>,
    config: PrintConfigView,
    locals: Seq<TreeNodeView>,
    registry: Map<Seq<char>, RegistryItemView>,
)
    requires
        keyed_by_name(registry),
    ensures
        off_path(children_dependencies(children, config, locals, registry), config.path),
    decreases children, 0int,
{
    if children.len() > 0 {
        let child = children.last();
        let below = descend(config, child.name);
        lemma_children_dependencies_off_path(children.drop_last(), config, locals, registry);
        if in_scope(below, child.name) {
            lemma_node_dependencies_off_path(child, below, locals, registry);
            lemma_off_path_shorter(
                node_dependencies(child, below, locals, registry),
                config.path,
                child.name,
            );
        }
    }
}

/// Nothing depends on itself: what the walk records at a top-level
/// declaration and below it is never called as that declaration. A
/// function that calls itself is not among its own dependencies.
pub proof fn lemma_no_self_dependency(
    locals: Seq<TreeNodeView>,
    k: int,
    config: PrintConfigView,
    registry: Map<Seq<char>, RegistryItemView>,
)
    requires
        keyed_by_name(registry),
        0 <= k < locals.len(),
    ensures
        forall|i: int|
            0 <= i < node_dependencies(
                locals[k],
                descend(config, locals[k].name),
                locals,
                registry,
            ).len() ==> (#[trigger] node_dependencies(
                locals[k],
                descend(config, locals[k].name),
                locals,
                registry,
            )[i]).1.node.name != locals[k].name,
{
    let below = descend(config, locals[k].name);
    lemma_node_dependencies_off_path(locals[k], below, locals, registry);
    assert(below.path[config.path.len() as int] == locals[k].name);
}

} // verus!
