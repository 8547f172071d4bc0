use vstd::prelude::*;
use vstd::string::*;
use crate::error::{ClippyError, ClippyErrorView};
use crate::file_visitor::{find_struct, struct_names, RustFileView, RustFileVisitor};
use crate::names::{clone_names, contains_name};
use crate::registry::{GlobalRegistry, RegistryItemView, RegistryKind, RegistryKindView};
use crate::types::rust_enum::RustEnumView;
use crate::types::rust_function::{clone_functions, RustFunction, RustFunctionView};
use crate::types::rust_struct::{RustStruct, RustStructView};
use crate::types::rust_trait::RustTraitView;
use crate::types::rust_type::{RustType, RustTypeView};
use super::root::{RootNode, RootNodeView};
use super::tree::{TreeNode, TreeNodeView};

verus! {

/// The number of structs whose name has not been visited.
pub open spec fn remaining(structs: Seq<RustStructView>, visited: Seq<Seq<char>>) -> nat
    decreases structs.len(),
{
    if structs.len() == 0 {
        0
    } else {
        remaining(structs.drop_last(), visited) + if visited.contains(structs.last().name) {
            0nat
        } else {
            1nat
        }
    }
}

/// Visiting more names leaves no more structs unvisited than before.
pub proof fn lemma_remaining_monotone(
    structs: Seq<RustStructView>,
    visited: Seq<Seq<char>>,
    more: Seq<Seq<char>>,
)
    ensures
        remaining(structs, visited + more) <= remaining(structs, visited),
    decreases structs.len(),
{
    if structs.len() > 0 {
        lemma_remaining_monotone(structs.drop_last(), visited, more);
        let name = structs.last().name;
        if visited.contains(name) {
            let i = choose|i: int| 0 <= i < visited.len() && visited[i] == name;
            assert((visited + more)[i] == name);
        }
    }
}

/// Visiting the name of a struct that was not visited leaves fewer structs
/// unvisited.
pub proof fn lemma_remaining_strict(
    structs: Seq<RustStructView>,
    visited: Seq<Seq<char>>,
    name: Seq<char>,
)
    requires
        struct_names(structs).contains(name),
        !visited.contains(name),
    ensures
        remaining(structs, visited.push(name)) < remaining(structs, visited),
    decreases structs.len(),
{
    let i = choose|i: int| 0 <= i < structs.len() && struct_names(structs)[i] == name;
    assert(visited.push(name) =~= visited + seq![name]);
    if structs.last().name == name {
        lemma_remaining_monotone(structs.drop_last(), visited, seq![name]);
        assert(visited.push(name)[visited.len() as int] == name);
    } else {
        assert(struct_names(structs.drop_last())[i] == name);
        lemma_remaining_strict(structs.drop_last(), visited, name);
        let last = structs.last().name;
        if visited.contains(last) {
            let j = choose|j: int| 0 <= j < visited.len() && visited[j] == last;
            assert(visited.push(name)[j] == last);
        }
    }
}

/// What an expansion gives: what was built, and the names of the structs
/// that were visited on the way, in the order of the visits.
pub struct Expansion<T> {
    pub built: T,
    pub added: Seq<Seq<char>>,
}

/// The children of a node: none where the list is empty.
pub open spec fn children_of(nodes: Seq<TreeNodeView>) -> Option<Seq<TreeNodeView>> {
    if nodes.len() == 0 {
        None
    } else {
        Some(nodes)
    }
}

/// The node of a function: the function with its body read, and below it a
/// link for each struct of the file among its uses that was not visited
/// before.
pub open spec fn expand_function(
    structs: Seq<RustStructView>,
    f: RustFunctionView,
    visited: Seq<Seq<char>>,
) -> Expansion<TreeNodeView>
    decreases remaining(structs, visited), 2int, 0nat,
{
    let links = expand_uses(structs, f.uses_list(), visited);
    Expansion {
        built: TreeNodeView {
            id: f.id,
            name: f.name,
            rtype: RustTypeView::Function(f.extracted()),
            children: children_of(links.built),
            link: None,
        },
        added: links.added,
    }
}

/// The links for a list of used names, name after name; each link sees the
/// visits of those before it.
pub open spec fn expand_uses(
    structs: Seq<RustStructView>,
    names: Seq<Seq<char>>,
    visited: Seq<Seq<char>>,
) -> Expansion<Seq<TreeNodeView>>
    decreases remaining(structs, visited), 1int, names.len(),
{
    if names.len() == 0 {
        Expansion { built: Seq::empty(), added: Seq::empty() }
    } else {
        let before = expand_uses(structs, names.drop_last(), visited);
        proof {
            lemma_remaining_monotone(structs, visited, before.added);
        }
        let last = expand_link(structs, names.last(), visited + before.added);
        Expansion { built: before.built + last.built, added: before.added + last.added }
    }
}

/// The link for one used name: nothing if the name was visited or is not
/// the name of a struct of the file; otherwise a node that stands for the
/// first struct of that name and links to the struct's own node.
pub open spec fn expand_link(
    structs: Seq<RustStructView>,
    name: Seq<char>,
    visited: Seq<Seq<char>>,
) -> Expansion<Seq<TreeNodeView>>
    decreases remaining(structs, visited), 0int, 0nat,
{
    if visited.contains(name) {
        Expansion { built: Seq::empty(), added: Seq::empty() }
    } else {
        match struct_names(structs).index_of_first(name) {
            None => Expansion { built: Seq::empty(), added: Seq::empty() },
            Some(i) => {
                proof {
                    struct_names(structs).index_of_first_ensures(name);
                    lemma_remaining_strict(structs, visited, name);
                }
                let target = expand_type(
                    structs,
                    RustTypeView::Struct(structs[i]),
                    visited.push(name),
                );
                Expansion {
                    built: seq![
                        TreeNodeView {
                            id: structs[i].id,
                            name: structs[i].name,
                            rtype: RustTypeView::Struct(structs[i]),
                            children: None,
                            link: Some(Box::new(target.built)),
                        },
                    ],
                    added: seq![name] + target.added,
                }
            },
        }
    }
}

/// The node of a struct, enum or trait: below it the nodes of its methods.
pub open spec fn expand_type(
    structs: Seq<RustStructView>,
    decl: RustTypeView,
    visited: Seq<Seq<char>>,
) -> Expansion<TreeNodeView>
    decreases remaining(structs, visited), 4int, 0nat,
{
    let methods = expand_methods(structs, decl.method_list(), visited);
    Expansion {
        built: TreeNodeView {
            id: decl.id(),
            name: decl.name(),
            rtype: decl,
            children: children_of(methods.built),
            link: None,
        },
        added: methods.added,
    }
}

/// The nodes of a list of methods, method after method; each sees the
/// visits of those before it.
pub open spec fn expand_methods(
    structs: Seq<RustStructView>,
    methods: Seq<RustFunctionView>,
    visited: Seq<Seq<char>>,
) -> Expansion<Seq<TreeNodeView>>
    decreases remaining(structs, visited), 3int, methods.len(),
{
    if methods.len() == 0 {
        Expansion { built: Seq::empty(), added: Seq::empty() }
    } else {
        let before = expand_methods(structs, methods.drop_last(), visited);
        proof {
            lemma_remaining_monotone(structs, visited, before.added);
        }
        let last = expand_function(structs, methods.last(), visited + before.added);
        Expansion { built: before.built.push(last.built), added: before.added + last.added }
    }
}

/// The tree of a top-level function. Its expansion starts with no struct
/// visited.
pub open spec fn function_tree(structs: Seq<RustStructView>, f: RustFunctionView) -> TreeNodeView {
    expand_function(structs, f, Seq::empty()).built
}

/// The tree of a top-level struct. Its expansion starts with the struct
/// itself visited.
pub open spec fn struct_tree(structs: Seq<RustStructView>, s: RustStructView) -> TreeNodeView {
    expand_type(structs, RustTypeView::Struct(s), seq![s.name]).built
}

/// The tree of a top-level enum.
pub open spec fn enum_tree(structs: Seq<RustStructView>, e: RustEnumView) -> TreeNodeView {
    expand_type(structs, RustTypeView::Enum(e), Seq::empty()).built
}

/// The tree of a top-level trait.
pub open spec fn trait_tree(structs: Seq<RustStructView>, t: RustTraitView) -> TreeNodeView {
    expand_type(structs, RustTypeView::Trait(t), Seq::empty()).built
}

/// The top-level nodes of a file: its functions, then its structs, its
/// enums and its traits.
pub open spec fn file_trees(file: RustFileView) -> Seq<TreeNodeView> {
    Seq::new(file.functions.len(), |i: int| function_tree(file.structs, file.functions[i]))
        + Seq::new(file.structs.len(), |i: int| struct_tree(file.structs, file.structs[i]))
        + Seq::new(file.enums.len(), |i: int| enum_tree(file.structs, file.enums[i])) + Seq::new(
        file.traits.len(),
        |i: int| trait_tree(file.structs, file.traits[i]),
    )
}

/// The types of a file that ask for registration, in the order in which
/// they are registered: its structs, then its enums and its traits.
pub open spec fn file_types(file: RustFileView) -> Seq<RegistryKindView> {
    Seq::new(file.structs.len(), |i: int| RegistryKindView::Struct(file.structs[i])) + Seq::new(
        file.enums.len(),
        |i: int| RegistryKindView::Enum(file.enums[i]),
    ) + Seq::new(file.traits.len(), |i: int| RegistryKindView::Trait(file.traits[i]))
}

/// How a registration ended: the registry afterwards, and the name that
/// was refused, if one was.
pub struct Registration {
    pub registry: Map<Seq<char>, RegistryItemView>,
    pub duplicate: Option<Seq<char>>,
}

/// The registration of one type: a type that is not public leaves the
/// registry alone, a public one enters it, unless its name is taken.
pub open spec fn register_one(
    registry: Map<Seq<char>, RegistryItemView>,
    kind: RegistryKindView,
    source: Option<Seq<char>>,
) -> Registration {
    if !kind.is_public() {
        Registration { registry, duplicate: None }
    } else if registry.dom().contains(kind.name()) {
        Registration { registry, duplicate: Some(kind.name()) }
    } else {
        Registration {
            registry: registry.insert(kind.name(), RegistryItemView { item: kind, source }),
            duplicate: None,
        }
    }
}

/// The registration of a list of types, one after the other; it stops at
/// the first name that is refused.
pub open spec fn register_all(
    registry: Map<Seq<char>, RegistryItemView>,
    kinds: Seq<RegistryKindView>,
    source: Option<Seq<char>>,
) -> Registration
    decreases kinds.len(),
{
    if kinds.len() == 0 {
        Registration { registry, duplicate: None }
    } else {
        let before = register_all(registry, kinds.drop_last(), source);
        if before.duplicate is Some {
            before
        } else {
            register_one(before.registry, kinds.last(), source)
        }
    }
}

/// A copy of the methods of a declaration, none where it has none.
pub fn methods_of(rtype: &RustType) -> (r: Vec<RustFunction>)
    ensures
        r.deep_view() == rtype@.method_list(),
{
    match rtype.methods() {
        Some(list) => clone_functions(list),
        None => {
            let r: Vec<RustFunction> = Vec::new();
            r
        },
    }
}

/// The link for the used name `struct_name`, if one is due.
fn create_linked_struct_node(
    structs: &Vec<RustStruct>,
    struct_name: &str,
    visited: &mut Vec<String>,
) -> (r: Option<TreeNode>)
    ensures
        ({
            let e = expand_link(structs.deep_view(), struct_name@, old(visited).deep_view());
            &&& final(visited).deep_view() == old(visited).deep_view() + e.added
            &&& match r {
                Some(node) => e.built == seq![node@],
                None => e.built == Seq::<TreeNodeView>::empty(),
            }
        }),
    decreases remaining(structs.deep_view(), old(visited).deep_view()), 0int, 0nat,
{
    let ghost v0 = visited.deep_view();
    if contains_name(visited, struct_name) {
        return None;
    }
    match find_struct(structs, struct_name) {
        None => {
            None
        },
        Some(k) => {
            let s = &structs[k];
            visited.push(struct_name.to_owned());
            proof {
                assert(visited.deep_view() =~= v0.push(struct_name@));
                struct_names(structs.deep_view()).index_of_first_ensures(struct_name@);
                lemma_remaining_strict(structs.deep_view(), v0, struct_name@);
            }
            let mut linked = TreeNode::new(RustType::Struct(s.clone()));
            let target = create_type_node(structs, RustType::Struct(s.clone()), visited);
            linked.link = Some(Box::new(target));
            Some(linked)
        },
    }
}

/// The node of the function `func`.
fn create_function_node(
    structs: &Vec<RustStruct>,
    func: &RustFunction,
    visited: &mut Vec<String>,
) -> (node: TreeNode)
    ensures
        ({
            let e = expand_function(structs.deep_view(), func@, old(visited).deep_view());
            &&& final(visited).deep_view() == old(visited).deep_view() + e.added
            &&& node@ == e.built
        }),
    decreases remaining(structs.deep_view(), old(visited).deep_view()), 2int, 0nat,
{
    let ghost v0 = visited.deep_view();
    let ghost all = structs.deep_view();
    let mut function = func.clone();
    function.extract_function_body();
    let names = clone_names(function.instantiated_items());
    let mut node = TreeNode::new(RustType::Function(function));
    let ghost base = node@;
    let ghost uses = func@.uses_list();
    let mut i: usize = 0;
    while i < names.len()
        invariant
            i <= names.len(),
            names.deep_view() == uses,
            all == structs.deep_view(),
            v0 == old(visited).deep_view(),
            visited.deep_view() == v0 + expand_uses(all, uses.take(i as int), v0).added,
            node@ == (TreeNodeView {
                children: children_of(expand_uses(all, uses.take(i as int), v0).built),
                ..base
            }),
            base.children is None,
        decreases names.len() - i,
    {
        let ghost before = expand_uses(all, uses.take(i as int), v0);
        proof {
            let next = uses.take(i + 1);
            assert(next.drop_last() =~= uses.take(i as int));
            lemma_remaining_monotone(all, v0, before.added);
        }
        match create_linked_struct_node(structs, names[i].as_str(), visited) {
            Some(child) => {
                node.add_child(child);
                proof {
                    let last = expand_link(all, uses[i as int], v0 + before.added);
                    assert(node@.children->Some_0 =~= before.built + last.built);
                }
            },
            None => {},
        }
        i += 1;
    }
    assert(uses.take(names.len() as int) =~= uses);
    node
}

/// The node of the struct, enum or trait `rtype`.
fn create_type_node(structs: &Vec<RustStruct>, rtype: RustType, visited: &mut Vec<String>) -> (node:
    TreeNode)
    ensures
        ({
            let e = expand_type(structs.deep_view(), rtype@, old(visited).deep_view());
            &&& final(visited).deep_view() == old(visited).deep_view() + e.added
            &&& node@ == e.built
        }),
    decreases remaining(structs.deep_view(), old(visited).deep_view()), 4int, 0nat,
{
    let ghost v0 = visited.deep_view();
    let ghost all = structs.deep_view();
    let ghost methods = rtype@.method_list();
    let list = methods_of(&rtype);
    let mut node = TreeNode::new(rtype);
    let ghost base = node@;
    let mut i: usize = 0;
    while i < list.len()
        invariant
            i <= list.len(),
            list.deep_view() == methods,
            all == structs.deep_view(),
            v0 == old(visited).deep_view(),
            visited.deep_view() == v0 + expand_methods(all, methods.take(i as int), v0).added,
            node@ == (TreeNodeView {
                children: children_of(expand_methods(all, methods.take(i as int), v0).built),
                ..base
            }),
            base.children is None,
        decreases list.len() - i,
    {
        let ghost before = expand_methods(all, methods.take(i as int), v0);
        proof {
            let next = methods.take(i + 1);
            assert(next.drop_last() =~= methods.take(i as int));
            lemma_remaining_monotone(all, v0, before.added);
        }
        let child = create_function_node(structs, &list[i], visited);
        node.add_child(child);
        i += 1;
    }
    assert(methods.take(list.len() as int) =~= methods);
    node
}

/// Builds the tree of one file.
pub struct ChunkInitializer<'a> {
    visitor: &'a RustFileVisitor,
}

impl<'a> ChunkInitializer<'a> {
    /// The declarations of the file whose tree is built.
    pub closed spec fn file(&self) -> RustFileView {
        self.visitor@
    }

    /// A builder for the tree of the file with the declarations `visitor`.
    pub fn new(visitor: &'a RustFileVisitor) -> (r: Self)
        ensures
            r.file() == visitor@,
    {
        ChunkInitializer { visitor }
    }

    /// Builds the tree of the file and registers its public types, each
    /// with the file as its source. Registration stops at the first public
    /// type whose name is taken, and the tree is then not handed out.
    pub fn initialize_tree(&self, global_registry: &mut GlobalRegistry) -> (r: Result<
        RootNode,
        ClippyError,
    >)
        ensures
            ({
                let file = self.file();
                let done = register_all(
                    old(global_registry)@,
                    file_types(file),
                    Some(file.file_path.relative_path),
                );
                &&& final(global_registry)@ == done.registry
                &&& match r {
                    Ok(root) => done.duplicate is None && root@ == (RootNodeView {
                        file_path: file.file_path,
                        dependencies: Map::empty(),
                        dependency_order: Seq::empty(),
                        dependents: Map::empty(),
                        dependent_order: Seq::empty(),
                        children: file_trees(file),
                    }),
                    Err(e) => done.duplicate is Some && e@ == (ClippyErrorView::DuplicateSymbol {
                        name: done.duplicate->Some_0,
                    }),
                }
            }),
    {
        let mut root = RootNode::new(self.visitor.file_path().clone());
        self.add_functions(&mut root);
        self.add_structs(&mut root);
        self.add_enums(&mut root);
        self.add_traits(&mut root);
        match self.register_types(&root, global_registry) {
            Ok(()) => Ok(root),
            Err(e) => Err(e),
        }
    }

    fn add_functions(&self, root: &mut RootNode)
        ensures
            final(root)@ == (RootNodeView {
                children: old(root)@.children + Seq::new(
                    self.file().functions.len(),
                    |i: int| function_tree(self.file().structs, self.file().functions[i]),
                ),
                ..old(root)@
            }),
    {
        let functions = self.visitor.functions();
        let structs = self.visitor.structs();
        let ghost file = self.file();
        let mut i: usize = 0;
        while i < functions.len()
            invariant
                i <= functions.len(),
                functions.deep_view() == file.functions,
                structs.deep_view() == file.structs,
                root@ == (RootNodeView {
                    children: old(root)@.children + Seq::new(
                        i as nat,
                        |k: int| function_tree(file.structs, file.functions[k]),
                    ),
                    ..old(root)@
                }),
            decreases functions.len() - i,
        {
            let mut visited: Vec<String> = Vec::new();
            assert(visited.deep_view() =~= Seq::<Seq<char>>::empty());
            let node = create_function_node(structs, &functions[i], &mut visited);
            root.add_child(node);
            assert(root@.children =~= old(root)@.children + Seq::new(
                (i + 1) as nat,
                |k: int| function_tree(file.structs, file.functions[k]),
            ));
            i += 1;
        }
    }

    fn add_structs(&self, root: &mut RootNode)
        ensures
            final(root)@ == (RootNodeView {
                children: old(root)@.children + Seq::new(
                    self.file().structs.len(),
                    |i: int| struct_tree(self.file().structs, self.file().structs[i]),
                ),
                ..old(root)@
            }),
    {
        let structs = self.visitor.structs();
        let ghost file = self.file();
        let mut i: usize = 0;
        while i < structs.len()
            invariant
                i <= structs.len(),
                structs.deep_view() == file.structs,
                root@ == (RootNodeView {
                    children: old(root)@.children + Seq::new(
                        i as nat,
                        |k: int| struct_tree(file.structs, file.structs[k]),
                    ),
                    ..old(root)@
                }),
            decreases structs.len() - i,
        {
            let mut visited: Vec<String> = Vec::new();
            visited.push(structs[i].name().to_owned());
            assert(visited.deep_view() =~= seq![file.structs[i as int].name]);
            let node = create_type_node(structs, RustType::Struct(structs[i].clone()), &mut visited);
            root.add_child(node);
            assert(root@.children =~= old(root)@.children + Seq::new(
                (i + 1) as nat,
                |k: int| struct_tree(file.structs, file.structs[k]),
            ));
            i += 1;
        }
    }

    fn add_enums(&self, root: &mut RootNode)
        ensures
            final(root)@ == (RootNodeView {
                children: old(root)@.children + Seq::new(
                    self.file().enums.len(),
                    |i: int| enum_tree(self.file().structs, self.file().enums[i]),
                ),
                ..old(root)@
            }),
    {
        let enums = self.visitor.enums();
        let structs = self.visitor.structs();
        let ghost file = self.file();
        let mut i: usize = 0;
        while i < enums.len()
            invariant
                i <= enums.len(),
                enums.deep_view() == file.enums,
                structs.deep_view() == file.structs,
                root@ == (RootNodeView {
                    children: old(root)@.children + Seq::new(
                        i as nat,
                        |k: int| enum_tree(file.structs, file.enums[k]),
                    ),
                    ..old(root)@
                }),
            decreases enums.len() - i,
        {
            let mut visited: Vec<String> = Vec::new();
            assert(visited.deep_view() =~= Seq::<Seq<char>>::empty());
            let node = create_type_node(structs, RustType::Enum(enums[i].clone()), &mut visited);
            root.add_child(node);
            assert(root@.children =~= old(root)@.children + Seq::new(
                (i + 1) as nat,
                |k: int| enum_tree(file.structs, file.enums[k]),
            ));
            i += 1;
        }
    }

    fn add_traits(&self, root: &mut RootNode)
        ensures
            final(root)@ == (RootNodeView {
                children: old(root)@.children + Seq::new(
                    self.file().traits.len(),
                    |i: int| trait_tree(self.file().structs, self.file().traits[i]),
                ),
                ..old(root)@
            }),
    {
        let traits = self.visitor.traits();
        let structs = self.visitor.structs();
        let ghost file = self.file();
        let mut i: usize = 0;
        while i < traits.len()
            invariant
                i <= traits.len(),
                traits.deep_view() == file.traits,
                structs.deep_view() == file.structs,
                root@ == (RootNodeView {
                    children: old(root)@.children + Seq::new(
                        i as nat,
                        |k: int| trait_tree(file.structs, file.traits[k]),
                    ),
                    ..old(root)@
                }),
            decreases traits.len() - i,
        {
            let mut visited: Vec<String> = Vec::new();
            assert(visited.deep_view() =~= Seq::<Seq<char>>::empty());
            let node = create_type_node(structs, RustType::Trait(traits[i].clone()), &mut visited);
            root.add_child(node);
            assert(root@.children =~= old(root)@.children + Seq::new(
                (i + 1) as nat,
                |k: int| trait_tree(file.structs, file.traits[k]),
            ));
            i += 1;
        }
    }

    /// Registers the types of the file, in their order.
    fn register_types(&self, root: &RootNode, global_registry: &mut GlobalRegistry) -> (r: Result<
        (),
        ClippyError,
    >)
        requires
            root@.file_path == self.file().file_path,
        ensures
            ({
                let file = self.file();
                let done = register_all(
                    old(global_registry)@,
                    file_types(file),
                    Some(file.file_path.relative_path),
                );
                &&& final(global_registry)@ == done.registry
                &&& match r {
                    Ok(()) => done.duplicate is None,
                    Err(e) => done.duplicate is Some && e@ == (ClippyErrorView::DuplicateSymbol {
                        name: done.duplicate->Some_0,
                    }),
                }
            }),
    {
        let source = root.file_path().relative_path();
        let ghost file = self.file();
        let ghost src = Some(file.file_path.relative_path);
        let ghost reg0 = global_registry@;
        let ghost kinds = file_types(file);
        let structs = self.visitor.structs();
        let enums = self.visitor.enums();
        let traits = self.visitor.traits();
        let mut i: usize = 0;
        while i < structs.len()
            invariant
                i <= structs.len(),
                structs.deep_view() == file.structs,
                kinds == file_types(file),
                file == self.file(),
                reg0 == old(global_registry)@,
                src == Some(file.file_path.relative_path),
                src == Some(source@),
                register_all(reg0, kinds.take(i as int), src).duplicate is None,
                global_registry@ == register_all(reg0, kinds.take(i as int), src).registry,
            decreases structs.len() - i,
        {
            proof {
                let next = kinds.take(i + 1);
                assert(next.drop_last() =~= kinds.take(i as int));
            }
            match global_registry.register(
                RegistryKind::Struct(structs[i].clone()),
                Some(source.as_str()),
            ) {
                Ok(()) => {},
                Err(e) => {
                    proof {
                        lemma_register_all_stops(reg0, kinds, src, i + 1);
                    }
                    return Err(e);
                },
            }
            i += 1;
        }
        let mut j: usize = 0;
        while j < enums.len()
            invariant
                j <= enums.len(),
                i == structs.len(),
                structs.deep_view() == file.structs,
                enums.deep_view() == file.enums,
                kinds == file_types(file),
                file == self.file(),
                reg0 == old(global_registry)@,
                src == Some(file.file_path.relative_path),
                src == Some(source@),
                register_all(reg0, kinds.take(i + j), src).duplicate is None,
                global_registry@ == register_all(reg0, kinds.take(i + j), src).registry,
            decreases enums.len() - j,
        {
            proof {
                let next = kinds.take(i + j + 1);
                assert(next.drop_last() =~= kinds.take(i + j));
            }
            match global_registry.register(
                RegistryKind::Enum(enums[j].clone()),
                Some(source.as_str()),
            ) {
                Ok(()) => {},
                Err(e) => {
                    proof {
                        lemma_register_all_stops(reg0, kinds, src, i + j + 1);
                    }
                    return Err(e);
                },
            }
            j += 1;
        }
        let mut k: usize = 0;
        while k < traits.len()
            invariant
                k <= traits.len(),
                i == structs.len(),
                j == enums.len(),
                structs.deep_view() == file.structs,
                enums.deep_view() == file.enums,
                traits.deep_view() == file.traits,
                kinds == file_types(file),
                file == self.file(),
                reg0 == old(global_registry)@,
                src == Some(file.file_path.relative_path),
                src == Some(source@),
                register_all(reg0, kinds.take(i + j + k), src).duplicate is None,
                global_registry@ == register_all(reg0, kinds.take(i + j + k), src).registry,
            decreases traits.len() - k,
        {
            proof {
                let next = kinds.take(i + j + k + 1);
                assert(next.drop_last() =~= kinds.take(i + j + k));
            }
            match global_registry.register(
                RegistryKind::Trait(traits[k].clone()),
                Some(source.as_str()),
            ) {
                Ok(()) => {},
                Err(e) => {
                    proof {
                        lemma_register_all_stops(reg0, kinds, src, i + j + k + 1);
                    }
                    return Err(e);
                },
            }
            k += 1;
        }
        assert(kinds.take(i + j + k) =~= kinds);
        Ok(())
    }
}

/// Once a name was refused, the registration of a longer list ends in the
/// same way.
pub proof fn lemma_register_all_stops(
    registry: Map<Seq<char>, RegistryItemView>,
    kinds: Seq<RegistryKindView>,
    source: Option<Seq<char>>,
    n: int,
)
    requires
        0 <= n <= kinds.len(),
        register_all(registry, kinds.take(n), source).duplicate is Some,
    ensures
        register_all(registry, kinds, source) == register_all(registry, kinds.take(n), source),
    decreases kinds.len() - n,
{
    if n < kinds.len() {
        let next = kinds.take(n + 1);
        assert(next.drop_last() =~= kinds.take(n));
        lemma_register_all_stops(registry, kinds, source, n + 1);
    } else {
        assert(kinds.take(n) =~= kinds);
    }
}

/// A name that is registered stays registered.
pub proof fn lemma_register_all_grows(
    registry: Map<Seq<char>, RegistryItemView>,
    kinds: Seq<RegistryKindView>,
    source: Option<Seq<char>>,
    name: Seq<char>,
)
    requires
        registry.dom().contains(name),
    ensures
        register_all(registry, kinds, source).registry.dom().contains(name),
    decreases kinds.len(),
{
    if kinds.len() > 0 {
        lemma_register_all_grows(registry, kinds.drop_last(), source, name);
    }
}

/// After a registration that refused nothing, the name of every public
/// type of the list is registered.
pub proof fn lemma_register_all_holds(
    registry: Map<Seq<char>, RegistryItemView>,
    kinds: Seq<RegistryKindView>,
    source: Option<Seq<char>>,
    k: int,
)
    requires
        0 <= k < kinds.len(),
        kinds[k].is_public(),
        register_all(registry, kinds, source).duplicate is None,
    ensures
        register_all(registry, kinds, source).registry.dom().contains(kinds[k].name()),
    decreases kinds.len(),
{
    if k < kinds.len() - 1 {
        lemma_register_all_holds(registry, kinds.drop_last(), source, k);
    }
}

/// A public type whose name is registered already is refused, or a type
/// before it is.
pub proof fn lemma_register_all_refuses(
    registry: Map<Seq<char>, RegistryItemView>,
    kinds: Seq<RegistryKindView>,
    source: Option<Seq<char>>,
    k: int,
)
    requires
        0 <= k < kinds.len(),
        kinds[k].is_public(),
        registry.dom().contains(kinds[k].name()),
    ensures
        register_all(registry, kinds, source).duplicate is Some,
    decreases kinds.len(),
{
    if k < kinds.len() - 1 {
        lemma_register_all_refuses(registry, kinds.drop_last(), source, k);
    } else {
        lemma_register_all_grows(registry, kinds.drop_last(), source, kinds[k].name());
    }
}

/// Two public types of one name in a list: the registration refuses one.
pub proof fn lemma_register_all_refuses_second(
    registry: Map<Seq<char>, RegistryItemView>,
    kinds: Seq<RegistryKindView>,
    source: Option<Seq<char>>,
    a: int,
    b: int,
)
    requires
        0 <= a < b < kinds.len(),
        kinds[a].is_public(),
        kinds[b].is_public(),
        kinds[a].name() == kinds[b].name(),
    ensures
        register_all(registry, kinds, source).duplicate is Some,
    decreases kinds.len(),
{
    if b < kinds.len() - 1 {
        lemma_register_all_refuses_second(registry, kinds.drop_last(), source, a, b);
    } else {
        let before = register_all(registry, kinds.drop_last(), source);
        if before.duplicate is None {
            lemma_register_all_holds(registry, kinds.drop_last(), source, a);
        }
    }
}

/// Types that are not public are not registered and never refused.
pub proof fn lemma_register_all_skips_private(
    registry: Map<Seq<char>, RegistryItemView>,
    kinds: Seq<RegistryKindView>,
    source: Option<Seq<char>>,
)
    requires
        forall|k: int| 0 <= k < kinds.len() ==> !(#[trigger] kinds[k]).is_public(),
    ensures
        register_all(registry, kinds, source) == (Registration { registry, duplicate: None }),
    decreases kinds.len(),
{
    if kinds.len() > 0 {
        lemma_register_all_skips_private(registry, kinds.drop_last(), source);
    }
}

/// The names of the links in and below a node, in the order of the walk:
/// the node's own link first, with what is below its target, then what is
/// below the node.
pub open spec fn linked_names(node: TreeNodeView) -> Seq<Seq<char>>
    decreases node, 1int,
{
    (match node.link {
        Some(target) => seq![node.name] + linked_names(*target),
        None => Seq::empty(),
    }) + (match node.children {
        Some(children) => linked_names_of_all(children),
        None => Seq::empty(),
    })
}

/// The names of the links in and below a list of nodes.
pub open spec fn linked_names_of_all(nodes: Seq<TreeNodeView>) -> Seq<Seq<char>>
    decreases nodes, 0int,
{
    if nodes.len() == 0 {
        Seq::empty()
    } else {
        linked_names_of_all(nodes.drop_last()) + linked_names(nodes.last())
    }
}

/// The links of two lists of nodes are those of the first, then those of
/// the second.
pub proof fn lemma_linked_names_concat(a: Seq<TreeNodeView>, b: Seq<TreeNodeView>)
    ensures
        linked_names_of_all(a + b) == linked_names_of_all(a) + linked_names_of_all(b),
    decreases b.len(),
{
    if b.len() > 0 {
        lemma_linked_names_concat(a, b.drop_last());
        assert((a + b).drop_last() =~= a + b.drop_last());
    }
}

/// The links below the node of a function are the structs that its
/// expansion visits, and none of them was visited before or is visited
/// twice.
pub proof fn lemma_expand_function_links(
    structs: Seq<RustStructView>,
    f: RustFunctionView,
    visited: Seq<Seq<char>>,
)
    requires
        visited.no_duplicates(),
    ensures
        linked_names(expand_function(structs, f, visited).built) == expand_function(
            structs,
            f,
            visited,
        ).added,
        (visited + expand_function(structs, f, visited).added).no_duplicates(),
    decreases remaining(structs, visited), 2int, 0nat,
{
    lemma_expand_uses_links(structs, f.uses_list(), visited);
}

/// The same for the links of a list of used names.
pub proof fn lemma_expand_uses_links(
    structs: Seq<RustStructView>,
    names: Seq<Seq<char>>,
    visited: Seq<Seq<char>>,
)
    requires
        visited.no_duplicates(),
    ensures
        linked_names_of_all(expand_uses(structs, names, visited).built) == expand_uses(
            structs,
            names,
            visited,
        ).added,
        (visited + expand_uses(structs, names, visited).added).no_duplicates(),
    decreases remaining(structs, visited), 1int, names.len(),
{
    if names.len() > 0 {
        let before = expand_uses(structs, names.drop_last(), visited);
        lemma_expand_uses_links(structs, names.drop_last(), visited);
        lemma_remaining_monotone(structs, visited, before.added);
        let last = expand_link(structs, names.last(), visited + before.added);
        lemma_expand_link_links(structs, names.last(), visited + before.added);
        lemma_linked_names_concat(before.built, last.built);
        assert((visited + before.added) + last.added =~= visited + (before.added + last.added));
    }
}

/// The same for the link of one used name.
pub proof fn lemma_expand_link_links(
    structs: Seq<RustStructView>,
    name: Seq<char>,
    visited: Seq<Seq<char>>,
)
    requires
        visited.no_duplicates(),
    ensures
        linked_names_of_all(expand_link(structs, name, visited).built) == expand_link(
            structs,
            name,
            visited,
        ).added,
        (visited + expand_link(structs, name, visited).added).no_duplicates(),
    decreases remaining(structs, visited), 0int, 0nat,
{
    if !visited.contains(name) {
        match struct_names(structs).index_of_first(name) {
            None => {},
            Some(i) => {
                struct_names(structs).index_of_first_ensures(name);
                lemma_remaining_strict(structs, visited, name);
                let target = expand_type(
                    structs,
                    RustTypeView::Struct(structs[i]),
                    visited.push(name),
                );
                lemma_expand_type_links(
                    structs,
                    RustTypeView::Struct(structs[i]),
                    visited.push(name),
                );
                let e = expand_link(structs, name, visited);
                let node = e.built[0];
                assert(linked_names_of_all(e.built.drop_last()) =~= Seq::<Seq<char>>::empty());
                assert(linked_names(node) =~= seq![name] + target.added);
                assert(visited.push(name) + target.added =~= visited + (seq![name]
                    + target.added));
            },
        }
    }
}

/// The same for the node of a struct, enum or trait.
pub proof fn lemma_expand_type_links(
    structs: Seq<RustStructView>,
    decl: RustTypeView,
    visited: Seq<Seq<char>>,
)
    requires
        visited.no_duplicates(),
    ensures
        linked_names(expand_type(structs, decl, visited).built) == expand_type(
            structs,
            decl,
            visited,
        ).added,
        (visited + expand_type(structs, decl, visited).added).no_duplicates(),
    decreases remaining(structs, visited), 4int, 0nat,
{
    lemma_expand_methods_links(structs, decl.method_list(), visited);
}

/// The same for the nodes of a list of methods.
pub proof fn lemma_expand_methods_links(
    structs: Seq<RustStructView>,
    methods: Seq<RustFunctionView>,
    visited: Seq<Seq<char>>,
)
    requires
        visited.no_duplicates(),
    ensures
        linked_names_of_all(expand_methods(structs, methods, visited).built) == expand_methods(
            structs,
            methods,
            visited,
        ).added,
        (visited + expand_methods(structs, methods, visited).added).no_duplicates(),
    decreases remaining(structs, visited), 3int, methods.len(),
{
    if methods.len() > 0 {
        let before = expand_methods(structs, methods.drop_last(), visited);
        lemma_expand_methods_links(structs, methods.drop_last(), visited);
        lemma_remaining_monotone(structs, visited, before.added);
        let last = expand_function(structs, methods.last(), visited + before.added);
        lemma_expand_function_links(structs, methods.last(), visited + before.added);
        let built = before.built.push(last.built);
        assert(built.drop_last() =~= before.built);
        assert((visited + before.added) + last.added =~= visited + (before.added + last.added));
    }
}

/// However the structs of a file refer to each other, in the tree of a
/// top-level function no struct is linked twice: not on one path, and not
/// on two.
pub proof fn lemma_function_tree_links_once(structs: Seq<RustStructView>, f: RustFunctionView)
    ensures
        linked_names(function_tree(structs, f)).no_duplicates(),
{
    let none = Seq::<Seq<char>>::empty();
    lemma_expand_function_links(structs, f, none);
}

/// In the tree of a top-level struct no struct is linked twice, and the
/// struct itself is not linked at all.
pub proof fn lemma_struct_tree_links_once(structs: Seq<RustStructView>, s: RustStructView)
    ensures
        linked_names(struct_tree(structs, s)).no_duplicates(),
        !linked_names(struct_tree(structs, s)).contains(s.name),
{
    let start = seq![s.name];
    let decl = RustTypeView::Struct(s);
    lemma_expand_type_links(structs, decl, start);
    let added = expand_type(structs, decl, start).added;
    let all = start + added;
    assert forall|i: int, j: int| 0 <= i < added.len() && 0 <= j < added.len() && i != j implies added[i]
        != added[j] by {
        assert(all[i + 1] == added[i]);
        assert(all[j + 1] == added[j]);
    }
    if added.contains(s.name) {
        let i = choose|i: int| 0 <= i < added.len() && added[i] == s.name;
        assert(all[0] == s.name);
        assert(all[i + 1] == s.name);
    }
}

/// In the tree of a top-level enum or trait no struct is linked twice.
pub proof fn lemma_type_tree_links_once(structs: Seq<RustStructView>, decl: RustTypeView)
    ensures
        linked_names(expand_type(structs, decl, Seq::empty()).built).no_duplicates(),
{
    let none = Seq::<Seq<char>>::empty();
    lemma_expand_type_links(structs, decl, none);
}

} // verus!
