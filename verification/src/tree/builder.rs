use vstd::prelude::*;
use vstd::string::*;
use crate::error::{ClippyError, ClippyErrorView};
use crate::file_visitor::{RustFileView, RustFileVisitor};
use crate::names::{first_segment, split_path, split_segments, str_eq};
use crate::registry::{keyed_by_name, GlobalRegistry, RegistryItemView};
use crate::types::rust_function::RustFunctionView;
use crate::types::rust_type::{RustType, RustTypeView};
use super::dependencies::{
    collect, dependencies_of, dependency_order_of, find_dependencies, lemma_collect_from_uses,
};
use super::tree::TreeNodeView;
use super::dependents::find_dependents::{
    dependent_order_of, dependents_of, find_dependents, lemma_dependents_include, lemma_user_depends,
};
use super::initialize::{
    file_trees, file_types, lemma_register_all_grows, lemma_register_all_holds,
    lemma_register_all_refuses, lemma_register_all_refuses_second,
    lemma_register_all_skips_private, register_all, ChunkInitializer,
};
use super::root::{find_named, make_root_config, node_names, root_config, RootNode, RootNodeView};

verus! {

/// The tree of a file as it is built, before any query.
pub open spec fn root_of(file: RustFileView) -> RootNodeView {
    RootNodeView {
        file_path: file.file_path,
        dependencies: Map::empty(),
        dependency_order: Seq::empty(),
        dependents: Map::empty(),
        dependent_order: Seq::empty(),
        children: file_trees(file),
    }
}

/// What building the trees of a list of files gives: the trees, the
/// registry afterwards, and the name of the public type that was refused,
/// if one was.
pub struct Built {
    pub roots: Seq<RootNodeView>,
    pub registry: Map<Seq<char>, RegistryItemView>,
    pub duplicate: Option<Seq<char>>,
}

/// Builds the trees of the files, file after file, and registers their
/// public types. Building stops at the first file with a public type whose
/// name is taken.
pub open spec fn build_all(
    files: Seq<RustFileView>,
    registry: Map<Seq<char>, RegistryItemView>,
) -> Built
    decreases files.len(),
{
    if files.len() == 0 {
        Built { roots: Seq::empty(), registry, duplicate: None }
    } else {
        let before = build_all(files.drop_last(), registry);
        if before.duplicate is Some {
            before
        } else {
            let file = files.last();
            let done = register_all(
                before.registry,
                file_types(file),
                Some(file.file_path.relative_path),
            );
            Built {
                roots: if done.duplicate is None {
                    before.roots.push(root_of(file))
                } else {
                    before.roots
                },
                registry: done.registry,
                duplicate: done.duplicate,
            }
        }
    }
}

/// The files among the first `n` trees that have a top-level declaration
/// called `name`.
pub open spec fn candidate_files(roots: Seq<RootNodeView>, n: nat, name: Seq<char>) -> Seq<
    Seq<char>,
>
    decreases n,
{
    if n == 0 || n > roots.len() {
        Seq::empty()
    } else {
        let root = roots[n - 1];
        candidate_files(roots, (n - 1) as nat, name) + if node_names(root.children).contains(
            name,
        ) {
            seq![root.file_path.relative_path]
        } else {
            Seq::empty()
        }
    }
}

/// The files that a scoped query could mean: those with a top-level
/// declaration called as the first segment of the query. A query that
/// begins with the file, and no query at all, leave no doubt.
pub open spec fn conflicts(
    roots: Seq<RootNodeView>,
    use_full_path: bool,
    filter: Option<Seq<char>>,
) -> Seq<Seq<char>> {
    match filter {
        Some(f) if !use_full_path => candidate_files(roots, roots.len(), first_segment(f)),
        _ => Seq::empty(),
    }
}

/// The trees, each with the dependencies of its declarations in the scope
/// of the query.
pub open spec fn with_dependencies(
    roots: Seq<RootNodeView>,
    filter: Seq<char>,
    use_full_path: bool,
    registry: Map<Seq<char>, RegistryItemView>,
) -> Seq<RootNodeView> {
    Seq::new(
        roots.len(),
        |i: int|
            RootNodeView {
                dependencies: dependencies_of(
                    roots[i],
                    root_config(roots[i].file_path.relative_path, Some(filter), use_full_path),
                    registry,
                ),
                dependency_order: dependency_order_of(
                    roots[i],
                    root_config(roots[i].file_path.relative_path, Some(filter), use_full_path),
                    registry,
                ),
                ..roots[i]
            },
    )
}

/// The name of the top-level declaration that a query is about: its first
/// segment, or its second where the first is the file.
pub open spec fn target_name(filter: Seq<char>, use_full_path: bool) -> Option<Seq<char>> {
    let segments = split_segments(filter);
    if !use_full_path {
        Some(segments[0])
    } else if segments.len() >= 2 {
        Some(segments[1])
    } else {
        None
    }
}

/// Whether the tree holds the declaration that the query is about. Where
/// the query begins with a file, only the tree of that file can.
pub open spec fn owns_target(root: RootNodeView, filter: Seq<char>, use_full_path: bool) -> bool {
    &&& target_name(filter, use_full_path) matches Some(name)
    &&& node_names(root.children).contains(name)
    &&& use_full_path ==> root.file_path.relative_path == split_segments(filter)[0]
}

/// The place of the first tree from place `i` on that holds the
/// declaration that the query is about.
pub open spec fn first_owner_from(
    roots: Seq<RootNodeView>,
    i: int,
    filter: Seq<char>,
    use_full_path: bool,
) -> Option<int>
    decreases roots.len() - i,
{
    if i < 0 || i >= roots.len() {
        None
    } else if owns_target(roots[i], filter, use_full_path) {
        Some(i)
    } else {
        first_owner_from(roots, i + 1, filter, use_full_path)
    }
}

/// The place of the first tree that holds the declaration that the query
/// is about.
pub open spec fn first_owner(roots: Seq<RootNodeView>, filter: Seq<char>, use_full_path: bool) -> Option<
    int,
> {
    first_owner_from(roots, 0, filter, use_full_path)
}

/// The declaration that the query is about, in the tree that holds it.
pub open spec fn target_in(root: RootNodeView, filter: Seq<char>, use_full_path: bool) -> RustTypeView {
    find_named(root.children, target_name(filter, use_full_path)->Some_0)->Some_0.rtype
}

/// The trees, with the dependents of the target in every tree if the
/// target is public, and otherwise in the tree at place `owner` alone.
pub open spec fn with_dependents(
    roots: Seq<RootNodeView>,
    owner: int,
    target: RustTypeView,
) -> Seq<RootNodeView> {
    Seq::new(
        roots.len(),
        |i: int|
            if target.is_public() || i == owner {
                RootNodeView {
                    dependents: dependents_of(roots[i], target),
                    dependent_order: dependent_order_of(roots[i], target),
                    ..roots[i]
                }
            } else {
                roots[i]
            },
    )
}

/// What a run gives for a list of files. In this order: a public type
/// whose name is taken ends it; so does a scoped query whose first segment
/// names a top-level declaration in more than one file; the dependencies
/// are found if they are asked for and there is a query; and if the
/// dependents are asked for, a query without a target, or none at all,
/// ends the run, and otherwise the dependents are found.
pub open spec fn outcome(
    files: Seq<RustFileView>,
    registry: Map<Seq<char>, RegistryItemView>,
    use_full_path: bool,
    filter: Option<Seq<char>>,
    link_dependencies: bool,
    link_dependents: bool,
) -> Result<Seq<RootNodeView>, ClippyErrorView> {
    let built = build_all(files, registry);
    if built.duplicate is Some {
        Err(ClippyErrorView::DuplicateSymbol { name: built.duplicate->Some_0 })
    } else if conflicts(built.roots, use_full_path, filter).len() > 1 {
        Err(
            ClippyErrorView::AmbiguousFilter {
                name: first_segment(filter->Some_0),
                candidate_files: conflicts(built.roots, use_full_path, filter),
            },
        )
    } else {
        let roots = if link_dependencies && filter is Some {
            with_dependencies(built.roots, filter->Some_0, use_full_path, built.registry)
        } else {
            built.roots
        };
        if !link_dependents {
            Ok(roots)
        } else {
            match filter {
                None => Err(ClippyErrorView::UnresolvedQueryTarget { path: Seq::empty() }),
                Some(f) => match first_owner(roots, f, use_full_path) {
                    None => Err(ClippyErrorView::UnresolvedQueryTarget { path: f }),
                    Some(owner) => Ok(
                        with_dependents(roots, owner, target_in(roots[owner], f, use_full_path)),
                    ),
                },
            }
        }
    }
}

/// No tree before place `i` holds the target: the first that does is the
/// first from `i` on.
pub proof fn lemma_first_owner_skips(
    roots: Seq<RootNodeView>,
    i: int,
    filter: Seq<char>,
    use_full_path: bool,
)
    requires
        0 <= i <= roots.len(),
        forall|j: int| 0 <= j < i ==> !owns_target(#[trigger] roots[j], filter, use_full_path),
    ensures
        first_owner(roots, filter, use_full_path) == first_owner_from(
            roots,
            i,
            filter,
            use_full_path,
        ),
    decreases i,
{
    if i > 0 {
        lemma_first_owner_skips(roots, i - 1, filter, use_full_path);
    }
}

/// Builds the trees of all files of a run and answers the queries on them.
pub struct TreeBuilder {
    visitors: Vec<RustFileVisitor>,
    global_registry: GlobalRegistry,
    use_full_path: bool,
}

impl TreeBuilder {
    /// The files of the run.
    pub closed spec fn files(&self) -> Seq<RustFileView> {
        self.visitors.deep_view()
    }

    /// The registry of the run.
    pub closed spec fn registry(&self) -> Map<Seq<char>, RegistryItemView> {
        self.global_registry@
    }

    /// Whether queries begin with the file.
    pub closed spec fn full_path(&self) -> bool {
        self.use_full_path
    }

    /// A builder for the files, with an empty registry.
    pub fn new(visitors: Vec<RustFileVisitor>, use_full_path: bool) -> (r: Self)
        ensures
            r.files() == visitors.deep_view(),
            r.registry() == Map::<Seq<char>, RegistryItemView>::empty(),
            r.full_path() == use_full_path,
    {
        TreeBuilder { visitors, global_registry: GlobalRegistry::default(), use_full_path }
    }

    /// The registry of the run.
    pub fn global_registry(&self) -> (r: &GlobalRegistry)
        ensures
            r@ == self.registry(),
    {
        &self.global_registry
    }

    /// Builds the tree of every file, registers the public types, and
    /// answers the query: see [`outcome`].
    pub fn initialize_root_nodes(
        &mut self,
        filter: Option<&str>,
        link_dependencies: bool,
        link_dependents: bool,
    ) -> (r: Result<Vec<RootNode>, ClippyError>)
        ensures
            final(self).files() == old(self).files(),
            final(self).full_path() == old(self).full_path(),
            final(self).registry() == build_all(old(self).files(), old(self).registry()).registry,
            match r {
                Ok(roots) => outcome(
                    old(self).files(),
                    old(self).registry(),
                    old(self).full_path(),
                    filter.deep_view(),
                    link_dependencies,
                    link_dependents,
                ) == Ok::<Seq<RootNodeView>, ClippyErrorView>(roots.deep_view()),
                Err(e) => outcome(
                    old(self).files(),
                    old(self).registry(),
                    old(self).full_path(),
                    filter.deep_view(),
                    link_dependencies,
                    link_dependents,
                ) == Err::<Seq<RootNodeView>, ClippyErrorView>(e@),
            },
    {
        let mut root_nodes = match self.build_roots() {
            Ok(roots) => roots,
            Err(e) => {
                return Err(e);
            },
        };
        if !self.use_full_path {
            match self.validate_chunks_for_conflicts(&root_nodes, filter) {
                Ok(()) => {},
                Err(e) => {
                    return Err(e);
                },
            }
        }
        if link_dependencies {
            self.link_dependencies(&mut root_nodes, filter);
        }
        if link_dependents {
            match self.link_dependents(&mut root_nodes, filter) {
                Ok(()) => {},
                Err(e) => {
                    return Err(e);
                },
            }
        }
        Ok(root_nodes)
    }

    /// Builds the tree of every file and registers the public types.
    fn build_roots(&mut self) -> (r: Result<Vec<RootNode>, ClippyError>)
        ensures
            final(self).files() == old(self).files(),
            final(self).full_path() == old(self).full_path(),
            final(self).registry() == build_all(old(self).files(), old(self).registry()).registry,
            match r {
                Ok(roots) => {
                    let built = build_all(old(self).files(), old(self).registry());
                    built.duplicate is None && roots.deep_view() == built.roots
                },
                Err(e) => {
                    let built = build_all(old(self).files(), old(self).registry());
                    built.duplicate is Some && e@ == (ClippyErrorView::DuplicateSymbol {
                        name: built.duplicate->Some_0,
                    })
                },
            },
    {
        let ghost files = self.files();
        let ghost registry = self.registry();
        let mut root_nodes: Vec<RootNode> = Vec::new();
        let mut i: usize = 0;
        while i < self.visitors.len()
            invariant
                i <= self.visitors.len(),
                self.visitors == old(self).visitors,
                self.use_full_path == old(self).use_full_path,
                files == self.visitors.deep_view(),
                registry == old(self).global_registry@,
                build_all(files.take(i as int), registry).duplicate is None,
                self.global_registry@ == build_all(files.take(i as int), registry).registry,
                root_nodes.deep_view() == build_all(files.take(i as int), registry).roots,
            decreases self.visitors.len() - i,
        {
            proof {
                let next = files.take(i + 1);
                assert(next.drop_last() =~= files.take(i as int));
            }
            let initializer = ChunkInitializer::new(&self.visitors[i]);
            match initializer.initialize_tree(&mut self.global_registry) {
                Ok(root) => {
                    root_nodes.push(root);
                },
                Err(e) => {
                    proof {
                        lemma_build_all_stops(files, registry, i + 1);
                    }
                    return Err(e);
                },
            }
            i += 1;
        }
        assert(files.take(self.visitors.len() as int) =~= files);
        Ok(root_nodes)
    }

    /// Refuses a scoped query whose first segment names a top-level
    /// declaration in more than one file.
    fn validate_chunks_for_conflicts(&self, chunks: &Vec<RootNode>, filter: Option<&str>) -> (r:
        Result<(), ClippyError>)
        ensures
            match r {
                Ok(()) => conflicts(chunks.deep_view(), false, filter.deep_view()).len() <= 1,
                Err(e) => conflicts(chunks.deep_view(), false, filter.deep_view()).len() > 1 && e@
                    == (ClippyErrorView::AmbiguousFilter {
                    name: first_segment(filter.deep_view()->Some_0),
                    candidate_files: conflicts(chunks.deep_view(), false, filter.deep_view()),
                }),
            },
    {
        match filter {
            None => Ok(()),
            Some(filter_str) => {
                let segments = split_path(filter_str);
                let first_component = segments[0].as_str();
                let ghost roots = chunks.deep_view();
                let mut potential_conflicts: Vec<String> = Vec::new();
                let mut i: usize = 0;
                while i < chunks.len()
                    invariant
                        i <= chunks.len(),
                        roots == chunks.deep_view(),
                        potential_conflicts.deep_view() == candidate_files(
                            roots,
                            i as nat,
                            first_component@,
                        ),
                    decreases chunks.len() - i,
                {
                    if chunks[i].has_child_named(first_component) {
                        potential_conflicts.push(chunks[i].file_path().relative_path());
                    }
                    i += 1;
                }
                if potential_conflicts.len() > 1 {
                    Err(
                        ClippyError::AmbiguousFilter {
                            name: first_component.to_owned(),
                            candidate_files: potential_conflicts,
                        },
                    )
                } else {
                    Ok(())
                }
            },
        }
    }

    /// Finds the dependencies in every tree, if there is a query.
    fn link_dependencies(&self, root_nodes: &mut Vec<RootNode>, filter: Option<&str>)
        ensures
            final(root_nodes).deep_view() == match filter.deep_view() {
                Some(f) => with_dependencies(
                    old(root_nodes).deep_view(),
                    f,
                    self.full_path(),
                    self.registry(),
                ),
                None => old(root_nodes).deep_view(),
            },
    {
        match filter {
            None => {},
            Some(filter_str) => {
                let ghost roots = root_nodes.deep_view();
                let ghost goal = with_dependencies(
                    roots,
                    filter_str@,
                    self.full_path(),
                    self.registry(),
                );
                let mut i: usize = 0;
                while i < root_nodes.len()
                    invariant
                        i <= root_nodes.len(),
                        root_nodes.len() == roots.len(),
                        goal == with_dependencies(
                            roots,
                            filter_str@,
                            self.full_path(),
                            self.registry(),
                        ),
                        forall|j: int| 0 <= j < i ==> root_nodes.deep_view()[j] == goal[j],
                        forall|j: int|
                            i <= j < root_nodes.len() ==> root_nodes.deep_view()[j] == roots[j],
                    decreases root_nodes.len() - i,
                {
                    let file = root_nodes[i].file_path().relative_path();
                    let config = make_root_config(
                        file.as_str(),
                        Some(filter_str),
                        self.use_full_path,
                    );
                    find_dependencies(&mut root_nodes[i], &self.global_registry, &config);
                    i += 1;
                }
            },
        }
    }

    /// The place of the first tree that holds the declaration that the
    /// query is about.
    fn find_root_node(&self, root_nodes: &Vec<RootNode>, filter: &str) -> (r: Option<
        (usize, RustType),
    >)
        ensures
            match r {
                Some((i, target)) => i < root_nodes.len() && first_owner(
                    root_nodes.deep_view(),
                    filter@,
                    self.full_path(),
                ) == Some(i as int) && target@ == target_in(
                    root_nodes.deep_view()[i as int],
                    filter@,
                    self.full_path(),
                ),
                None => first_owner(root_nodes.deep_view(), filter@, self.full_path()).is_none(),
            },
    {
        let segments = split_path(filter);
        let ghost roots = root_nodes.deep_view();
        let full = self.use_full_path;
        if full && segments.len() < 2 {
            proof {
                lemma_no_owner(roots, 0, filter@, full);
            }
            return None;
        }
        let target = if full {
            segments[1].as_str()
        } else {
            segments[0].as_str()
        };
        let mut i: usize = 0;
        while i < root_nodes.len()
            invariant
                i <= root_nodes.len(),
                roots == root_nodes.deep_view(),
                full == self.full_path(),
                segments.deep_view() == split_segments(filter@),
                segments.len() >= 1,
                target_name(filter@, full) == Some(target@),
                forall|j: int| 0 <= j < i ==> !owns_target(#[trigger] roots[j], filter@, full),
            decreases root_nodes.len() - i,
        {
            let root = &root_nodes[i];
            let file_matches = if full {
                let file = root.file_path().relative_path();
                str_eq(file.as_str(), segments[0].as_str())
            } else {
                true
            };
            if file_matches {
                proof {
                    node_names(roots[i as int].children).index_of_first_ensures(target@);
                }
                match root.find_child_by_name(target) {
                    Some(node) => {
                        proof {
                            lemma_first_owner_skips(roots, i as int, filter@, full);
                        }
                        return Some((i, node.rtype().clone()));
                    },
                    None => {},
                }
            }
            i += 1;
        }
        proof {
            lemma_first_owner_skips(roots, root_nodes.len() as int, filter@, full);
        }
        None
    }

    /// Finds the dependents of the declaration that the query is about.
    fn link_dependents(&self, root_nodes: &mut Vec<RootNode>, filter: Option<&str>) -> (r: Result<
        (),
        ClippyError,
    >)
        ensures
            match filter.deep_view() {
                None => r is Err && r->Err_0@ == (ClippyErrorView::UnresolvedQueryTarget {
                    path: Seq::empty(),
                }),
                Some(f) => match first_owner(old(root_nodes).deep_view(), f, self.full_path()) {
                    None => r is Err && r->Err_0@ == (ClippyErrorView::UnresolvedQueryTarget {
                        path: f,
                    }),
                    Some(owner) => r is Ok && final(root_nodes).deep_view() == with_dependents(
                        old(root_nodes).deep_view(),
                        owner,
                        target_in(old(root_nodes).deep_view()[owner], f, self.full_path()),
                    ),
                },
            },
    {
        let filter_str = match filter {
            Some(f) => f,
            None => {
                return Err(ClippyError::UnresolvedQueryTarget { path: String::new() });
            },
        };
        let (owner, rust_item) = match self.find_root_node(root_nodes, filter_str) {
            Some(found) => found,
            None => {
                return Err(ClippyError::UnresolvedQueryTarget { path: filter_str.to_owned() });
            },
        };
        let ghost roots = root_nodes.deep_view();
        let ghost goal = with_dependents(roots, owner as int, rust_item@);
        let everywhere = rust_item.is_public();
        let mut i: usize = 0;
        while i < root_nodes.len()
            invariant
                i <= root_nodes.len(),
                owner < root_nodes.len(),
                root_nodes.len() == roots.len(),
                everywhere == rust_item@.is_public(),
                goal == with_dependents(roots, owner as int, rust_item@),
                forall|j: int| 0 <= j < i ==> root_nodes.deep_view()[j] == goal[j],
                forall|j: int| i <= j < root_nodes.len() ==> root_nodes.deep_view()[j] == roots[j],
            decreases root_nodes.len() - i,
        {
            if everywhere || i == owner {
                find_dependents(&mut root_nodes[i], &rust_item);
            }
            i += 1;
        }
        Ok(())
    }
}

/// Once a name was refused, building a longer list of files ends in the
/// same way.
pub proof fn lemma_build_all_stops(
    files: Seq<RustFileView>,
    registry: Map<Seq<char>, RegistryItemView>,
    n: int,
)
    requires
        0 <= n <= files.len(),
        build_all(files.take(n), registry).duplicate is Some,
    ensures
        build_all(files, registry) == build_all(files.take(n), registry),
    decreases files.len() - n,
{
    if n < files.len() {
        let next = files.take(n + 1);
        assert(next.drop_last() =~= files.take(n));
        lemma_build_all_stops(files, registry, n + 1);
    } else {
        assert(files.take(n) =~= files);
    }
}

/// A query that begins with the file and has no second segment is about no
/// declaration.
pub proof fn lemma_no_owner(roots: Seq<RootNodeView>, i: int, filter: Seq<char>, use_full_path: bool)
    requires
        target_name(filter, use_full_path).is_none(),
    ensures
        first_owner_from(roots, i, filter, use_full_path).is_none(),
    decreases roots.len() - i,
{
    if 0 <= i < roots.len() {
        lemma_no_owner(roots, i + 1, filter, use_full_path);
    }
}

/// After the trees were built and nothing was refused, the name of every
/// public type of every file is registered.
pub proof fn lemma_build_all_holds(
    files: Seq<RustFileView>,
    registry: Map<Seq<char>, RegistryItemView>,
    i: int,
    k: int,
)
    requires
        0 <= i < files.len(),
        0 <= k < file_types(files[i]).len(),
        file_types(files[i])[k].is_public(),
        build_all(files, registry).duplicate is None,
    ensures
        build_all(files, registry).registry.dom().contains(file_types(files[i])[k].name()),
    decreases files.len(),
{
    let before = build_all(files.drop_last(), registry);
    let file = files.last();
    let source = Some(file.file_path.relative_path);
    if i < files.len() - 1 {
        lemma_build_all_holds(files.drop_last(), registry, i, k);
        lemma_register_all_grows(
            before.registry,
            file_types(file),
            source,
            file_types(files[i])[k].name(),
        );
    } else {
        lemma_register_all_holds(before.registry, file_types(file), source, k);
    }
}

/// Two files that each declare a public type of the same name: the run
/// ends with a refused name.
pub proof fn lemma_second_public_declaration_is_refused(
    files: Seq<RustFileView>,
    registry: Map<Seq<char>, RegistryItemView>,
    i: int,
    a: int,
    j: int,
    b: int,
)
    requires
        0 <= i < j < files.len(),
        0 <= a < file_types(files[i]).len(),
        0 <= b < file_types(files[j]).len(),
        file_types(files[i])[a].is_public(),
        file_types(files[j])[b].is_public(),
        file_types(files[i])[a].name() == file_types(files[j])[b].name(),
    ensures
        build_all(files, registry).duplicate is Some,
        forall|full: bool, filter: Option<Seq<char>>, dependencies: bool, dependents: bool|
            #[trigger] outcome(files, registry, full, filter, dependencies, dependents)
                == Err::<Seq<RootNodeView>, ClippyErrorView>(
                ClippyErrorView::DuplicateSymbol {
                    name: build_all(files, registry).duplicate->Some_0,
                },
            ),
{
    let upto = files.take(j + 1);
    assert(upto.drop_last() =~= files.take(j));
    let before = build_all(files.take(j), registry);
    if before.duplicate is None {
        lemma_build_all_holds(files.take(j), registry, i, a);
        lemma_register_all_refuses(
            before.registry,
            file_types(files[j]),
            Some(files[j].file_path.relative_path),
            b,
        );
    }
    lemma_build_all_stops(files, registry, j + 1);
}

/// A file that declares two public types of the same name: the run ends
/// with a refused name.
pub proof fn lemma_public_twice_in_one_file_is_refused(
    files: Seq<RustFileView>,
    registry: Map<Seq<char>, RegistryItemView>,
    i: int,
    a: int,
    b: int,
)
    requires
        0 <= i < files.len(),
        0 <= a < b < file_types(files[i]).len(),
        file_types(files[i])[a].is_public(),
        file_types(files[i])[b].is_public(),
        file_types(files[i])[a].name() == file_types(files[i])[b].name(),
    ensures
        build_all(files, registry).duplicate is Some,
{
    let upto = files.take(i + 1);
    assert(upto.drop_last() =~= files.take(i));
    let before = build_all(files.take(i), registry);
    if before.duplicate is None {
        lemma_register_all_refuses_second(
            before.registry,
            file_types(files[i]),
            Some(files[i].file_path.relative_path),
            a,
            b,
        );
    }
    lemma_build_all_stops(files, registry, i + 1);
}

/// Where no file declares a public type, whatever the names, nothing is
/// registered and nothing is refused: every file gets its tree.
pub proof fn lemma_private_declarations_are_not_registered(
    files: Seq<RustFileView>,
    registry: Map<Seq<char>, RegistryItemView>,
)
    requires
        forall|i: int, k: int|
            0 <= i < files.len() && 0 <= k < file_types(files[i]).len() ==> !(
            #[trigger] file_types(files[i])[k]).is_public(),
    ensures
        build_all(files, registry).duplicate is None,
        build_all(files, registry).registry == registry,
        build_all(files, registry).roots == Seq::new(files.len(), |i: int| root_of(files[i])),
    decreases files.len(),
{
    if files.len() > 0 {
        lemma_private_declarations_are_not_registered(files.drop_last(), registry);
        let file = files.last();
        lemma_register_all_skips_private(
            registry,
            file_types(file),
            Some(file.file_path.relative_path),
        );
    }
}

/// Whether a file has a top-level declaration called `name`.
pub open spec fn declares(file: RustFileView, name: Seq<char>) -> bool {
    ||| exists|i: int| 0 <= i < file.functions.len() && (#[trigger] file.functions[i]).name == name
    ||| exists|i: int| 0 <= i < file.structs.len() && (#[trigger] file.structs[i]).name == name
    ||| exists|i: int| 0 <= i < file.enums.len() && (#[trigger] file.enums[i]).name == name
    ||| exists|i: int| 0 <= i < file.traits.len() && (#[trigger] file.traits[i]).name == name
}

/// The top-level nodes of the tree of a file are called as the top-level
/// declarations of the file.
pub proof fn lemma_file_trees_names(file: RustFileView, name: Seq<char>)
    ensures
        node_names(file_trees(file)).contains(name) <==> declares(file, name),
{
    let trees = file_trees(file);
    let names = node_names(trees);
    let a = file.functions.len() as int;
    let b = file.structs.len() as int;
    let c = file.enums.len() as int;
    let d = file.traits.len() as int;
    if declares(file, name) {
        if exists|i: int| 0 <= i < a && (#[trigger] file.functions[i]).name == name {
            let i = choose|i: int| 0 <= i < a && (#[trigger] file.functions[i]).name == name;
            assert(names[i] == name);
        } else if exists|i: int| 0 <= i < b && (#[trigger] file.structs[i]).name == name {
            let i = choose|i: int| 0 <= i < b && (#[trigger] file.structs[i]).name == name;
            assert(names[a + i] == name);
        } else if exists|i: int| 0 <= i < c && (#[trigger] file.enums[i]).name == name {
            let i = choose|i: int| 0 <= i < c && (#[trigger] file.enums[i]).name == name;
            assert(names[a + b + i] == name);
        } else {
            let i = choose|i: int| 0 <= i < d && (#[trigger] file.traits[i]).name == name;
            assert(names[a + b + c + i] == name);
        }
    }
}

/// Where nothing was refused, every file has its tree, in the order of the
/// files.
pub proof fn lemma_build_all_roots(
    files: Seq<RustFileView>,
    registry: Map<Seq<char>, RegistryItemView>,
)
    requires
        build_all(files, registry).duplicate is None,
    ensures
        build_all(files, registry).roots == Seq::new(files.len(), |i: int| root_of(files[i])),
    decreases files.len(),
{
    if files.len() > 0 {
        lemma_build_all_roots(files.drop_last(), registry);
    }
}

/// Two files that each have a top-level declaration of the same name: a
/// scoped query for that name is refused as ambiguous, and both files are
/// named. A query that begins with the file is never refused as ambiguous.
pub proof fn lemma_same_name_in_two_files_is_ambiguous(
    files: Seq<RustFileView>,
    registry: Map<Seq<char>, RegistryItemView>,
    filter: Seq<char>,
    i: int,
    j: int,
    link_dependencies: bool,
    link_dependents: bool,
)
    requires
        build_all(files, registry).duplicate is None,
        0 <= i < j < files.len(),
        declares(files[i], first_segment(filter)),
        declares(files[j], first_segment(filter)),
    ensures
        outcome(files, registry, false, Some(filter), link_dependencies, link_dependents) == Err::<
            Seq<RootNodeView>,
            ClippyErrorView,
        >(
            ClippyErrorView::AmbiguousFilter {
                name: first_segment(filter),
                candidate_files: conflicts(build_all(files, registry).roots, false, Some(filter)),
            },
        ),
        conflicts(build_all(files, registry).roots, false, Some(filter)).contains(
            files[i].file_path.relative_path,
        ),
        conflicts(build_all(files, registry).roots, false, Some(filter)).contains(
            files[j].file_path.relative_path,
        ),
        forall|any: Option<Seq<char>>|
            (#[trigger] conflicts(build_all(files, registry).roots, true, any)).len() == 0,
{
    let roots = build_all(files, registry).roots;
    let name = first_segment(filter);
    lemma_build_all_roots(files, registry);
    lemma_file_trees_names(files[i], name);
    lemma_file_trees_names(files[j], name);
    lemma_candidate_files(roots, roots.len(), name, i);
    lemma_candidate_files(roots, roots.len(), name, j);
    lemma_candidate_count_grows(roots, (i + 1) as nat, j as nat, name);
    lemma_candidate_count_grows(roots, (j + 1) as nat, roots.len(), name);
}

/// A tree among the first `n` with a top-level declaration called `name`
/// is among the candidates.
pub proof fn lemma_candidate_files(roots: Seq<RootNodeView>, n: nat, name: Seq<char>, i: int)
    requires
        0 <= i < n <= roots.len(),
        node_names(roots[i].children).contains(name),
    ensures
        candidate_files(roots, n, name).contains(roots[i].file_path.relative_path),
    decreases n,
{
    let here = candidate_files(roots, n, name);
    let before = candidate_files(roots, (n - 1) as nat, name);
    if i < n - 1 {
        lemma_candidate_files(roots, (n - 1) as nat, name, i);
        let k = choose|k: int|
            0 <= k < before.len() && before[k] == roots[i].file_path.relative_path;
        assert(here[k] == roots[i].file_path.relative_path);
    } else {
        assert(here[before.len() as int] == roots[i].file_path.relative_path);
    }
}

/// More trees give no fewer candidates.
pub proof fn lemma_candidate_count_grows(roots: Seq<RootNodeView>, m: nat, n: nat, name: Seq<char>)
    requires
        m <= n <= roots.len(),
    ensures
        candidate_files(roots, m, name).len() <= candidate_files(roots, n, name).len(),
    decreases n - m,
{
    if m < n {
        lemma_candidate_count_grows(roots, m, (n - 1) as nat, name);
    }
}

/// What is found forward is found backward. Let a forward query record
/// for a top-level function, on whatever path and with whatever is declared
/// beside it, a declaration that is called as the target. Then the function,
/// unless it is the target itself, is among the dependents of the target in
/// its file, if that file is searched. Every file is searched for a public
/// target, and the file of the target for any target.
pub proof fn lemma_dependency_is_found_backward(
    roots: Seq<RootNodeView>,
    owner: int,
    target: RustTypeView,
    k: int,
    i: int,
    x: RustFunctionView,
    path: Seq<Seq<char>>,
    locals: Seq<TreeNodeView>,
    registry: Map<Seq<char>, RegistryItemView>,
    e: int,
)
    requires
        keyed_by_name(registry),
        0 <= k < roots.len(),
        0 <= i < roots[k].children.len(),
        roots[k].children[i].rtype == RustTypeView::Function(x),
        0 <= e < collect(x.uses_list(), path, locals, registry).len(),
        collect(x.uses_list(), path, locals, registry)[e].1.node.name == target.name(),
        x.id != target.id(),
        target.is_public() || k == owner,
    ensures
        with_dependents(roots, owner, target)[k].dependents.dom().contains(
            roots[k].children[i].id,
        ),
{
    lemma_collect_from_uses(x.uses_list(), path, locals, registry, e);
    lemma_forward_is_found_backward(roots, owner, target, k, i, x);
}

/// The same, said of the uses: a top-level function that uses the name of
/// the target, and is not the target itself, is among the dependents of the
/// target in its file, if that file is searched.
pub proof fn lemma_forward_is_found_backward(
    roots: Seq<RootNodeView>,
    owner: int,
    target: RustTypeView,
    k: int,
    i: int,
    x: RustFunctionView,
)
    requires
        0 <= k < roots.len(),
        0 <= i < roots[k].children.len(),
        roots[k].children[i].rtype == RustTypeView::Function(x),
        x.uses_list().contains(target.name()),
        x.id != target.id(),
        target.is_public() || k == owner,
    ensures
        with_dependents(roots, owner, target)[k].dependents.dom().contains(
            roots[k].children[i].id,
        ),
{
    lemma_user_depends(x, target);
    lemma_dependents_include(roots[k], i, target);
}

/// The same for a type with a method that uses the name of the target: the
/// type is among the dependents.
pub proof fn lemma_method_is_found_backward(
    roots: Seq<RootNodeView>,
    owner: int,
    target: RustTypeView,
    k: int,
    i: int,
    m: int,
)
    requires
        0 <= k < roots.len(),
        0 <= i < roots[k].children.len(),
        roots[k].children[i].rtype.id() != target.id(),
        0 <= m < roots[k].children[i].rtype.method_list().len(),
        roots[k].children[i].rtype.method_list()[m].uses_list().contains(target.name()),
        roots[k].children[i].rtype.method_list()[m].id != target.id(),
        target.is_public() || k == owner,
    ensures
        with_dependents(roots, owner, target)[k].dependents.dom().contains(
            roots[k].children[i].id,
        ),
{
    let method = roots[k].children[i].rtype.method_list()[m];
    crate::types::rust_function::lemma_uses_list_contains(method, target.name());
    lemma_dependents_include(roots[k], i, target);
}

} // verus!
