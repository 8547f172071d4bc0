use vstd::prelude::*;
use vstd::string::*;
use crate::names::str_eq;
use crate::types::rust_function::RustFunctionView;
use crate::types::rust_type::{RustType, RustTypeView};
use crate::tree::root::{RootNode, RootNodeView};
use crate::tree::table::{
    lemma_record_concat, lemma_record_order_concat, record, record_order, NodeEntryView,
};
use crate::tree::tree::{node_views, TreeNodeView};
use super::extract_dependents::{
    enum_dependency_on_target, fn_dependency_on_target, struct_dependency_on_target,
};
use super::Dependents;

verus! {

/// Whether a declaration refers to `target_name` by itself, its methods
/// left aside: a function by its uses, a struct by the types of its
/// fields, an enum by the types of the fields of its variants. A trait
/// does not.
pub open spec fn refers_to(item: RustTypeView, target_name: Seq<char>) -> bool {
    match item {
        RustTypeView::Function(f) => f.uses(target_name),
        RustTypeView::Struct(s) => s.mentions_type(target_name),
        RustTypeView::Enum(e) => e.mentions_type(target_name),
        RustTypeView::Trait(_) => false,
    }
}

/// Whether a method counts as a dependent of the target: it is not the
/// target itself, and it uses the target's name.
pub open spec fn method_depends(method: RustFunctionView, target: RustTypeView) -> bool {
    method.id != target.id() && method.uses(target.name())
}

/// Those of `methods` that depend on the target, in their order.
pub open spec fn dependent_methods(
    methods: Seq<RustFunctionView>,
    target: RustTypeView,
) -> Seq<RustTypeView>
    decreases methods.len(),
{
    if methods.len() == 0 {
        Seq::empty()
    } else {
        dependent_methods(methods.drop_last(), target) + if method_depends(methods.last(), target) {
            seq![RustTypeView::Function(methods.last())]
        } else {
            Seq::empty()
        }
    }
}

/// What makes `item` a dependent of the target: nothing if it is the target
/// itself; otherwise those of its methods that depend on the target, and
/// the item too if it refers to the target by itself.
pub open spec fn dependent_items(item: RustTypeView, target: RustTypeView) -> Seq<RustTypeView> {
    if item.id() == target.id() {
        Seq::empty()
    } else {
        dependent_methods(item.method_list(), target) + if refers_to(item, target.name()) {
            seq![item]
        } else {
            Seq::empty()
        }
    }
}

/// Whether `item` depends on the target: it is another declaration, and it
/// or one of its methods refers to the target's name.
pub open spec fn depends_on(item: RustTypeView, target: RustTypeView) -> bool {
    item.id() != target.id() && (refers_to(item, target.name()) || exists|i: int|
        0 <= i < item.method_list().len() && method_depends(
            #[trigger] item.method_list()[i],
            target,
        ))
}

/// Some method is among the dependent ones exactly if some method depends
/// on the target.
pub proof fn lemma_dependent_methods(methods: Seq<RustFunctionView>, target: RustTypeView)
    ensures
        dependent_methods(methods, target).len() > 0 <==> exists|i: int|
            0 <= i < methods.len() && method_depends(#[trigger] methods[i], target),
    decreases methods.len(),
{
    if methods.len() > 0 {
        lemma_dependent_methods(methods.drop_last(), target);
        if exists|i: int| 0 <= i < methods.len() && method_depends(#[trigger] methods[i], target) {
            let i = choose|i: int|
                0 <= i < methods.len() && method_depends(#[trigger] methods[i], target);
            if i < methods.len() - 1 {
                assert(method_depends(methods.drop_last()[i], target));
            }
        }
    }
}

/// A declaration has something that makes it a dependent exactly if it
/// depends on the target.
pub proof fn lemma_dependent_items(item: RustTypeView, target: RustTypeView)
    ensures
        dependent_items(item, target).len() > 0 <==> depends_on(item, target),
{
    lemma_dependent_methods(item.method_list(), target);
}

/// The records for those of the first `n` of `nodes` that depend on the
/// target, each under its identifier and tagged with `source`.
pub open spec fn dependent_records(
    nodes: Seq<TreeNodeView>,
    n: nat,
    source: Seq<char>,
    target: RustTypeView,
) -> Seq<(Seq<char>, NodeEntryView)>
    decreases n,
{
    if n == 0 || n > nodes.len() {
        Seq::empty()
    } else {
        let node = nodes[n - 1];
        dependent_records(nodes, (n - 1) as nat, source, target) + if depends_on(
            node.rtype,
            target,
        ) {
            seq![(node.id, NodeEntryView { node, source: Some(source) })]
        } else {
            Seq::empty()
        }
    }
}

/// The top-level declarations of a file that depend on the target, each
/// tagged with the path of the file.
pub open spec fn dependents_of(root: RootNodeView, target: RustTypeView) -> Map<
    Seq<char>,
    NodeEntryView,
> {
    record(
        Map::empty(),
        dependent_records(root.children, root.children.len(), root.file_path.real_path(), target),
    )
}

/// The identifiers of those declarations, in the order of the file.
pub open spec fn dependent_order_of(root: RootNodeView, target: RustTypeView) -> Seq<Seq<char>> {
    record_order(
        Seq::empty(),
        dependent_records(root.children, root.children.len(), root.file_path.real_path(), target),
    )
}

/// Finds what makes `item` a dependent of the target.
pub fn find_identifiable_items(item: &RustType, target_item: &RustType) -> (r: Vec<RustType>)
    ensures
        r.deep_view() == dependent_items(item@, target_item@),
        r.len() > 0 <==> depends_on(item@, target_item@),
{
    proof {
        lemma_dependent_items(item@, target_item@);
    }
    let mut dependent_items: Vec<RustType> = Vec::new();
    if str_eq(item.id(), target_item.id()) {
        return dependent_items;
    }
    let ghost methods = item@.method_list();
    match item.methods() {
        Some(list) => {
            let mut i: usize = 0;
            while i < list.len()
                invariant
                    i <= list.len(),
                    list.deep_view() == methods,
                    dependent_items.deep_view() == dependent_methods(
                        methods.take(i as int),
                        target_item@,
                    ),
                decreases list.len() - i,
            {
                let method = &list[i];
                proof {
                    let next = methods.take(i + 1);
                    assert(next.drop_last() =~= methods.take(i as int));
                }
                if !str_eq(method.id(), target_item.id()) && fn_dependency_on_target(
                    method,
                    target_item.name(),
                ) {
                    dependent_items.push(RustType::Function(method.clone()));
                }
                i += 1;
            }
            assert(methods.take(list.len() as int) =~= methods);
        },
        None => {},
    }
    let is_dependent = match item {
        RustType::Function(func) => fn_dependency_on_target(func, target_item.name()),
        RustType::Struct(strct) => struct_dependency_on_target(strct, target_item.name()),
        RustType::Enum(enu) => enum_dependency_on_target(enu, target_item.name()),
        RustType::Trait(_) => false,
    };
    if is_dependent {
        dependent_items.push(item.clone());
    }
    dependent_items
}

/// Finds the top-level declarations of a file that depend on the target,
/// and stores the answer in the tree. A declaration is stored whole, also
/// where only one of its methods refers to the target.
pub fn find_dependents(root_node: &mut RootNode, target_item: &RustType)
    ensures
        final(root_node)@ == (RootNodeView {
            dependents: dependents_of(old(root_node)@, target_item@),
            dependent_order: dependent_order_of(old(root_node)@, target_item@),
            ..old(root_node)@
        }),
{
    let mut dependents = Dependents::default();
    let source = root_node.file_path().real_path();
    let nodes = root_node.children();
    let ghost views = node_views(nodes@);
    let mut i: usize = 0;
    while i < nodes.len()
        invariant
            i <= nodes.len(),
            views == node_views(nodes@),
            dependents@ == record(
                Map::empty(),
                dependent_records(views, i as nat, source@, target_item@),
            ),
            dependents.id_order() == record_order(
                Seq::empty(),
                dependent_records(views, i as nat, source@, target_item@),
            ),
        decreases nodes.len() - i,
    {
        let node = &nodes[i];
        let items_found = find_identifiable_items(node.rtype(), target_item);
        proof {
            let before = dependent_records(views, i as nat, source@, target_item@);
            let step = if depends_on(node@.rtype, target_item@) {
                seq![(node@.id, NodeEntryView { node: node@, source: Some(source@) })]
            } else {
                Seq::empty()
            };
            lemma_record_concat(Map::empty(), before, step);
            lemma_record_order_concat(Seq::empty(), before, step);
            let table = record(Map::empty(), before);
            let order = record_order(Seq::empty(), before);
            if depends_on(node@.rtype, target_item@) {
                assert(record(table, step.drop_last()) == table);
                assert(record_order(order, step.drop_last()) == order);
            }
        }
        if items_found.len() > 0 {
            dependents.register_item(node.clone(), Some(source.as_str()));
        }
        i += 1;
    }
    root_node.set_dependents(dependents);
}

/// A function that uses the name of another declaration depends on it.
pub proof fn lemma_user_depends(x: RustFunctionView, target: RustTypeView)
    requires
        x.uses_list().contains(target.name()),
        x.id != target.id(),
    ensures
        depends_on(RustTypeView::Function(x), target),
{
    crate::types::rust_function::lemma_uses_list_contains(x, target.name());
}

/// A top-level declaration that depends on the target is among the
/// dependents of its file, whole and tagged with the path of the file,
/// unless a later declaration of the same identifier took its place.
pub proof fn lemma_dependents_include(root: RootNodeView, i: int, target: RustTypeView)
    requires
        0 <= i < root.children.len(),
        depends_on(root.children[i].rtype, target),
    ensures
        dependents_of(root, target).dom().contains(root.children[i].id),
        (forall|j: int|
            i < j < root.children.len() ==> (#[trigger] root.children[j]).id
                != root.children[i].id) ==> dependents_of(root, target)[root.children[i].id] == (
        NodeEntryView { node: root.children[i], source: Some(root.file_path.real_path()) }),
{
    lemma_dependent_records_include(
        root.children,
        root.children.len(),
        root.file_path.real_path(),
        target,
        i,
    );
}

/// The same for the first `n` declarations.
pub proof fn lemma_dependent_records_include(
    nodes: Seq<TreeNodeView>,
    n: nat,
    source: Seq<char>,
    target: RustTypeView,
    i: int,
)
    requires
        0 <= i < n <= nodes.len(),
        depends_on(nodes[i].rtype, target),
    ensures
        record(Map::empty(), dependent_records(nodes, n, source, target)).dom().contains(
            nodes[i].id,
        ),
        (forall|j: int| i < j < n ==> (#[trigger] nodes[j]).id != nodes[i].id) ==> record(
            Map::empty(),
            dependent_records(nodes, n, source, target),
        )[nodes[i].id] == (NodeEntryView { node: nodes[i], source: Some(source) }),
    decreases n,
{
    let before = dependent_records(nodes, (n - 1) as nat, source, target);
    let node = nodes[n - 1];
    let step = if depends_on(node.rtype, target) {
        seq![(node.id, NodeEntryView { node, source: Some(source) })]
    } else {
        Seq::empty()
    };
    lemma_record_concat(Map::empty(), before, step);
    let table = record(Map::empty(), before);
    if depends_on(node.rtype, target) {
        assert(record(table, step.drop_last()) == table);
    }
    if i < n - 1 {
        lemma_dependent_records_include(nodes, (n - 1) as nat, source, target, i);
    }
}

} // verus!
