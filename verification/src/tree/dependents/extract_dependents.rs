use vstd::prelude::*;
use vstd::string::*;
use crate::names::contains_name;
use crate::types::rust_enum::RustEnum;
use crate::types::rust_function::RustFunction;
use crate::types::rust_struct::RustStruct;
use crate::types::type_ref::{
    lemma_type_names, mentions, shape_views, type_names, type_names_of_all, TypeShape,
};

verus! {

/// Appends to `type_names` the type names that the shapes mention, shape
/// after shape.
fn extract_type_names_of_all(shapes: &Vec<TypeShape>, type_names: &mut Vec<String>)
    ensures
        final(type_names).deep_view() == old(type_names).deep_view() + type_names_of_all(
            shape_views(shapes@),
        ),
    decreases shapes, 1int,
{
    let ghost views = shape_views(shapes@);
    let ghost start = type_names.deep_view();
    let mut i: usize = 0;
    while i < shapes.len()
        invariant
            i <= shapes.len(),
            views == shape_views(shapes@),
            type_names.deep_view() == start + type_names_of_all(views.take(i as int)),
        decreases shapes.len() - i,
    {
        proof {
            let next = views.take(i + 1);
            assert(next.drop_last() =~= views.take(i as int));
        }
        extract_type_names(&shapes[i], type_names);
        i += 1;
    }
    assert(views.take(shapes.len() as int) =~= views);
}

/// Appends to `type_names` the type names that `ty` mentions: the name of
/// a path type and, in turn, those of its type arguments; those of the
/// members of a tuple; nothing for any other type.
pub fn extract_type_names(ty: &TypeShape, type_names: &mut Vec<String>)
    ensures
        final(type_names).deep_view() == old(type_names).deep_view() + crate::types::type_ref::type_names(
            ty@,
        ),
    decreases ty, 0int,
{
    match ty {
        TypeShape::Named { name, args } => {
            type_names.push(name.clone());
            extract_type_names_of_all(args, type_names);
        },
        TypeShape::Tuple(members) => {
            extract_type_names_of_all(members, type_names);
        },
        TypeShape::Other => {},
    }
}

/// Whether `ty` mentions `target_name`: whether the name is among the type
/// names that are read from `ty`.
fn shape_mentions(ty: &TypeShape, target_name: &str) -> (r: bool)
    ensures
        r == mentions(ty@, target_name@),
{
    let mut names: Vec<String> = Vec::new();
    extract_type_names(ty, &mut names);
    proof {
        lemma_type_names(ty@, target_name@);
    }
    contains_name(&names, target_name)
}

/// Whether the function calls or instantiates `target_name`.
pub fn fn_dependency_on_target(func: &RustFunction, target_name: &str) -> (r: bool)
    ensures
        r == func@.uses(target_name@),
{
    func.uses_name(target_name)
}

/// Whether the type of a field of some variant of the enum mentions
/// `target_name`.
pub fn enum_dependency_on_target(enu: &RustEnum, target_name: &str) -> (r: bool)
    ensures
        r == enu@.mentions_type(target_name@),
{
    let variants = enu.variants();
    let ghost views = enu@.variants;
    let mut i: usize = 0;
    while i < variants.len()
        invariant
            i <= variants.len(),
            variants.deep_view() == views,
            views == enu@.variants,
            forall|a: int, b: int|
                0 <= a < i && 0 <= b < views[a].1.len() ==> !mentions(
                    (#[trigger] views[a].1[b]).shape,
                    target_name@,
                ),
        decreases variants.len() - i,
    {
        let fields = &variants[i].1;
        let mut j: usize = 0;
        while j < fields.len()
            invariant
                j <= fields.len(),
                i < variants.len(),
                variants.deep_view() == views,
                views == enu@.variants,
                fields.deep_view() == views[i as int].1,
                forall|a: int, b: int|
                    0 <= a < i && 0 <= b < views[a].1.len() ==> !mentions(
                        (#[trigger] views[a].1[b]).shape,
                        target_name@,
                    ),
                forall|b: int|
                    0 <= b < j ==> !mentions((#[trigger] views[i as int].1[b]).shape, target_name@),
            decreases fields.len() - j,
        {
            assert(fields@[j as int]@ == views[i as int].1[j as int]);
            if shape_mentions(&fields[j].shape, target_name) {
                return true;
            }
            j += 1;
        }
        i += 1;
    }
    false
}

/// Whether the type of some field of the struct mentions `target_name`.
pub fn struct_dependency_on_target(strct: &RustStruct, target_name: &str) -> (r: bool)
    ensures
        r == strct@.mentions_type(target_name@),
{
    match strct.fields() {
        None => false,
        Some(fields) => {
            let ghost views = strct@.field_list();
            let mut i: usize = 0;
            while i < fields.len()
                invariant
                    i <= fields.len(),
                    fields.deep_view() == views,
                    views == strct@.field_list(),
                    forall|a: int|
                        0 <= a < i ==> !mentions((#[trigger] views[a]).1.shape, target_name@),
                decreases fields.len() - i,
            {
                assert(fields@[i as int].1@ == views[i as int].1);
                if shape_mentions(&fields[i].1.shape, target_name) {
                    return true;
                }
                i += 1;
            }
            false
        },
    }
}

} // verus!
