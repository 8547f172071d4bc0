use vstd::prelude::*;
use vstd::string::*;

verus! {

/// The shape of a type as far as references to other declarations go.
#[derive(Debug, PartialEq, Eq)]
pub enum TypeShape {
    /// A path type: the identifier of its last segment, and the types among
    /// the generic arguments of that segment.
    Named { name: String, args: Vec<TypeShape> },
    /// A tuple and its members.
    Tuple(Vec<TypeShape>),
    /// Any other type; no name is read from it.
    Other,
}

/// The mathematical content of a [`TypeShape`].
pub enum TypeShapeView {
    Named { name: Seq<char>, args: Seq<TypeShapeView> },
    Tuple(Seq<TypeShapeView>),
    Other,
}

/// The views of a list of shapes.
pub open spec fn shape_views(shapes: Seq<TypeShape>) -> Seq<TypeShapeView>
    decreases shapes,
{
    Seq::new(
        shapes.len(),
        |i: int|
            if 0 <= i < shapes.len() {
                shape_view(shapes[i])
            } else {
                arbitrary()
            },
    )
}

/// The view of a shape.
pub open spec fn shape_view(shape: TypeShape) -> TypeShapeView
    decreases shape,
{
    match shape {
        TypeShape::Named { name, args } => TypeShapeView::Named {
            name: name@,
            args: shape_views(args@),
        },
        TypeShape::Tuple(members) => TypeShapeView::Tuple(shape_views(members@)),
        TypeShape::Other => TypeShapeView::Other,
    }
}

impl View for TypeShape {
    type V = TypeShapeView;

    open spec fn view(&self) -> TypeShapeView {
        shape_view(*self)
    }
}

impl DeepView for TypeShape {
    type V = TypeShapeView;

    open spec fn deep_view(&self) -> TypeShapeView {
        shape_view(*self)
    }
}

/// The type names that a list of shapes mentions, shape after shape.
pub open spec fn type_names_of_all(shapes: Seq<TypeShapeView>) -> Seq<Seq<char>>
    decreases shapes, 1int,
{
    if shapes.len() == 0 {
        Seq::empty()
    } else {
        type_names_of_all(shapes.drop_last()) + type_names(shapes.last())
    }
}

/// The type names that a shape mentions: the name of a path type, followed
/// by those of its type arguments, or those of the members of a tuple.
pub open spec fn type_names(shape: TypeShapeView) -> Seq<Seq<char>>
    decreases shape, 0int,
{
    match shape {
        TypeShapeView::Named { name, args } => seq![name] + type_names_of_all(args),
        TypeShapeView::Tuple(members) => type_names_of_all(members),
        TypeShapeView::Other => Seq::empty(),
    }
}

/// Whether a shape mentions `target`: as the name of a path type, or
/// somewhere inside its type arguments or the members of a tuple.
pub open spec fn mentions(shape: TypeShapeView, target: Seq<char>) -> bool
    decreases shape,
{
    match shape {
        TypeShapeView::Named { name, args } => name == target || exists|i: int|
            0 <= i < args.len() && mentions(#[trigger] args[i], target),
        TypeShapeView::Tuple(members) => exists|i: int|
            0 <= i < members.len() && mentions(#[trigger] members[i], target),
        TypeShapeView::Other => false,
    }
}

/// The names that a list of shapes mentions are those that its shapes
/// mention.
pub proof fn lemma_type_names_of_all(shapes: Seq<TypeShapeView>, target: Seq<char>)
    ensures
        type_names_of_all(shapes).contains(target) <==> exists|i: int|
            0 <= i < shapes.len() && mentions(#[trigger] shapes[i], target),
    decreases shapes, 1int,
{
    if shapes.len() > 0 {
        let rest = shapes.drop_last();
        let head = type_names_of_all(rest);
        let tail = type_names(shapes.last());
        lemma_type_names_of_all(rest, target);
        lemma_type_names(shapes.last(), target);
        if exists|i: int| 0 <= i < shapes.len() && mentions(#[trigger] shapes[i], target) {
            let i = choose|i: int| 0 <= i < shapes.len() && mentions(#[trigger] shapes[i], target);
            if i < shapes.len() - 1 {
                assert(mentions(rest[i], target));
                let k = choose|k: int| 0 <= k < head.len() && head[k] == target;
                assert((head + tail)[k] == target);
            } else {
                let k = choose|k: int| 0 <= k < tail.len() && tail[k] == target;
                assert((head + tail)[head.len() + k] == target);
            }
        }
    }
}

/// A shape mentions a name exactly if the name is among the type names
/// that are read from it.
pub proof fn lemma_type_names(shape: TypeShapeView, target: Seq<char>)
    ensures
        type_names(shape).contains(target) <==> mentions(shape, target),
    decreases shape, 0int,
{
    match shape {
        TypeShapeView::Named { name, args } => {
            lemma_type_names_of_all(args, target);
            let rest = type_names_of_all(args);
            let all = seq![name] + rest;
            if name == target {
                assert(all[0] == target);
            }
            if rest.contains(target) {
                let k = choose|k: int| 0 <= k < rest.len() && rest[k] == target;
                assert(all[k + 1] == target);
            }
        },
        TypeShapeView::Tuple(members) => {
            lemma_type_names_of_all(members, target);
        },
        TypeShapeView::Other => {},
    }
}

/// A copy of a list of shapes.
pub fn clone_shapes(shapes: &Vec<TypeShape>) -> (r: Vec<TypeShape>)
    ensures
        shape_views(r@) == shape_views(shapes@),
    decreases shapes,
{
    let mut out: Vec<TypeShape> = Vec::new();
    let mut i: usize = 0;
    while i < shapes.len()
        invariant
            i <= shapes.len(),
            out.len() == i,
            forall|j: int| 0 <= j < i ==> shape_view(out@[j]) == shape_view(shapes@[j]),
        decreases shapes.len() - i,
    {
        let c = clone_shape(&shapes[i]);
        out.push(c);
        i += 1;
    }
    out
}

/// A copy of a shape.
pub fn clone_shape(shape: &TypeShape) -> (r: TypeShape)
    ensures
        r@ == shape@,
    decreases shape,
{
    match shape {
        TypeShape::Named { name, args } => TypeShape::Named {
            name: name.clone(),
            args: clone_shapes(args),
        },
        TypeShape::Tuple(members) => TypeShape::Tuple(clone_shapes(members)),
        TypeShape::Other => TypeShape::Other,
    }
}

impl Clone for TypeShape {
    fn clone(&self) -> (r: Self)
        ensures
            r@ == self@,
    {
        clone_shape(self)
    }
}

/// A type as it is written, together with its shape.
#[derive(Debug, PartialEq, Eq)]
pub struct TypeRef {
    /// The type as written in the source.
    pub text: String,
    pub shape: TypeShape,
}

/// The mathematical content of a [`TypeRef`].
pub struct TypeRefView {
    pub text: Seq<char>,
    pub shape: TypeShapeView,
}

impl View for TypeRef {
    type V = TypeRefView;

    open spec fn view(&self) -> TypeRefView {
        TypeRefView { text: self.text@, shape: self.shape@ }
    }
}

impl DeepView for TypeRef {
    type V = TypeRefView;

    open spec fn deep_view(&self) -> TypeRefView {
        self@
    }
}

impl Clone for TypeRef {
    fn clone(&self) -> (r: Self)
        ensures
            r@ == self@,
    {
        TypeRef { text: self.text.clone(), shape: clone_shape(&self.shape) }
    }
}

impl TypeRef {
    /// A type written as `text`, of the shape `shape`.
    pub fn new(text: &str, shape: TypeShape) -> (r: Self)
        ensures
            r@ == (TypeRefView { text: text@, shape: shape@ }),
    {
        TypeRef { text: text.to_owned(), shape }
    }
}

/// A copy of a list of types.
pub fn clone_type_refs(types: &Vec<TypeRef>) -> (r: Vec<TypeRef>)
    ensures
        r.deep_view() == types.deep_view(),
{
    let mut out: Vec<TypeRef> = Vec::new();
    let mut i: usize = 0;
    while i < types.len()
        invariant
            i <= types.len(),
            out.len() == i,
            forall|j: int| 0 <= j < i ==> out@[j]@ == types@[j]@,
        decreases types.len() - i,
    {
        out.push(types[i].clone());
        i += 1;
    }
    out
}

} // verus!
