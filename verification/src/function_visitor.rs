//! What is gathered while the body of a function is walked.

use vstd::prelude::*;
use vstd::string::*;
use crate::names::{insert_name, lemma_merge_one, merge_names};
use crate::types::rust_function::{
    FunctionBody, FunctionBodyView, LineColumn, RustFunction, RustFunctionView,
};
use crate::types::visibility::Visibility;

verus! {

/// Gathers the names that a body calls or instantiates. The walker of the
/// body reports each call and each struct expression with the segments of
/// its path.
#[derive(Debug, PartialEq, Eq)]
pub struct FunctionCallVisitor {
    /// The functions that are called, call after call.
    pub functions: Vec<RustFunction>,
    /// The names that are called or instantiated, each once, in the order
    /// in which they first occur.
    pub instantiated_items: Vec<String>,
}

/// The mathematical content of a [`FunctionCallVisitor`].
pub struct FunctionCallVisitorView {
    pub functions: Seq<RustFunctionView>,
    pub instantiated_items: Seq<Seq<char>>,
}

/// A function of which only the name is known, as a call gives it.
pub open spec fn called_function(name: Seq<char>) -> RustFunctionView {
    RustFunctionView {
        id: crate::helpers::id_of(name),
        name,
        visibility: Visibility::Restricted,
        inputs: Seq::empty(),
        output: None,
        file_path: None,
        block: None,
        instantiated_items: Seq::empty(),
    }
}

impl View for FunctionCallVisitor {
    type V = FunctionCallVisitorView;

    open spec fn view(&self) -> FunctionCallVisitorView {
        FunctionCallVisitorView {
            functions: self.functions.deep_view(),
            instantiated_items: self.instantiated_items.deep_view(),
        }
    }
}

impl Default for FunctionCallVisitor {
    fn default() -> (r: Self)
        ensures
            r@ == (FunctionCallVisitorView {
                functions: Seq::empty(),
                instantiated_items: Seq::empty(),
            }),
    {
        let r = FunctionCallVisitor { functions: Vec::new(), instantiated_items: Vec::new() };
        assert(r.functions.deep_view() =~= Seq::<RustFunctionView>::empty());
        assert(r.instantiated_items.deep_view() =~= Seq::<Seq<char>>::empty());
        r
    }
}

impl FunctionCallVisitor {
    /// A call of the function at `callee_path`: the last segment is the
    /// name that is called. A call of anything but a path is reported with
    /// no segments and gathers nothing.
    pub fn visit_expr_call(&mut self, callee_path: &Vec<String>)
        ensures
            old(self)@.instantiated_items.no_duplicates() ==> final(self)@.instantiated_items.no_duplicates(),
            callee_path.len() == 0 ==> final(self)@ == old(self)@,
            callee_path.len() > 0 ==> final(self)@ == (FunctionCallVisitorView {
                functions: old(self)@.functions.push(
                    called_function(callee_path.deep_view().last()),
                ),
                instantiated_items: merge_names(
                    old(self)@.instantiated_items,
                    seq![callee_path.deep_view().last()],
                ),
            }),
    {
        if callee_path.len() > 0 {
            let function_name = callee_path[callee_path.len() - 1].as_str();
            proof {
                lemma_merge_one(self.instantiated_items.deep_view(), function_name@);
            }
            insert_name(&mut self.instantiated_items, function_name);
            let called = RustFunction::new(Visibility::Restricted, function_name);
            self.functions.push(called);
            assert(self.functions.deep_view() =~= old(self).functions.deep_view().push(called@));
        }
    }

    /// A struct expression for the struct at `struct_path`: the first
    /// segment is the name that is instantiated.
    pub fn visit_expr_struct(&mut self, struct_path: &Vec<String>)
        ensures
            old(self)@.instantiated_items.no_duplicates() ==> final(self)@.instantiated_items.no_duplicates(),
            struct_path.len() == 0 ==> final(self)@ == old(self)@,
            struct_path.len() > 0 ==> final(self)@ == (FunctionCallVisitorView {
                instantiated_items: merge_names(
                    old(self)@.instantiated_items,
                    seq![struct_path.deep_view().first()],
                ),
                ..old(self)@
            }),
    {
        if struct_path.len() > 0 {
            let struct_name = struct_path[0].as_str();
            proof {
                lemma_merge_one(self.instantiated_items.deep_view(), struct_name@);
            }
            insert_name(&mut self.instantiated_items, struct_name);
        }
    }

    /// What was gathered, as the body that stands between `start` and
    /// `end`.
    pub fn into_body(self, start: LineColumn, end: LineColumn) -> (body: FunctionBody)
        ensures
            body@ == (FunctionBodyView { names: self@.instantiated_items, start, end }),
    {
        FunctionBody::new(self.instantiated_items, start, end)
    }
}

/// Gathers the names that stand alone as an expression.
#[derive(Debug, PartialEq, Eq)]
pub struct ItemNameVisitor {
    /// The names, each once, in the order in which they first occur.
    pub item_names: Vec<String>,
}

impl View for ItemNameVisitor {
    type V = Seq<Seq<char>>;

    open spec fn view(&self) -> Seq<Seq<char>> {
        self.item_names.deep_view()
    }
}

impl ItemNameVisitor {
    /// A visitor that has gathered nothing.
    pub fn new() -> (r: Self)
        ensures
            r@ == Seq::<Seq<char>>::empty(),
    {
        let r = ItemNameVisitor { item_names: Vec::new() };
        r
    }

    /// A path expression. `ident` is the path where it is one plain
    /// identifier, and nothing otherwise.
    pub fn visit_expr_path(&mut self, ident: Option<&str>)
        ensures
            old(self)@.no_duplicates() ==> final(self)@.no_duplicates(),
            final(self)@ == match ident.deep_view() {
                Some(name) => merge_names(old(self)@, seq![name]),
                None => old(self)@,
            },
    {
        match ident {
            Some(name) => {
                proof {
                    lemma_merge_one(self.item_names.deep_view(), name@);
                }
                insert_name(&mut self.item_names, name);
            },
            None => {},
        }
    }
}

} // verus!
