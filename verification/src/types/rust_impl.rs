use vstd::prelude::*;
use vstd::string::*;
use crate::helpers::{generate_id, id_of};
use super::rust_function::{clone_functions, RustFunction, RustFunctionView};
use super::rust_struct::{methods_str, methods_text};
use super::visibility::Visibility;

verus! {

/// An impl block: the type that it is written for, and its methods.
#[derive(Debug, PartialEq, Eq)]
pub struct RustImpl {
    pub id: String,
    pub for_type: String,
    pub methods: Option<Vec<RustFunction>>,
}

/// The mathematical content of a [`RustImpl`].
pub struct RustImplView {
    pub id: Seq<char>,
    pub for_type: Seq<char>,
    pub methods: Option<Seq<RustFunctionView>>,
}

impl RustImplView {
    /// The methods, none where none were given.
    pub open spec fn method_list(self) -> Seq<RustFunctionView> {
        match self.methods {
            Some(methods) => methods,
            None => Seq::empty(),
        }
    }

    /// The block as text. `source` holds the lines of the file of the block.
    pub open spec fn block_text(self, source: Option<Seq<Seq<char>>>) -> Seq<char> {
        "impl "@ + self.for_type + " {\n"@ + methods_text(self.method_list(), source) + "\n}"@
    }
}

impl View for RustImpl {
    type V = RustImplView;

    open spec fn view(&self) -> RustImplView {
        RustImplView { id: self.id@, for_type: self.for_type@, methods: self.methods.deep_view() }
    }
}

impl DeepView for RustImpl {
    type V = RustImplView;

    open spec fn deep_view(&self) -> RustImplView {
        self@
    }
}

impl Clone for RustImpl {
    fn clone(&self) -> (r: Self)
        ensures
            r@ == self@,
    {
        RustImpl {
            id: self.id.clone(),
            for_type: self.for_type.clone(),
            methods: match &self.methods {
                Some(m) => Some(clone_functions(m)),
                None => None,
            },
        }
    }
}

impl RustImpl {
    /// An impl block for the type written as `for_type`.
    pub fn new_with_data(for_type: String, methods: Vec<RustFunction>) -> (r: Self)
        ensures
            r@ == (RustImplView {
                id: id_of(for_type@),
                for_type: for_type@,
                methods: Some(methods.deep_view()),
            }),
    {
        RustImpl { id: generate_id(for_type.as_str()), for_type, methods: Some(methods) }
    }

    pub fn id(&self) -> (r: &str)
        ensures
            r@ == self@.id,
    {
        self.id.as_str()
    }

    /// The name of the type that the block is written for.
    pub fn name(&self) -> (r: &str)
        ensures
            r@ == self@.for_type,
    {
        self.for_type.as_str()
    }

    /// The block as text. `source` holds the lines of the file of the block.
    pub fn block_str(&self, source: Option<&Vec<String>>) -> (text: String)
        ensures
            text@ == self@.block_text(source.deep_view()),
    {
        let mut text = "impl ".to_owned();
        text.append(self.for_type.as_str());
        text.append(" {\n");
        match &self.methods {
            Some(methods) => {
                text.append(methods_str(methods, source).as_str());
            },
            None => {
                let none: Vec<RustFunction> = Vec::new();
                text.append(methods_str(&none, source).as_str());
            },
        }
        text.append("\n}");
        text
    }

    /// An impl block is taken to be public.
    pub fn visibility(&self) -> (r: Visibility)
        ensures
            r == Visibility::Public,
    {
        Visibility::Public
    }
}

} // verus!
