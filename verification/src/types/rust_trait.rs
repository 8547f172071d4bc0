use vstd::prelude::*;
use vstd::string::*;
use crate::helpers::{generate_id, id_of};
use super::rust_function::{clone_functions, RustFunction, RustFunctionView};
use crate::text::{concat_all, concat_strings};
use super::visibility::Visibility;

verus! {

/// A trait with the signatures of its methods.
#[derive(Debug, PartialEq, Eq)]
pub struct RustTrait {
    pub id: String,
    pub visibility: Visibility,
    pub name: String,
    pub methods: Option<Vec<RustFunction>>,
}

/// The mathematical content of a [`RustTrait`].
pub struct RustTraitView {
    pub id: Seq<char>,
    pub visibility: Visibility,
    pub name: Seq<char>,
    pub methods: Option<Seq<RustFunctionView>>,
}

impl RustTraitView {
    /// The methods, none where none were given.
    pub open spec fn method_list(self) -> Seq<RustFunctionView> {
        match self.methods {
            Some(methods) => methods,
            None => Seq::empty(),
        }
    }

    /// The trait with its methods as text. `source` holds the lines of the file
    /// of the trait.
    pub open spec fn block_text(self, source: Option<Seq<Seq<char>>>) -> Seq<char> {
        self.visibility.prefix() + "trait "@ + self.name + " {\n"@ + concat_all(
            Seq::new(
                self.method_list().len(),
                |i: int| "    "@ + self.method_list()[i].block_text(source),
            ),
        ) + "}\n"@
    }
}

impl View for RustTrait {
    type V = RustTraitView;

    open spec fn view(&self) -> RustTraitView {
        RustTraitView {
            id: self.id@,
            visibility: self.visibility,
            name: self.name@,
            methods: self.methods.deep_view(),
        }
    }
}

impl DeepView for RustTrait {
    type V = RustTraitView;

    open spec fn deep_view(&self) -> RustTraitView {
        self@
    }
}

impl Clone for RustTrait {
    fn clone(&self) -> (r: Self)
        ensures
            r@ == self@,
    {
        RustTrait {
            id: self.id.clone(),
            visibility: self.visibility,
            name: self.name.clone(),
            methods: match &self.methods {
                Some(m) => Some(clone_functions(m)),
                None => None,
            },
        }
    }
}

impl RustTrait {
    /// A trait with its methods. Its identifier follows from its name.
    pub fn new_with_data(name: String, visibility: Visibility, methods: Vec<RustFunction>) -> (r:
        Self)
        ensures
            r@ == (RustTraitView {
                id: id_of(name@),
                visibility,
                name: name@,
                methods: Some(methods.deep_view()),
            }),
    {
        RustTrait { id: generate_id(name.as_str()), name, visibility, methods: Some(methods) }
    }

    pub fn id(&self) -> (r: &str)
        ensures
            r@ == self@.id,
    {
        self.id.as_str()
    }

    pub fn name(&self) -> (r: &str)
        ensures
            r@ == self@.name,
    {
        self.name.as_str()
    }

    pub fn visibility(&self) -> (r: &Visibility)
        ensures
            *r == self@.visibility,
    {
        &self.visibility
    }

    /// The trait with its methods as text. `source` holds the lines of the file
    /// of the trait.
    pub fn trait_block_str(&self, source: Option<&Vec<String>>) -> (text: String)
        ensures
            text@ == self@.block_text(source.deep_view()),
    {
        let mut parts: Vec<String> = Vec::new();
        match &self.methods {
            Some(methods) => {
                let mut i: usize = 0;
                while i < methods.len()
                    invariant
                        i <= methods.len(),
                        parts.deep_view() =~= Seq::new(
                            i as nat,
                            |k: int|
                                "    "@ + methods.deep_view()[k].block_text(source.deep_view()),
                        ),
                    decreases methods.len() - i,
                {
                    let mut part = "    ".to_owned();
                    part.append(methods[i].function_block_str(source).as_str());
                    let ghost before = parts.deep_view();
                    parts.push(part);
                    assert(parts.deep_view() =~= before.push(part@));
                    i += 1;
                }
            },
            None => {},
        }
        let mut text = self.visibility.prefix_str();
        text.append("trait ");
        text.append(self.name.as_str());
        text.append(" {\n");
        text.append(concat_strings(&parts).as_str());
        text.append("}\n");
        text
    }

    pub fn methods(&self) -> (r: Option<&Vec<RustFunction>>)
        ensures
            r.deep_view() == self@.methods,
    {
        self.methods.as_ref()
    }
}

} // verus!
