use vstd::prelude::*;
use vstd::string::*;
use crate::helpers::{generate_id, id_of};
use super::rust_function::{clone_functions, RustFunction, RustFunctionView};
use super::type_ref::{clone_type_refs, mentions, TypeRef, TypeRefView};
use crate::text::{concat_all, concat_strings, join_strings, join_with};
use super::rust_struct::{methods_str, methods_text};
use super::visibility::Visibility;

verus! {

/// An enum with its variants, each with the types of its fields, and the
/// methods of its impl blocks.
#[derive(Debug, PartialEq, Eq)]
pub struct RustEnum {
    pub id: String,
    pub visibility: Visibility,
    pub name: String,
    pub variants: Vec<(String, Vec<TypeRef>)>,
    pub methods: Option<Vec<RustFunction>>,
}

/// The mathematical content of a [`RustEnum`].
pub struct RustEnumView {
    pub id: Seq<char>,
    pub visibility: Visibility,
    pub name: Seq<char>,
    pub variants: Seq<(Seq<char>, Seq<TypeRefView>)>,
    pub methods: Option<Seq<RustFunctionView>>,
}

impl RustEnumView {
    /// The methods, none where none were given.
    pub open spec fn method_list(self) -> Seq<RustFunctionView> {
        match self.methods {
            Some(methods) => methods,
            None => Seq::empty(),
        }
    }

    /// The enum with its variants as text.
    pub open spec fn base_block_text(self) -> Seq<char> {
        self.visibility.prefix() + "enum "@ + self.name + " {\n"@ + concat_all(
            Seq::new(self.variants.len(), |i: int| variant_text(self.variants[i])),
        ) + "}\n"@
    }

    /// The methods as the text of an impl block; nothing where no methods
    /// were given. `source` holds the lines of the file of the enum.
    pub open spec fn impl_block_text(self, source: Option<Seq<Seq<char>>>) -> Seq<char> {
        match self.methods {
            None => Seq::empty(),
            Some(methods) => "impl "@ + self.name + " {\n"@ + methods_text(methods, source)
                + "}\n"@,
        }
    }

    /// The enum as text: its variants, then its methods.
    pub open spec fn block_text(self, source: Option<Seq<Seq<char>>>) -> Seq<char> {
        self.base_block_text() + self.impl_block_text(source)
    }

    /// Whether the type of some field of some variant mentions `target`.
    pub open spec fn mentions_type(self, target: Seq<char>) -> bool {
        exists|i: int, j: int|
            0 <= i < self.variants.len() && 0 <= j < self.variants[i].1.len() && mentions(
                (#[trigger] self.variants[i].1[j]).shape,
                target,
            )
    }
}

/// A variant as a line of text: its name, and in round brackets the types
/// of its fields, if it has any.
pub open spec fn variant_text(variant: (Seq<char>, Seq<TypeRefView>)) -> Seq<char> {
    "    "@ + variant.0 + (if variant.1.len() == 0 {
        Seq::empty()
    } else {
        "("@ + join_with(Seq::new(variant.1.len(), |j: int| variant.1[j].text), ", "@) + ")"@
    }) + ",\n"@
}

/// A variant as a line of text.
fn variant_str(variant: &(String, Vec<TypeRef>)) -> (text: String)
    ensures
        text@ == variant_text(variant.deep_view()),
{
    let mut text = "    ".to_owned();
    text.append(variant.0.as_str());
    if variant.1.len() > 0 {
        let mut types: Vec<String> = Vec::new();
        let mut j: usize = 0;
        while j < variant.1.len()
            invariant
                j <= variant.1.len(),
                types.deep_view() =~= Seq::new(j as nat, |k: int| variant.1.deep_view()[k].text),
            decreases variant.1.len() - j,
        {
            let ghost before = types.deep_view();
            types.push(variant.1[j].text.clone());
            assert(types.deep_view() =~= before.push(variant.1@[j as int].text@));
            j += 1;
        }
        text.append("(");
        text.append(join_strings(&types, ", ").as_str());
        text.append(")");
    }
    text.append(",\n");
    text
}

impl View for RustEnum {
    type V = RustEnumView;

    open spec fn view(&self) -> RustEnumView {
        RustEnumView {
            id: self.id@,
            visibility: self.visibility,
            name: self.name@,
            variants: self.variants.deep_view(),
            methods: self.methods.deep_view(),
        }
    }
}

impl DeepView for RustEnum {
    type V = RustEnumView;

    open spec fn deep_view(&self) -> RustEnumView {
        self@
    }
}

/// A copy of a list of variants.
pub fn clone_variants(variants: &Vec<(String, Vec<TypeRef>)>) -> (r: Vec<(String, Vec<TypeRef>)>)
    ensures
        r.deep_view() == variants.deep_view(),
{
    let mut out: Vec<(String, Vec<TypeRef>)> = Vec::new();
    let mut i: usize = 0;
    while i < variants.len()
        invariant
            i <= variants.len(),
            out.len() == i,
            forall|j: int| 0 <= j < i ==> out@[j].deep_view() == variants@[j].deep_view(),
        decreases variants.len() - i,
    {
        out.push((variants[i].0.clone(), clone_type_refs(&variants[i].1)));
        i += 1;
    }
    out
}

impl Clone for RustEnum {
    fn clone(&self) -> (r: Self)
        ensures
            r@ == self@,
    {
        RustEnum {
            id: self.id.clone(),
            visibility: self.visibility,
            name: self.name.clone(),
            variants: clone_variants(&self.variants),
            methods: match &self.methods {
                Some(m) => Some(clone_functions(m)),
                None => None,
            },
        }
    }
}

impl RustEnum {
    /// An enum without methods. Its identifier follows from its name.
    pub fn new_with_data(
        name: String,
        visibility: Visibility,
        variants: Vec<(String, Vec<TypeRef>)>,
    ) -> (r: Self)
        ensures
            r@ == (RustEnumView {
                id: id_of(name@),
                visibility,
                name: name@,
                variants: variants.deep_view(),
                methods: None,
            }),
    {
        RustEnum { id: generate_id(name.as_str()), name, visibility, variants, methods: None }
    }

    pub fn id(&self) -> (r: &str)
        ensures
            r@ == self@.id,
    {
        self.id.as_str()
    }

    pub fn name(&self) -> (r: &str)
        ensures
            r@ == self@.name,
    {
        self.name.as_str()
    }

    pub fn visibility(&self) -> (r: &Visibility)
        ensures
            *r == self@.visibility,
    {
        &self.visibility
    }

    pub fn variants(&self) -> (r: &Vec<(String, Vec<TypeRef>)>)
        ensures
            r.deep_view() == self@.variants,
    {
        &self.variants
    }

    pub fn methods(&self) -> (r: Option<&Vec<RustFunction>>)
        ensures
            r.deep_view() == self@.methods,
    {
        self.methods.as_ref()
    }

    /// The enum with its variants as text.
    pub fn enum_base_block_str(&self) -> (text: String)
        ensures
            text@ == self@.base_block_text(),
    {
        let mut parts: Vec<String> = Vec::new();
        let mut i: usize = 0;
        while i < self.variants.len()
            invariant
                i <= self.variants.len(),
                parts.deep_view() =~= Seq::new(i as nat, |k: int| variant_text(self@.variants[k])),
            decreases self.variants.len() - i,
        {
            let part = variant_str(&self.variants[i]);
            let ghost before = parts.deep_view();
            parts.push(part);
            assert(parts.deep_view() =~= before.push(part@));
            i += 1;
        }
        let mut text = self.visibility.prefix_str();
        text.append("enum ");
        text.append(self.name.as_str());
        text.append(" {\n");
        text.append(concat_strings(&parts).as_str());
        text.append("}\n");
        text
    }

    /// The methods as the text of an impl block. `source` holds the lines of
    /// the file of the enum.
    pub fn enum_impl_block_str(&self, source: Option<&Vec<String>>) -> (text: String)
        ensures
            text@ == self@.impl_block_text(source.deep_view()),
    {
        match &self.methods {
            None => String::new(),
            Some(methods) => {
                let mut text = "impl ".to_owned();
                text.append(self.name.as_str());
                text.append(" {\n");
                text.append(methods_str(methods, source).as_str());
                text.append("}\n");
                text
            },
        }
    }

    /// The enum as text: its variants, then its methods.
    pub fn block_str(&self, source: Option<&Vec<String>>) -> (text: String)
        ensures
            text@ == self@.block_text(source.deep_view()),
    {
        let mut text = self.enum_base_block_str();
        text.append(self.enum_impl_block_str(source).as_str());
        text
    }

    /// Appends `methods` to the methods of the enum.
    pub fn add_methods(&mut self, methods: Vec<RustFunction>)
        ensures
            final(self)@ == (RustEnumView {
                methods: Some(old(self)@.method_list() + methods.deep_view()),
                ..old(self)@
            }),
    {
        let mut methods = methods;
        let ghost added = methods.deep_view();
        match &mut self.methods {
            Some(existing) => {
                let ghost before = existing.deep_view();
                existing.append(&mut methods);
                assert(existing.deep_view() =~= before + added);
            },
            None => {
                self.methods = Some(methods);
            },
        }
    }
}

} // verus!
