use vstd::prelude::*;
use vstd::string::*;
use super::rust_function::{clone_functions, RustFunction, RustFunctionView};
use super::type_ref::{mentions, TypeRef, TypeRefView};
use crate::text::{concat_all, concat_strings};
use super::visibility::Visibility;

verus! {

/// A struct with its named fields and the methods of its impl blocks.
#[derive(Debug, PartialEq, Eq)]
pub struct RustStruct {
    pub id: String,
    pub name: String,
    pub visibility: Visibility,
    pub fields: Option<Vec<(String, TypeRef)>>,
    pub methods: Option<Vec<RustFunction>>,
}

/// The mathematical content of a [`RustStruct`].
pub struct RustStructView {
    pub id: Seq<char>,
    pub name: Seq<char>,
    pub visibility: Visibility,
    pub fields: Option<Seq<(Seq<char>, TypeRefView)>>,
    pub methods: Option<Seq<RustFunctionView>>,
}

impl RustStructView {
    /// The fields, none where none were given.
    pub open spec fn field_list(self) -> Seq<(Seq<char>, TypeRefView)> {
        match self.fields {
            Some(fields) => fields,
            None => Seq::empty(),
        }
    }

    /// The methods, none where none were given.
    pub open spec fn method_list(self) -> Seq<RustFunctionView> {
        match self.methods {
            Some(methods) => methods,
            None => Seq::empty(),
        }
    }

    /// The struct with its fields as text.
    pub open spec fn base_block_text(self) -> Seq<char> {
        self.visibility.prefix() + "struct "@ + self.name + " {\n"@ + concat_all(
            Seq::new(self.field_list().len(), |i: int| field_text(self.field_list()[i])),
        ) + "}\n"@
    }

    /// The methods as the text of an impl block; nothing where no methods
    /// were given. `source` holds the lines of the file of the struct.
    pub open spec fn impl_block_text(self, source: Option<Seq<Seq<char>>>) -> Seq<char> {
        match self.methods {
            None => Seq::empty(),
            Some(methods) => "impl "@ + self.name + " {\n"@ + methods_text(methods, source)
                + "}\n"@,
        }
    }

    /// The struct as text: its fields, then its methods.
    pub open spec fn block_text(self, source: Option<Seq<Seq<char>>>) -> Seq<char> {
        self.base_block_text() + self.impl_block_text(source)
    }

    /// Whether the type of some field mentions `target`.
    pub open spec fn mentions_type(self, target: Seq<char>) -> bool {
        exists|i: int|
            0 <= i < self.field_list().len() && mentions(
                (#[trigger] self.field_list()[i]).1.shape,
                target,
            )
    }
}

/// A field as a line of text.
pub open spec fn field_text(field: (Seq<char>, TypeRefView)) -> Seq<char> {
    "    "@ + field.0 + ": "@ + field.1.text + ",\n"@
}

/// The methods as text, each followed by a line feed.
pub open spec fn methods_text(methods: Seq<RustFunctionView>, source: Option<Seq<Seq<char>>>) -> Seq<
    char,
> {
    concat_all(Seq::new(methods.len(), |i: int| methods[i].block_text(source) + "\n"@))
}

/// The methods as text, each followed by a line feed.
pub fn methods_str(methods: &Vec<RustFunction>, source: Option<&Vec<String>>) -> (text: String)
    ensures
        text@ == methods_text(methods.deep_view(), source.deep_view()),
{
    let mut parts: Vec<String> = Vec::new();
    let mut i: usize = 0;
    while i < methods.len()
        invariant
            i <= methods.len(),
            parts.deep_view() =~= Seq::new(
                i as nat,
                |k: int| methods.deep_view()[k].block_text(source.deep_view()) + "\n"@,
            ),
        decreases methods.len() - i,
    {
        let mut part = methods[i].function_block_str(source);
        part.append("\n");
        let ghost before = parts.deep_view();
        parts.push(part);
        assert(parts.deep_view() =~= before.push(part@));
        i += 1;
    }
    concat_strings(&parts)
}

impl View for RustStruct {
    type V = RustStructView;

    open spec fn view(&self) -> RustStructView {
        RustStructView {
            id: self.id@,
            name: self.name@,
            visibility: self.visibility,
            fields: self.fields.deep_view(),
            methods: self.methods.deep_view(),
        }
    }
}

impl DeepView for RustStruct {
    type V = RustStructView;

    open spec fn deep_view(&self) -> RustStructView {
        self@
    }
}

/// A copy of a list of fields.
pub fn clone_fields(fields: &Vec<(String, TypeRef)>) -> (r: Vec<(String, TypeRef)>)
    ensures
        r.deep_view() == fields.deep_view(),
{
    let mut out: Vec<(String, TypeRef)> = Vec::new();
    let mut i: usize = 0;
    while i < fields.len()
        invariant
            i <= fields.len(),
            out.len() == i,
            forall|j: int| 0 <= j < i ==> out@[j].deep_view() == fields@[j].deep_view(),
        decreases fields.len() - i,
    {
        out.push((fields[i].0.clone(), fields[i].1.clone()));
        i += 1;
    }
    out
}

impl Clone for RustStruct {
    fn clone(&self) -> (r: Self)
        ensures
            r@ == self@,
    {
        RustStruct {
            id: self.id.clone(),
            name: self.name.clone(),
            visibility: self.visibility,
            fields: match &self.fields {
                Some(f) => Some(clone_fields(f)),
                None => None,
            },
            methods: match &self.methods {
                Some(m) => Some(clone_functions(m)),
                None => None,
            },
        }
    }
}

impl RustStruct {
    /// A struct without fields and methods.
    pub fn new(id: &str, visibility: Visibility, name: &str) -> (r: Self)
        ensures
            r@ == (RustStructView {
                id: id@,
                name: name@,
                visibility,
                fields: None,
                methods: None,
            }),
    {
        RustStruct {
            id: id.to_owned(),
            name: name.to_owned(),
            visibility,
            fields: None,
            methods: None,
        }
    }

    pub fn id(&self) -> (r: &str)
        ensures
            r@ == self@.id,
    {
        self.id.as_str()
    }

    pub fn name(&self) -> (r: &str)
        ensures
            r@ == self@.name,
    {
        self.name.as_str()
    }

    pub fn visibility(&self) -> (r: &Visibility)
        ensures
            *r == self@.visibility,
    {
        &self.visibility
    }

    pub fn fields(&self) -> (r: Option<&Vec<(String, TypeRef)>>)
        ensures
            r.deep_view() == self@.fields,
    {
        self.fields.as_ref()
    }

    pub fn methods(&self) -> (r: Option<&Vec<RustFunction>>)
        ensures
            r.deep_view() == self@.methods,
    {
        self.methods.as_ref()
    }

    /// The struct with its fields as text.
    pub fn struct_base_block_str(&self) -> (text: String)
        ensures
            text@ == self@.base_block_text(),
    {
        let mut parts: Vec<String> = Vec::new();
        match &self.fields {
            Some(fields) => {
                let mut i: usize = 0;
                while i < fields.len()
                    invariant
                        i <= fields.len(),
                        parts.deep_view() =~= Seq::new(
                            i as nat,
                            |k: int| field_text(fields.deep_view()[k]),
                        ),
                    decreases fields.len() - i,
                {
                    let mut part = "    ".to_owned();
                    part.append(fields[i].0.as_str());
                    part.append(": ");
                    part.append(fields[i].1.text.as_str());
                    part.append(",\n");
                    let ghost before = parts.deep_view();
                    parts.push(part);
                    assert(parts.deep_view() =~= before.push(part@));
                    i += 1;
                }
            },
            None => {},
        }
        let mut text = self.visibility.prefix_str();
        text.append("struct ");
        text.append(self.name.as_str());
        text.append(" {\n");
        text.append(concat_strings(&parts).as_str());
        text.append("}\n");
        text
    }

    /// The methods as the text of an impl block. `source` holds the lines of
    /// the file of the struct.
    pub fn struct_impl_block_str(&self, source: Option<&Vec<String>>) -> (text: String)
        ensures
            text@ == self@.impl_block_text(source.deep_view()),
    {
        match &self.methods {
            None => String::new(),
            Some(methods) => {
                let mut text = "impl ".to_owned();
                text.append(self.name.as_str());
                text.append(" {\n");
                text.append(methods_str(methods, source).as_str());
                text.append("}\n");
                text
            },
        }
    }

    /// The struct as text: its fields, then its methods.
    pub fn block_str(&self, source: Option<&Vec<String>>) -> (text: String)
        ensures
            text@ == self@.block_text(source.deep_view()),
    {
        let mut text = self.struct_base_block_str();
        text.append(self.struct_impl_block_str(source).as_str());
        text
    }

    /// Appends `fields` to the fields of the struct.
    pub fn add_fields(&mut self, fields: Vec<(String, TypeRef)>)
        ensures
            final(self)@ == (RustStructView {
                fields: Some(old(self)@.field_list() + fields.deep_view()),
                ..old(self)@
            }),
    {
        let mut fields = fields;
        let ghost added = fields.deep_view();
        match &mut self.fields {
            Some(existing) => {
                let ghost before = existing.deep_view();
                existing.append(&mut fields);
                assert(existing.deep_view() =~= before + added);
            },
            None => {
                self.fields = Some(fields);
            },
        }
    }

    /// Appends `methods` to the methods of the struct.
    pub fn add_methods(&mut self, methods: Vec<RustFunction>)
        ensures
            final(self)@ == (RustStructView {
                methods: Some(old(self)@.method_list() + methods.deep_view()),
                ..old(self)@
            }),
    {
        let mut methods = methods;
        let ghost added = methods.deep_view();
        match &mut self.methods {
            Some(existing) => {
                let ghost before = existing.deep_view();
                existing.append(&mut methods);
                assert(existing.deep_view() =~= before + added);
            },
            None => {
                self.methods = Some(methods);
            },
        }
    }
}

} // verus!
