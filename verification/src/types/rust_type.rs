use vstd::prelude::*;
use vstd::string::*;
use super::rust_enum::{RustEnum, RustEnumView};
use super::rust_function::{RustFunction, RustFunctionView};
use super::rust_struct::{RustStruct, RustStructView};
use super::rust_trait::{RustTrait, RustTraitView};
use super::visibility::Visibility;

verus! {

/// A declaration of any kind.
#[derive(Debug, PartialEq, Eq)]
pub enum RustType {
    Function(RustFunction),
    Struct(RustStruct),
    Enum(RustEnum),
    Trait(RustTrait),
}

/// The mathematical content of a [`RustType`].
pub enum RustTypeView {
    Function(RustFunctionView),
    Struct(RustStructView),
    Enum(RustEnumView),
    Trait(RustTraitView),
}

impl RustTypeView {
    pub open spec fn id(self) -> Seq<char> {
        match self {
            RustTypeView::Function(f) => f.id,
            RustTypeView::Struct(s) => s.id,
            RustTypeView::Enum(e) => e.id,
            RustTypeView::Trait(t) => t.id,
        }
    }

    pub open spec fn name(self) -> Seq<char> {
        match self {
            RustTypeView::Function(f) => f.name,
            RustTypeView::Struct(s) => s.name,
            RustTypeView::Enum(e) => e.name,
            RustTypeView::Trait(t) => t.name,
        }
    }

    pub open spec fn visibility(self) -> Visibility {
        match self {
            RustTypeView::Function(f) => f.visibility,
            RustTypeView::Struct(s) => s.visibility,
            RustTypeView::Enum(e) => e.visibility,
            RustTypeView::Trait(t) => t.visibility,
        }
    }

    pub open spec fn is_public(self) -> bool {
        self.visibility() == Visibility::Public
    }

    /// The methods of a type; a function has none.
    pub open spec fn methods(self) -> Option<Seq<RustFunctionView>> {
        match self {
            RustTypeView::Function(_) => None,
            RustTypeView::Struct(s) => s.methods,
            RustTypeView::Enum(e) => e.methods,
            RustTypeView::Trait(t) => t.methods,
        }
    }

    /// The methods, none where none were given.
    pub open spec fn method_list(self) -> Seq<RustFunctionView> {
        match self.methods() {
            Some(methods) => methods,
            None => Seq::empty(),
        }
    }

    /// The declaration as text. `source` holds the lines of its file.
    pub open spec fn block_text(self, source: Option<Seq<Seq<char>>>) -> Seq<char> {
        match self {
            RustTypeView::Function(f) => f.block_text(source),
            RustTypeView::Struct(s) => s.block_text(source),
            RustTypeView::Enum(e) => e.block_text(source),
            RustTypeView::Trait(t) => t.block_text(source),
        }
    }
}

impl View for RustType {
    type V = RustTypeView;

    open spec fn view(&self) -> RustTypeView {
        match *self {
            RustType::Function(f) => RustTypeView::Function(f@),
            RustType::Struct(s) => RustTypeView::Struct(s@),
            RustType::Enum(e) => RustTypeView::Enum(e@),
            RustType::Trait(t) => RustTypeView::Trait(t@),
        }
    }
}

impl DeepView for RustType {
    type V = RustTypeView;

    open spec fn deep_view(&self) -> RustTypeView {
        self@
    }
}

impl Clone for RustType {
    fn clone(&self) -> (r: Self)
        ensures
            r@ == self@,
    {
        match self {
            RustType::Function(f) => RustType::Function(f.clone()),
            RustType::Struct(s) => RustType::Struct(s.clone()),
            RustType::Enum(e) => RustType::Enum(e.clone()),
            RustType::Trait(t) => RustType::Trait(t.clone()),
        }
    }
}

impl RustType {
    pub fn id(&self) -> (r: &str)
        ensures
            r@ == self@.id(),
    {
        match self {
            RustType::Function(f) => f.id(),
            RustType::Struct(s) => s.id(),
            RustType::Enum(e) => e.id(),
            RustType::Trait(t) => t.id(),
        }
    }

    pub fn name(&self) -> (r: &str)
        ensures
            r@ == self@.name(),
    {
        match self {
            RustType::Function(f) => f.name(),
            RustType::Struct(s) => s.name(),
            RustType::Enum(e) => e.name(),
            RustType::Trait(t) => t.name(),
        }
    }

    pub fn visibility(&self) -> (r: &Visibility)
        ensures
            *r == self@.visibility(),
    {
        match self {
            RustType::Function(f) => f.visibility(),
            RustType::Struct(s) => s.visibility(),
            RustType::Enum(e) => e.visibility(),
            RustType::Trait(t) => t.visibility(),
        }
    }

    pub fn is_public(&self) -> (r: bool)
        ensures
            r == self@.is_public(),
    {
        match self.visibility() {
            Visibility::Public => true,
            _ => false,
        }
    }

    /// The methods of a type; a function has none.
    pub fn methods(&self) -> (r: Option<&Vec<RustFunction>>)
        ensures
            r.deep_view() == self@.methods(),
    {
        match self {
            RustType::Function(_) => None,
            RustType::Struct(s) => s.methods(),
            RustType::Enum(e) => e.methods(),
            RustType::Trait(t) => t.methods(),
        }
    }

    /// The declaration as text. `source` holds the lines of its file.
    pub fn block_str(&self, source: Option<&Vec<String>>) -> (text: String)
        ensures
            text@ == self@.block_text(source.deep_view()),
    {
        match self {
            RustType::Function(f) => f.function_block_str(source),
            RustType::Struct(s) => s.block_str(source),
            RustType::Enum(e) => e.block_str(source),
            RustType::Trait(t) => t.trait_block_str(source),
        }
    }

    /// The declaration itself.
    pub fn as_rust_type(&self) -> (r: Option<&RustType>)
        ensures
            r == Some(self),
    {
        Some(self)
    }
}

} // verus!
