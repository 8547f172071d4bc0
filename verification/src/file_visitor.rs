//! The declarations of one file, as the extractor hands them over.

use vstd::prelude::*;
use vstd::string::*;
use crate::localfs::file_path::{FilePath, FilePathView};
use crate::names::str_eq;
use crate::types::rust_enum::{RustEnum, RustEnumView};
use crate::types::rust_function::{clone_functions, RustFunction, RustFunctionView};
use crate::types::rust_impl::{RustImpl, RustImplView};
use crate::types::rust_struct::{RustStruct, RustStructView};
use crate::types::rust_trait::{RustTrait, RustTraitView};

verus! {

/// The top-level declarations of one file, in the order of the source, kind
/// by kind.
#[derive(Debug, PartialEq, Eq)]
pub struct RustFileVisitor {
    file_path: FilePath,
    pub functions: Vec<RustFunction>,
    pub structs: Vec<RustStruct>,
    pub enums: Vec<RustEnum>,
    pub traits: Vec<RustTrait>,
    pub impls: Vec<RustImpl>,
}

/// The mathematical content of a [`RustFileVisitor`].
pub struct RustFileView {
    pub file_path: FilePathView,
    pub functions: Seq<RustFunctionView>,
    pub structs: Seq<RustStructView>,
    pub enums: Seq<RustEnumView>,
    pub traits: Seq<RustTraitView>,
    pub impls: Seq<RustImplView>,
}

impl View for RustFileVisitor {
    type V = RustFileView;

    closed spec fn view(&self) -> RustFileView {
        RustFileView {
            file_path: self.file_path@,
            functions: self.functions.deep_view(),
            structs: self.structs.deep_view(),
            enums: self.enums.deep_view(),
            traits: self.traits.deep_view(),
            impls: self.impls.deep_view(),
        }
    }
}

impl DeepView for RustFileVisitor {
    type V = RustFileView;

    open spec fn deep_view(&self) -> RustFileView {
        self@
    }
}

/// The names of a list of structs.
pub open spec fn struct_names(structs: Seq<RustStructView>) -> Seq<Seq<char>> {
    Seq::new(structs.len(), |i: int| structs[i].name)
}

/// The names of a list of enums.
pub open spec fn enum_names(enums: Seq<RustEnumView>) -> Seq<Seq<char>> {
    Seq::new(enums.len(), |i: int| enums[i].name)
}

/// The structs after the methods of one impl block have gone to the first
/// struct that is called as the block's type; unchanged if there is none.
pub open spec fn attach_to_struct(
    structs: Seq<RustStructView>,
    block: RustImplView,
) -> Seq<RustStructView> {
    match struct_names(structs).index_of_first(block.for_type) {
        Some(i) => structs.update(
            i,
            RustStructView {
                methods: Some(structs[i].method_list() + block.method_list()),
                ..structs[i]
            },
        ),
        None => structs,
    }
}

/// The structs after the methods of the impl blocks have gone to them,
/// block after block.
pub open spec fn attach_to_structs(
    structs: Seq<RustStructView>,
    blocks: Seq<RustImplView>,
) -> Seq<RustStructView>
    decreases blocks.len(),
{
    if blocks.len() == 0 {
        structs
    } else {
        attach_to_struct(attach_to_structs(structs, blocks.drop_last()), blocks.last())
    }
}

/// The enums after the methods of one impl block have gone to the first
/// enum that is called as the block's type; unchanged if there is none.
pub open spec fn attach_to_enum(enums: Seq<RustEnumView>, block: RustImplView) -> Seq<
    RustEnumView,
> {
    match enum_names(enums).index_of_first(block.for_type) {
        Some(i) => enums.update(
            i,
            RustEnumView {
                methods: Some(enums[i].method_list() + block.method_list()),
                ..enums[i]
            },
        ),
        None => enums,
    }
}

/// The enums after the methods of the impl blocks have gone to them, block
/// after block.
pub open spec fn attach_to_enums(enums: Seq<RustEnumView>, blocks: Seq<RustImplView>) -> Seq<
    RustEnumView,
>
    decreases blocks.len(),
{
    if blocks.len() == 0 {
        enums
    } else {
        attach_to_enum(attach_to_enums(enums, blocks.drop_last()), blocks.last())
    }
}

/// The place of the first struct called `name`, if there is one.
pub fn find_struct(structs: &Vec<RustStruct>, name: &str) -> (r: Option<usize>)
    ensures
        r.is_some() ==> r.unwrap() < structs.len(),
        match r {
            Some(i) => struct_names(structs.deep_view()).index_of_first(name@) == Some(i as int),
            None => struct_names(structs.deep_view()).index_of_first(name@).is_none(),
        },
{
    let ghost names = struct_names(structs.deep_view());
    proof {
        names.index_of_first_ensures(name@);
    }
    let mut i: usize = 0;
    while i < structs.len()
        invariant
            i <= structs.len(),
            names == struct_names(structs.deep_view()),
            forall|j: int| 0 <= j < i ==> names[j] != name@,
        decreases structs.len() - i,
    {
        if str_eq(structs[i].name(), name) {
            proof {
                assert(names[i as int] == name@);
                names.index_of_first_ensures(name@);
            }
            return Some(i);
        }
        i += 1;
    }
    None
}

/// The place of the first enum called `name`, if there is one.
pub fn find_enum(enums: &Vec<RustEnum>, name: &str) -> (r: Option<usize>)
    ensures
        r.is_some() ==> r.unwrap() < enums.len(),
        match r {
            Some(i) => enum_names(enums.deep_view()).index_of_first(name@) == Some(i as int),
            None => enum_names(enums.deep_view()).index_of_first(name@).is_none(),
        },
{
    let ghost names = enum_names(enums.deep_view());
    proof {
        names.index_of_first_ensures(name@);
    }
    let mut i: usize = 0;
    while i < enums.len()
        invariant
            i <= enums.len(),
            names == enum_names(enums.deep_view()),
            forall|j: int| 0 <= j < i ==> names[j] != name@,
        decreases enums.len() - i,
    {
        if str_eq(enums[i].name(), name) {
            proof {
                assert(names[i as int] == name@);
                names.index_of_first_ensures(name@);
            }
            return Some(i);
        }
        i += 1;
    }
    None
}

/// A copy of the methods of an impl block, none where it has none.
fn methods_of(block: &RustImpl) -> (r: Vec<RustFunction>)
    ensures
        r.deep_view() == block@.method_list(),
{
    match &block.methods {
        Some(methods) => clone_functions(methods),
        None => {
            let r: Vec<RustFunction> = Vec::new();
            r
        },
    }
}

impl RustFileVisitor {
    /// The declarations of `file_path`, none so far.
    pub fn new(file_path: FilePath) -> (r: Self)
        ensures
            r@ == (RustFileView {
                file_path: file_path@,
                functions: Seq::empty(),
                structs: Seq::empty(),
                enums: Seq::empty(),
                traits: Seq::empty(),
                impls: Seq::empty(),
            }),
    {
        let r = RustFileVisitor {
            file_path,
            functions: Vec::new(),
            structs: Vec::new(),
            enums: Vec::new(),
            traits: Vec::new(),
            impls: Vec::new(),
        };
        assert(r.functions.deep_view() =~= Seq::empty());
        assert(r.structs.deep_view() =~= Seq::empty());
        assert(r.enums.deep_view() =~= Seq::empty());
        assert(r.traits.deep_view() =~= Seq::empty());
        assert(r.impls.deep_view() =~= Seq::empty());
        r
    }

    pub fn file_path(&self) -> (r: &FilePath)
        ensures
            r@ == self@.file_path,
    {
        &self.file_path
    }

    pub fn functions(&self) -> (r: &Vec<RustFunction>)
        ensures
            r.deep_view() == self@.functions,
    {
        &self.functions
    }

    pub fn structs(&self) -> (r: &Vec<RustStruct>)
        ensures
            r.deep_view() == self@.structs,
    {
        &self.structs
    }

    pub fn enums(&self) -> (r: &Vec<RustEnum>)
        ensures
            r.deep_view() == self@.enums,
    {
        &self.enums
    }

    pub fn traits(&self) -> (r: &Vec<RustTrait>)
        ensures
            r.deep_view() == self@.traits,
    {
        &self.traits
    }

    pub fn impls(&self) -> (r: &Vec<RustImpl>)
        ensures
            r.deep_view() == self@.impls,
    {
        &self.impls
    }

    pub fn add_function(&mut self, function: RustFunction)
        ensures
            final(self)@ == (RustFileView {
                functions: old(self)@.functions.push(function@),
                ..old(self)@
            }),
    {
        self.functions.push(function);
        assert(self.functions.deep_view() =~= old(self).functions.deep_view().push(function@));
    }

    pub fn add_struct(&mut self, rust_struct: RustStruct)
        ensures
            final(self)@ == (RustFileView {
                structs: old(self)@.structs.push(rust_struct@),
                ..old(self)@
            }),
    {
        self.structs.push(rust_struct);
        assert(self.structs.deep_view() =~= old(self).structs.deep_view().push(rust_struct@));
    }

    pub fn add_enum(&mut self, rust_enum: RustEnum)
        ensures
            final(self)@ == (RustFileView {
                enums: old(self)@.enums.push(rust_enum@),
                ..old(self)@
            }),
    {
        self.enums.push(rust_enum);
        assert(self.enums.deep_view() =~= old(self).enums.deep_view().push(rust_enum@));
    }

    pub fn add_trait(&mut self, rust_trait: RustTrait)
        ensures
            final(self)@ == (RustFileView {
                traits: old(self)@.traits.push(rust_trait@),
                ..old(self)@
            }),
    {
        self.traits.push(rust_trait);
        assert(self.traits.deep_view() =~= old(self).traits.deep_view().push(rust_trait@));
    }

    pub fn add_impl(&mut self, rust_impl: RustImpl)
        ensures
            final(self)@ == (RustFileView {
                impls: old(self)@.impls.push(rust_impl@),
                ..old(self)@
            }),
    {
        self.impls.push(rust_impl);
        assert(self.impls.deep_view() =~= old(self).impls.deep_view().push(rust_impl@));
    }

    /// Hands the methods of each impl block to the struct that the block is
    /// written for.
    pub fn associate_methods_with_structs(&mut self)
        ensures
            final(self)@ == (RustFileView {
                structs: attach_to_structs(old(self)@.structs, old(self)@.impls),
                ..old(self)@
            }),
    {
        let ghost structs = self.structs.deep_view();
        let ghost blocks = self.impls.deep_view();
        let mut i: usize = 0;
        while i < self.impls.len()
            invariant
                i <= self.impls.len(),
                self.impls == old(self).impls,
                self.file_path == old(self).file_path,
                self.functions == old(self).functions,
                self.enums == old(self).enums,
                self.traits == old(self).traits,
                blocks == self.impls.deep_view(),
                self.structs.deep_view() == attach_to_structs(structs, blocks.take(i as int)),
            decreases self.impls.len() - i,
        {
            proof {
                let next = blocks.take(i + 1);
                assert(next.drop_last() =~= blocks.take(i as int));
            }
            match find_struct(&self.structs, self.impls[i].name()) {
                Some(k) => {
                    let methods = methods_of(&self.impls[i]);
                    let mut updated = self.structs[k].clone();
                    updated.add_methods(methods);
                    self.structs.set(k, updated);
                },
                None => {},
            }
            i += 1;
        }
        assert(blocks.take(self.impls.len() as int) =~= blocks);
    }

    /// Hands the methods of each impl block to the enum that the block is
    /// written for.
    pub fn associate_methods_with_enums(&mut self)
        ensures
            final(self)@ == (RustFileView {
                enums: attach_to_enums(old(self)@.enums, old(self)@.impls),
                ..old(self)@
            }),
    {
        let ghost enums = self.enums.deep_view();
        let ghost blocks = self.impls.deep_view();
        let mut i: usize = 0;
        while i < self.impls.len()
            invariant
                i <= self.impls.len(),
                self.impls == old(self).impls,
                self.file_path == old(self).file_path,
                self.functions == old(self).functions,
                self.structs == old(self).structs,
                self.traits == old(self).traits,
                blocks == self.impls.deep_view(),
                self.enums.deep_view() == attach_to_enums(enums, blocks.take(i as int)),
            decreases self.impls.len() - i,
        {
            proof {
                let next = blocks.take(i + 1);
                assert(next.drop_last() =~= blocks.take(i as int));
            }
            match find_enum(&self.enums, self.impls[i].name()) {
                Some(k) => {
                    let methods = methods_of(&self.impls[i]);
                    let mut updated = self.enums[k].clone();
                    updated.add_methods(methods);
                    self.enums.set(k, updated);
                },
                None => {},
            }
            i += 1;
        }
        assert(blocks.take(self.impls.len() as int) =~= blocks);
    }

    /// Hands the methods of each impl block to the struct or enum that the
    /// block is written for.
    pub fn associate_methods(&mut self)
        ensures
            final(self)@ == (RustFileView {
                structs: attach_to_structs(old(self)@.structs, old(self)@.impls),
                enums: attach_to_enums(old(self)@.enums, old(self)@.impls),
                ..old(self)@
            }),
    {
        self.associate_methods_with_structs();
        self.associate_methods_with_enums();
    }
}

} // verus!
