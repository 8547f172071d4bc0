//! The registry of public types: one entry per name over all files of a
//! run, with the file that declares it.

use vstd::prelude::*;
use vstd::string::*;
use crate::error::{ClippyError, ClippyErrorView};
use crate::names::str_eq;
use crate::types::rust_enum::{RustEnum, RustEnumView};
use crate::types::rust_struct::{RustStruct, RustStructView};
use crate::types::rust_trait::{RustTrait, RustTraitView};
use crate::types::rust_type::{RustType, RustTypeView};
use crate::types::visibility::Visibility;

verus! {

/// A type that can be registered.
#[derive(Debug, PartialEq, Eq)]
pub enum RegistryKind {
    Struct(RustStruct),
    Enum(RustEnum),
    Trait(RustTrait),
}

/// The mathematical content of a [`RegistryKind`].
pub enum RegistryKindView {
    Struct(RustStructView),
    Enum(RustEnumView),
    Trait(RustTraitView),
}

impl RegistryKindView {
    /// The same declaration as a declaration of any kind.
    pub open spec fn as_type(self) -> RustTypeView {
        match self {
            RegistryKindView::Struct(s) => RustTypeView::Struct(s),
            RegistryKindView::Enum(e) => RustTypeView::Enum(e),
            RegistryKindView::Trait(t) => RustTypeView::Trait(t),
        }
    }

    pub open spec fn name(self) -> Seq<char> {
        self.as_type().name()
    }

    pub open spec fn id(self) -> Seq<char> {
        self.as_type().id()
    }

    pub open spec fn is_public(self) -> bool {
        self.as_type().is_public()
    }
}

impl View for RegistryKind {
    type V = RegistryKindView;

    open spec fn view(&self) -> RegistryKindView {
        match *self {
            RegistryKind::Struct(s) => RegistryKindView::Struct(s@),
            RegistryKind::Enum(e) => RegistryKindView::Enum(e@),
            RegistryKind::Trait(t) => RegistryKindView::Trait(t@),
        }
    }
}

impl RegistryKind {
    pub fn name(&self) -> (r: &str)
        ensures
            r@ == self@.name(),
    {
        match self {
            RegistryKind::Struct(s) => s.name(),
            RegistryKind::Enum(e) => e.name(),
            RegistryKind::Trait(t) => t.name(),
        }
    }

    pub fn id(&self) -> (r: &str)
        ensures
            r@ == self@.id(),
    {
        match self {
            RegistryKind::Struct(s) => s.id(),
            RegistryKind::Enum(e) => e.id(),
            RegistryKind::Trait(t) => t.id(),
        }
    }

    pub fn is_public(&self) -> (r: bool)
        ensures
            r == self@.is_public(),
    {
        let visibility = match self {
            RegistryKind::Struct(s) => s.visibility(),
            RegistryKind::Enum(e) => e.visibility(),
            RegistryKind::Trait(t) => t.visibility(),
        };
        match visibility {
            Visibility::Public => true,
            _ => false,
        }
    }

    /// A copy of the declaration, as a declaration of any kind.
    pub fn to_rust_type(&self) -> (r: RustType)
        ensures
            r@ == self@.as_type(),
    {
        match self {
            RegistryKind::Struct(s) => RustType::Struct(s.clone()),
            RegistryKind::Enum(e) => RustType::Enum(e.clone()),
            RegistryKind::Trait(t) => RustType::Trait(t.clone()),
        }
    }
}

/// An entry of the registry: the declaration and the file that declares it.
#[derive(Debug, PartialEq, Eq)]
pub struct RegistryItem {
    item: RegistryKind,
    source: Option<String>,
}

/// The mathematical content of a [`RegistryItem`].
pub struct RegistryItemView {
    pub item: RegistryKindView,
    pub source: Option<Seq<char>>,
}

impl View for RegistryItem {
    type V = RegistryItemView;

    closed spec fn view(&self) -> RegistryItemView {
        RegistryItemView { item: self.item@, source: self.source.deep_view() }
    }
}

impl RegistryItem {
    pub fn item(&self) -> (r: &RegistryKind)
        ensures
            r@ == self@.item,
    {
        &self.item
    }

    pub fn source(&self) -> (r: Option<&str>)
        ensures
            r.deep_view() == self@.source,
    {
        match &self.source {
            Some(s) => Some(s.as_str()),
            None => None,
        }
    }
}

/// The public types of a run, by name.
pub struct GlobalRegistry {
    items: Vec<RegistryItem>,
}

impl GlobalRegistry {
    /// The names of the entries, in the order of their registration.
    pub closed spec fn entry_names(&self) -> Seq<Seq<char>> {
        Seq::new(self.items@.len(), |i: int| self.items@[i]@.item.name())
    }

    /// The place of the first entry called `name`.
    spec fn index_of(&self, name: Seq<char>) -> int {
        self.entry_names().index_of_first(name).unwrap()
    }

    /// The place of the first entry with the identifier `id`.
    spec fn index_of_id(&self, id: Seq<char>) -> int {
        Seq::new(self.items@.len(), |i: int| self.items@[i]@.item.id()).index_of_first(
            id,
        ).unwrap()
    }

    /// The entry with the identifier `id`, if there is one: the first that
    /// was registered with it.
    pub closed spec fn by_id(&self, id: Seq<char>) -> Option<RegistryItemView> {
        if Seq::new(self.items@.len(), |i: int| self.items@[i]@.item.id()).contains(id) {
            Some(self.items@[self.index_of_id(id)]@)
        } else {
            None
        }
    }
}

impl View for GlobalRegistry {
    type V = Map<Seq<char>, RegistryItemView>;

    closed spec fn view(&self) -> Map<Seq<char>, RegistryItemView> {
        Map::new(
            |name: Seq<char>| self.entry_names().contains(name),
            |name: Seq<char>| self.items@[self.index_of(name)]@,
        )
    }
}

/// Whether every entry stands under the name of its declaration.
pub open spec fn keyed_by_name(registry: Map<Seq<char>, RegistryItemView>) -> bool {
    forall|name: Seq<char>| #[trigger]
        registry.dom().contains(name) ==> registry[name].item.name() == name
}

impl GlobalRegistry {
    /// Every entry of a registry stands under the name of its declaration.
    pub proof fn lemma_keyed_by_name(self)
        ensures
            keyed_by_name(self@),
    {
        assert forall|name: Seq<char>| #[trigger] self@.dom().contains(name) implies self@[name].item.name()
            == name by {
            self.entry_names().index_of_first_ensures(name);
        }
    }
}

impl Default for GlobalRegistry {
    fn default() -> (r: Self)
        ensures
            r@ == Map::<Seq<char>, RegistryItemView>::empty(),
    {
        let r = GlobalRegistry { items: Vec::new() };
        r
    }
}

impl GlobalRegistry {
    /// The place of the first entry called `name`, if there is one.
    fn find(&self, name: &str) -> (r: Option<usize>)
        ensures
            match r {
                Some(i) => i < self.items.len() && self.entry_names().contains(name@)
                    && self.index_of(name@) == i,
                None => !self.entry_names().contains(name@),
            },
    {
        let mut i: usize = 0;
        while i < self.items.len()
            invariant
                i <= self.items.len(),
                forall|j: int| 0 <= j < i ==> self.entry_names()[j] != name@,
            decreases self.items.len() - i,
        {
            if str_eq(self.items[i].item.name(), name) {
                proof {
                    let names = self.entry_names();
                    assert(names[i as int] == name@);
                    names.index_of_first_ensures(name@);
                }
                return Some(i);
            }
            i += 1;
        }
        None
    }

    /// Registers a public type under its name, with the file that declares
    /// it. A type that is not public is not registered. A second public
    /// type of a name that is taken is refused, and the registry stays as
    /// it was.
    pub fn register(&mut self, item: RegistryKind, source: Option<&str>) -> (r: Result<
        (),
        ClippyError,
    >)
        ensures
            !item@.is_public() ==> r is Ok && final(self)@ == old(self)@,
            item@.is_public() && old(self)@.dom().contains(item@.name()) ==> r is Err
                && r->Err_0@ == (ClippyErrorView::DuplicateSymbol { name: item@.name() })
                && final(self)@ == old(self)@,
            item@.is_public() && !old(self)@.dom().contains(item@.name()) ==> r is Ok && final(self)@ == old(self)@.insert(
                item@.name(),
                RegistryItemView { item: item@, source: source.deep_view() },
            ),
    {
        if !item.is_public() {
            return Ok(());
        }
        match self.find(item.name()) {
            Some(_) => Err(ClippyError::DuplicateSymbol { name: item.name().to_owned() }),
            None => {
                let ghost name = item@.name();
                let source = match source {
                    Some(s) => Some(s.to_owned()),
                    None => None,
                };
                let entry = RegistryItem { item, source };
                self.items.push(entry);
                proof {
                    let before = old(self).entry_names();
                    let after = self.entry_names();
                    assert(after =~= before.push(name));
                    let target = old(self)@.insert(name, entry@);
                    assert forall|n: Seq<char>| self@.dom().contains(n) <==> target.dom().contains(
                        n,
                    ) by {
                        if before.contains(n) {
                            let i = choose|i: int| 0 <= i < before.len() && before[i] == n;
                            assert(after[i] == n);
                        }
                        if n == name {
                            assert(after[before.len() as int] == n);
                        }
                    }
                    assert forall|n: Seq<char>| self@.dom().contains(n) implies self@[n]
                        == target[n] by {
                        after.index_of_first_ensures(n);
                        if n != name {
                            before.index_of_first_ensures(n);
                            let j = old(self).index_of(n);
                            assert(after[j] == n);
                        }
                    }
                }
                Ok(())
            },
        }
    }

    /// Registers a public struct. See [`GlobalRegistry::register`].
    pub fn register_struct(&mut self, rust_struct: RustStruct, source: Option<&str>) -> (r: Result<
        (),
        ClippyError,
    >)
        ensures
            !rust_struct@.visibility.is_public_spec() ==> r is Ok && final(self)@ == old(self)@,
            rust_struct@.visibility.is_public_spec() && old(self)@.dom().contains(rust_struct@.name)
                ==> r is Err && r->Err_0@ == (ClippyErrorView::DuplicateSymbol {
                name: rust_struct@.name,
            }) && final(self)@ == old(self)@,
            rust_struct@.visibility.is_public_spec() && !old(self)@.dom().contains(
                rust_struct@.name,
            ) ==> r is Ok && final(self)@ == old(self)@.insert(
                rust_struct@.name,
                RegistryItemView {
                    item: RegistryKindView::Struct(rust_struct@),
                    source: source.deep_view(),
                },
            ),
    {
        self.register(RegistryKind::Struct(rust_struct), source)
    }

    /// The entry called `name`, if there is one.
    pub fn get_item_by_name(&self, name: &str) -> (r: Option<&RegistryItem>)
        ensures
            match r {
                Some(item) => self@.dom().contains(name@) && item@ == self@[name@],
                None => !self@.dom().contains(name@),
            },
    {
        match self.find(name) {
            Some(i) => Some(&self.items[i]),
            None => None,
        }
    }

    /// The entry with the identifier `id`, if there is one.
    pub fn get_item_by_id(&self, id: &str) -> (r: Option<&RegistryItem>)
        ensures
            match r {
                Some(item) => self.by_id(id@) == Some(item@),
                None => self.by_id(id@).is_none(),
            },
    {
        let ghost ids = Seq::new(self.items@.len(), |i: int| self.items@[i]@.item.id());
        let mut i: usize = 0;
        while i < self.items.len()
            invariant
                i <= self.items.len(),
                ids == Seq::new(self.items@.len(), |i: int| self.items@[i]@.item.id()),
                forall|j: int| 0 <= j < i ==> ids[j] != id@,
            decreases self.items.len() - i,
        {
            if str_eq(self.items[i].item.id(), id) {
                proof {
                    assert(ids[i as int] == id@);
                    ids.index_of_first_ensures(id@);
                }
                return Some(&self.items[i]);
            }
            i += 1;
        }
        None
    }
}

} // verus!
