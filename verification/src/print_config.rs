//! What a traversal of a tree carries along: the query, the path walked so
//! far, and whether the traversal is inside a linked definition.

use vstd::prelude::*;
use vstd::string::*;
use crate::names::clone_names;

verus! {

/// The state of a walk: the query, the path from the file down to the node
/// at hand, and whether the walk is inside a linked definition.
#[derive(Debug, PartialEq, Eq)]
pub struct PrintConfig {
    filter: Option<String>,
    path: Vec<String>,
    debug: bool,
    is_linked: bool,
    use_full_path: bool,
}

/// The mathematical content of a [`PrintConfig`] and of a
/// [`PrintConfigBuilder`].
pub struct PrintConfigView {
    /// The query, if there is one.
    pub filter: Option<Seq<char>>,
    /// The file, then the names of the nodes from the top level down to the
    /// current one.
    pub path: Seq<Seq<char>>,
    pub debug: bool,
    /// Whether the traversal is inside a linked definition.
    pub is_linked: bool,
    /// Whether the query begins with the file.
    pub use_full_path: bool,
}

impl View for PrintConfig {
    type V = PrintConfigView;

    closed spec fn view(&self) -> PrintConfigView {
        PrintConfigView {
            filter: self.filter.deep_view(),
            path: self.path.deep_view(),
            debug: self.debug,
            is_linked: self.is_linked,
            use_full_path: self.use_full_path,
        }
    }
}

impl Clone for PrintConfig {
    fn clone(&self) -> (r: Self)
        ensures
            r@ == self@,
    {
        PrintConfig {
            filter: match &self.filter {
                Some(f) => Some(f.clone()),
                None => None,
            },
            path: clone_names(&self.path),
            debug: self.debug,
            is_linked: self.is_linked,
            use_full_path: self.use_full_path,
        }
    }
}

impl PrintConfig {
    pub fn filter(&self) -> (r: &Option<String>)
        ensures
            r.deep_view() == self@.filter,
    {
        &self.filter
    }

    pub fn path(&self) -> (r: &Vec<String>)
        ensures
            r.deep_view() == self@.path,
    {
        &self.path
    }

    pub fn debug(&self) -> (r: bool)
        ensures
            r == self@.debug,
    {
        self.debug
    }

    pub fn is_linked(&self) -> (r: bool)
        ensures
            r == self@.is_linked,
    {
        self.is_linked
    }

    pub fn use_full_path(&self) -> (r: bool)
        ensures
            r == self@.use_full_path,
    {
        self.use_full_path
    }

    /// Goes one node down: `name` becomes the last segment of the path.
    pub fn add_to_path(&mut self, name: String)
        ensures
            final(self)@ == (PrintConfigView { path: old(self)@.path.push(name@), ..old(self)@ }),
    {
        self.path.push(name);
        assert(self.path.deep_view() =~= old(self).path.deep_view().push(name@));
    }
}

/// Puts a [`PrintConfig`] together, part by part.
pub struct PrintConfigBuilder {
    filter: Option<String>,
    path: Vec<String>,
    debug: bool,
    is_linked: bool,
    use_full_path: bool,
}

impl View for PrintConfigBuilder {
    type V = PrintConfigView;

    closed spec fn view(&self) -> PrintConfigView {
        PrintConfigView {
            filter: self.filter.deep_view(),
            path: self.path.deep_view(),
            debug: self.debug,
            is_linked: self.is_linked,
            use_full_path: self.use_full_path,
        }
    }
}

impl PrintConfigBuilder {
    /// A builder without a query, at an empty path, outside any link.
    pub fn new() -> (r: Self)
        ensures
            r@ == (PrintConfigView {
                filter: None,
                path: Seq::empty(),
                debug: false,
                is_linked: false,
                use_full_path: false,
            }),
    {
        let r = PrintConfigBuilder {
            filter: None,
            path: Vec::new(),
            debug: false,
            is_linked: false,
            use_full_path: false,
        };
        assert(r.path.deep_view() =~= Seq::empty());
        r
    }

    pub fn filter(self, filter: Option<String>) -> (r: Self)
        ensures
            r@ == (PrintConfigView { filter: filter.deep_view(), ..self@ }),
    {
        let mut r = self;
        r.filter = filter;
        r
    }

    pub fn path(self, path: Vec<String>) -> (r: Self)
        ensures
            r@ == (PrintConfigView { path: path.deep_view(), ..self@ }),
    {
        let mut r = self;
        r.path = path;
        r
    }

    pub fn debug(self, debug: bool) -> (r: Self)
        ensures
            r@ == (PrintConfigView { debug, ..self@ }),
    {
        let mut r = self;
        r.debug = debug;
        r
    }

    pub fn is_linked(self, is_linked: bool) -> (r: Self)
        ensures
            r@ == (PrintConfigView { is_linked, ..self@ }),
    {
        let mut r = self;
        r.is_linked = is_linked;
        r
    }

    pub fn use_full_path(self, use_full_path: bool) -> (r: Self)
        ensures
            r@ == (PrintConfigView { use_full_path, ..self@ }),
    {
        let mut r = self;
        r.use_full_path = use_full_path;
        r
    }

    pub fn build(self) -> (config: PrintConfig)
        ensures
            config@ == self@,
    {
        PrintConfig {
            filter: self.filter,
            path: self.path,
            debug: self.debug,
            is_linked: self.is_linked,
            use_full_path: self.use_full_path,
        }
    }
}

} // verus!
