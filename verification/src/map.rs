//! The list operation: the trees of all files, the query on them, and what
//! is to be printed for each file.

use vstd::prelude::*;
use vstd::string::*;
use crate::error::ClippyError;
use crate::file_visitor::RustFileVisitor;
use crate::tree::builder::{outcome, TreeBuilder};
use crate::tree::dependencies::Dependency;
use crate::tree::dependents::Dependent;
use crate::tree::root::{RootNode, RootNodeView};
use crate::text::{concat_all, concat_strings};
use crate::tree::table::{lists, row_keys, NodeEntryView};
use crate::types::rust_type::{RustType, RustTypeView};

verus! {

/// What is to be printed for one file.
#[derive(Debug, PartialEq, Eq)]
pub struct FileListing {
    /// The path of the file below the directory of the run.
    pub file: String,
    /// The declarations in the scope of the query, in the order of the
    /// tree.
    pub declarations: Vec<RustType>,
    /// What those declarations depend on, each with its identifier.
    pub dependencies: Vec<(String, Dependency)>,
    /// What depends on the target of the query, each with its identifier.
    pub dependents: Vec<(String, Dependent)>,
}

/// The mathematical content of a [`FileListing`].
pub struct FileListingView {
    pub file: Seq<char>,
    pub declarations: Seq<RustTypeView>,
    pub dependencies: Seq<(Seq<char>, NodeEntryView)>,
    pub dependents: Seq<(Seq<char>, NodeEntryView)>,
}

impl View for FileListing {
    type V = FileListingView;

    open spec fn view(&self) -> FileListingView {
        FileListingView {
            file: self.file@,
            declarations: self.declarations.deep_view(),
            dependencies: self.dependencies.deep_view(),
            dependents: self.dependents.deep_view(),
        }
    }
}

impl DeepView for FileListing {
    type V = FileListingView;

    open spec fn deep_view(&self) -> FileListingView {
        self@
    }
}

/// Whether a listing is that of a tree: the declarations that the tree
/// prints under the query, none if the query is to be silent, and the
/// answers that the tree holds, in the order in which they were found.
pub open spec fn lists_root(
    listing: FileListingView,
    root: RootNodeView,
    filter: Option<Seq<char>>,
    use_full_path: bool,
    silence_query: bool,
) -> bool {
    &&& listing.file == root.file_path.relative_path
    &&& listing.declarations == if silence_query {
        Seq::empty()
    } else {
        root.printed(filter, use_full_path)
    }
    &&& lists(listing.dependencies, root.dependencies)
    &&& row_keys(listing.dependencies) == root.dependency_order
    &&& lists(listing.dependents, root.dependents)
    &&& row_keys(listing.dependents) == root.dependent_order
}

/// The text that is printed for the declarations of a file: nothing where
/// the declarations have no text; otherwise the file after `@`, a colon, and
/// on the next lines the texts of the declarations.
pub open spec fn declarations_text(file: Seq<char>, declarations: Seq<Seq<char>>) -> Option<
    Seq<char>,
> {
    if concat_all(declarations).len() == 0 {
        None
    } else {
        Some("@"@ + file + ":\n"@ + concat_all(declarations))
    }
}

/// The heading that is printed above a dependency or a dependent: the file
/// that declares it after `@`, and a colon.
pub open spec fn entry_heading(source: Option<Seq<char>>) -> Seq<char> {
    "@"@ + (match source {
        Some(file) => file,
        None => Seq::empty(),
    }) + ":"@
}

/// The text that is printed for the declarations of a file, each given as
/// the text that it is printed as.
pub fn format_declarations(file: &str, declarations: &Vec<String>) -> (text: Option<String>)
    ensures
        text.deep_view() == declarations_text(file@, declarations.deep_view()),
{
    let body = concat_strings(declarations);
    if body.as_str().unicode_len() == 0 {
        return None;
    }
    let mut text = "@".to_owned();
    text.append(file);
    text.append(":\n");
    text.append(body.as_str());
    Some(text)
}

/// The heading that is printed above a dependency or a dependent.
pub fn format_entry_heading(source: Option<&str>) -> (text: String)
    ensures
        text@ == entry_heading(source.deep_view()),
{
    let mut text = "@".to_owned();
    match source {
        Some(file) => {
            text.append(file);
        },
        None => {},
    }
    text.append(":");
    text
}

/// What is to be printed for the tree of one file.
pub fn list_root(root: &RootNode, filter: Option<&str>, use_full_path: bool, silence_query: bool) -> (
    listing: FileListing)
    ensures
        lists_root(listing@, root@, filter.deep_view(), use_full_path, silence_query),
{
    let mut declarations: Vec<RustType> = Vec::new();
    assert(declarations.deep_view() =~= Seq::<RustTypeView>::empty());
    if !silence_query {
        root.print(&mut declarations, filter, use_full_path);
    }
    FileListing {
        file: root.file_path().relative_path(),
        declarations,
        dependencies: root.dependencies().to_vec(),
        dependents: root.dependents().to_vec(),
    }
}

/// Lists the declarations of the files of a run, with a registry that
/// starts empty. With a query, only what is in its scope is listed, and the
/// dependencies are found if `show_dependencies` asks for them; the
/// dependents of the target of the query are found if `show_dependents`
/// asks for them. `use_full_path` says that the query begins with a file.
/// The run ends without a listing as [`outcome`] says.
pub fn list_map(
    visitors: Vec<RustFileVisitor>,
    filter: Option<&str>,
    use_full_path: bool,
    silence_query: bool,
    show_dependencies: bool,
    show_dependents: bool,
) -> (r: Result<Vec<FileListing>, ClippyError>)
    ensures
        match outcome(
            visitors.deep_view(),
            Map::empty(),
            use_full_path,
            filter.deep_view(),
            show_dependencies && filter is Some,
            show_dependents,
        ) {
            Err(e) => r is Err && r->Err_0@ == e,
            Ok(roots) => r is Ok && r->Ok_0.len() == roots.len() && forall|i: int|
                0 <= i < roots.len() ==> lists_root(
                    (#[trigger] r->Ok_0.deep_view()[i]),
                    roots[i],
                    filter.deep_view(),
                    use_full_path,
                    silence_query,
                ),
        },
{
    let link_dependencies = show_dependencies && filter.is_some();
    let mut builder = TreeBuilder::new(visitors, use_full_path);
    let roots = match builder.initialize_root_nodes(filter, link_dependencies, show_dependents) {
        Ok(roots) => roots,
        Err(e) => {
            return Err(e);
        },
    };
    let mut listings: Vec<FileListing> = Vec::new();
    let mut i: usize = 0;
    while i < roots.len()
        invariant
            i <= roots.len(),
            listings.len() == i,
            forall|j: int|
                0 <= j < i ==> lists_root(
                    (#[trigger] listings.deep_view()[j]),
                    roots.deep_view()[j],
                    filter.deep_view(),
                    use_full_path,
                    silence_query,
                ),
        decreases roots.len() - i,
    {
        let listing = list_root(&roots[i], filter, use_full_path, silence_query);
        let ghost before = listings.deep_view();
        listings.push(listing);
        assert(listings.deep_view() =~= before.push(listing@));
        i += 1;
    }
    Ok(listings)
}

} // verus!
