use vstd::prelude::*;
use vstd::string::*;

verus! {

/// A file, named by the directory that the run started from and by its path
/// below that directory. The relative path is the file's identity in queries
/// and in provenance tags.
#[derive(Debug, PartialEq, Eq)]
pub struct FilePath {
    pub base_directory: String,
    pub relative_path: String,
}

/// The mathematical content of a [`FilePath`].
pub struct FilePathView {
    pub base_directory: Seq<char>,
    pub relative_path: Seq<char>,
}

/// `relative` resolved against `base`: an absolute `relative` stands alone;
/// otherwise the two are joined, with a `/` between them unless `base` is
/// empty or ends in one.
pub open spec fn joined_path(base: Seq<char>, relative: Seq<char>) -> Seq<char> {
    if relative.len() > 0 && relative[0] == '/' {
        relative
    } else if base.len() == 0 || base.last() == '/' {
        base + relative
    } else {
        base + seq!['/'] + relative
    }
}

impl View for FilePath {
    type V = FilePathView;

    open spec fn view(&self) -> FilePathView {
        FilePathView { base_directory: self.base_directory@, relative_path: self.relative_path@ }
    }
}

impl DeepView for FilePath {
    type V = FilePathView;

    open spec fn deep_view(&self) -> FilePathView {
        self@
    }
}

impl FilePathView {
    /// The path under which the file is opened.
    pub open spec fn real_path(self) -> Seq<char> {
        joined_path(self.base_directory, self.relative_path)
    }
}

impl Clone for FilePath {
    fn clone(&self) -> (r: Self)
        ensures
            r@ == self@,
    {
        FilePath {
            base_directory: self.base_directory.clone(),
            relative_path: self.relative_path.clone(),
        }
    }
}

impl FilePath {
    /// The file at `relative_path` below `base_directory`.
    pub fn new(base_directory: &str, relative_path: &str) -> (r: Self)
        ensures
            r@.base_directory == base_directory@,
            r@.relative_path == relative_path@,
    {
        FilePath {
            base_directory: base_directory.to_owned(),
            relative_path: relative_path.to_owned(),
        }
    }

    /// The path under which the file is opened.
    pub fn real_path(&self) -> (path: String)
        ensures
            path@ == self@.real_path(),
    {
        let base = self.base_directory.as_str();
        let relative = self.relative_path.as_str();
        let base_len = base.unicode_len();
        if relative.unicode_len() > 0 && relative.get_char(0) == '/' {
            return relative.to_owned();
        }
        let mut path = base.to_owned();
        if base_len > 0 && base.get_char(base_len - 1) != '/' {
            proof {
                reveal_strlit("/");
            }
            path.append("/");
        }
        path.append(relative);
        path
    }

    /// The path below the base directory.
    pub fn relative_path(&self) -> (path: String)
        ensures
            path@ == self@.relative_path,
    {
        self.relative_path.clone()
    }
}

} // verus!
