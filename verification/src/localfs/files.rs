use vstd::prelude::*;
use vstd::string::*;

verus! {

/// Whether a walk that may still go `maxdepth` directories down enters a
/// directory: always without a limit, and with one while it is not used up.
pub open spec fn descends(maxdepth: Option<usize>) -> bool {
    match maxdepth {
        Some(depth) => depth > 0,
        None => true,
    }
}

/// The place after the last `/` of a path; 0 where there is none.
pub open spec fn file_name_start(path: Seq<char>) -> int
    decreases path.len(),
{
    if path.len() == 0 {
        0
    } else if path.last() == '/' {
        path.len() as int
    } else {
        file_name_start(path.drop_last())
    }
}

/// The name of the file that a path leads to: what follows the last `/`.
pub open spec fn file_name(path: Seq<char>) -> Seq<char> {
    path.skip(file_name_start(path))
}

/// Whether a path leads to a Rust source file: its file name ends in
/// `.rs`, and there is something before that ending.
pub open spec fn is_rust_source(path: Seq<char>) -> bool {
    let name = file_name(path);
    name.len() >= 4 && name.skip(name.len() - 3) == seq!['.', 'r', 's']
}

/// Whether a walk that may still go `maxdepth` directories down enters a
/// directory.
pub fn should_descend(maxdepth: Option<usize>) -> (r: bool)
    ensures
        r == descends(maxdepth),
{
    match maxdepth {
        Some(depth) => depth > 0,
        None => true,
    }
}

/// The limit inside a directory that the walk has entered: one less.
pub fn next_depth(maxdepth: Option<usize>) -> (r: Option<usize>)
    requires
        descends(maxdepth),
    ensures
        r == match maxdepth {
            Some(depth) => Some((depth - 1) as usize),
            None => None,
        },
{
    match maxdepth {
        Some(depth) => Some(depth - 1),
        None => None,
    }
}

/// Whether `path` leads to a Rust source file.
pub fn has_rust_extension(path: &str) -> (r: bool)
    ensures
        r == is_rust_source(path@),
{
    let n = path.unicode_len();
    let mut start: usize = n;
    proof {
        assert(path@.take(n as int) =~= path@);
    }
    while start > 0 && path.get_char(start - 1) != '/'
        invariant
            start <= n,
            n == path@.len(),
            file_name_start(path@) == file_name_start(path@.take(start as int)),
        decreases start,
    {
        proof {
            assert(path@.take(start as int).drop_last() =~= path@.take(start - 1));
        }
        start -= 1;
    }
    if n - start < 4 {
        return false;
    }
    let ending = path.substring_char(n - 3, n);
    proof {
        reveal_strlit(".rs");
        let name = file_name(path@);
        assert(name.skip(name.len() - 3) =~= path@.subrange(n - 3, n as int));
        assert(".rs"@ =~= seq!['.', 'r', 's']);
    }
    crate::names::str_eq(ending, ".rs")
}

} // verus!
