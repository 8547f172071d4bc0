//! Names and paths as sequences of characters.
//!
//! A query path is a string whose segments are separated by `::`. The
//! functions here compare names, keep lists of names free of repetition, and
//! split and join paths.

use vstd::prelude::*;
use vstd::string::*;

verus! {

/// The two characters that separate the segments of a path.
pub open spec fn separator() -> Seq<char> {
    seq![':', ':']
}

/// Whether the separator stands at position `i` of `s`.
pub open spec fn is_separator_at(s: Seq<char>, i: int) -> bool {
    0 <= i && i + 1 < s.len() && s[i] == ':' && s[i + 1] == ':'
}

/// The segments of `s` from position `start` on, where positions before `i`
/// are known to hold no separator that begins at or after `start`.
pub open spec fn split_from(s: Seq<char>, start: int, i: int) -> Seq<Seq<char>>
    decreases s.len() - i,
{
    if i >= s.len() {
        seq![s.subrange(start, s.len() as int)]
    } else if is_separator_at(s, i) {
        seq![s.subrange(start, i)] + split_from(s, i + 2, i + 2)
    } else {
        split_from(s, start, i + 1)
    }
}

/// The segments of a path: the separators are found from left to right and
/// do not overlap. A path without a separator is its own single segment.
pub open spec fn split_segments(s: Seq<char>) -> Seq<Seq<char>> {
    split_from(s, 0, 0)
}

/// The first segment of a path.
pub open spec fn first_segment(s: Seq<char>) -> Seq<char> {
    split_segments(s).first()
}

/// The last segment of a path.
pub open spec fn last_segment(s: Seq<char>) -> Seq<char> {
    split_segments(s).last()
}

/// The segments joined again, with a separator between neighbours.
pub open spec fn join_segments(segments: Seq<Seq<char>>) -> Seq<char>
    decreases segments.len(),
{
    if segments.len() == 0 {
        Seq::empty()
    } else if segments.len() == 1 {
        segments[0]
    } else {
        join_segments(segments.drop_last()) + separator() + segments.last()
    }
}

/// Every split has at least one segment.
pub proof fn lemma_split_from_nonempty(s: Seq<char>, start: int, i: int)
    ensures
        split_from(s, start, i).len() >= 1,
    decreases s.len() - i,
{
    if i >= s.len() {
    } else if is_separator_at(s, i) {
    } else {
        lemma_split_from_nonempty(s, start, i + 1);
    }
}

/// A segment in front of a list of segments is joined to it by a
/// separator.
pub proof fn lemma_join_cons(first: Seq<char>, rest: Seq<Seq<char>>)
    requires
        rest.len() >= 1,
    ensures
        join_segments(seq![first] + rest) == first + separator() + join_segments(rest),
    decreases rest.len(),
{
    let all = seq![first] + rest;
    if rest.len() == 1 {
        assert(all.drop_last() =~= seq![first]);
        assert(join_segments(seq![first]) == first);
    } else {
        assert(all.drop_last() =~= seq![first] + rest.drop_last());
        lemma_join_cons(first, rest.drop_last());
    }
}

/// Joining what was split from a position on gives back the path from that
/// position on.
pub proof fn lemma_join_split_from(s: Seq<char>, start: int, i: int)
    requires
        0 <= start <= i <= s.len(),
    ensures
        join_segments(split_from(s, start, i)) == s.subrange(start, s.len() as int),
    decreases s.len() - i,
{
    if i >= s.len() {
    } else if is_separator_at(s, i) {
        lemma_join_split_from(s, i + 2, i + 2);
        lemma_split_from_nonempty(s, i + 2, i + 2);
        lemma_join_cons(s.subrange(start, i), split_from(s, i + 2, i + 2));
    } else {
        lemma_join_split_from(s, start, i + 1);
    }
}

/// A path has at least one segment, and joining its segments gives the path
/// back.
pub proof fn lemma_join_split(s: Seq<char>)
    ensures
        split_segments(s).len() >= 1,
        join_segments(split_segments(s)) == s,
{
    lemma_split_from_nonempty(s, 0, 0);
    lemma_join_split_from(s, 0, 0);
}

/// `more` folded into `names`, one name after the other: a name is appended
/// unless it is there already.
pub open spec fn merge_names(names: Seq<Seq<char>>, more: Seq<Seq<char>>) -> Seq<Seq<char>>
    decreases more.len(),
{
    if more.len() == 0 {
        names
    } else {
        let merged = merge_names(names, more.drop_last());
        if merged.contains(more.last()) {
            merged
        } else {
            merged.push(more.last())
        }
    }
}

/// Merging one name appends it unless it is there already.
pub proof fn lemma_merge_one(names: Seq<Seq<char>>, name: Seq<char>)
    ensures
        merge_names(names, seq![name]) == if names.contains(name) {
            names
        } else {
            names.push(name)
        },
{
    assert(merge_names(names, seq![name].drop_last()) == names);
}

/// A merged list holds exactly the names of its two parts.
pub proof fn lemma_merge_names_contains(names: Seq<Seq<char>>, more: Seq<Seq<char>>, x: Seq<char>)
    ensures
        merge_names(names, more).contains(x) <==> names.contains(x) || more.contains(x),
    decreases more.len(),
{
    if more.len() > 0 {
        let merged = merge_names(names, more.drop_last());
        lemma_merge_names_contains(names, more.drop_last(), x);
        if more.contains(x) {
            let i = choose|i: int| 0 <= i < more.len() && more[i] == x;
            if i < more.len() - 1 {
                assert(more.drop_last()[i] == x);
            }
        }
        if !merged.contains(more.last()) {
            let pushed = merged.push(more.last());
            if merged.contains(x) {
                let i = choose|i: int| 0 <= i < merged.len() && merged[i] == x;
                assert(pushed[i] == x);
            }
            assert(pushed[merged.len() as int] == more.last());
        }
    }
}

/// Merging keeps a list free of repetition.
pub proof fn lemma_merge_names_no_duplicates(names: Seq<Seq<char>>, more: Seq<Seq<char>>)
    requires
        names.no_duplicates(),
    ensures
        merge_names(names, more).no_duplicates(),
    decreases more.len(),
{
    if more.len() > 0 {
        lemma_merge_names_no_duplicates(names, more.drop_last());
    }
}

/// Merging names that are all there already changes nothing.
pub proof fn lemma_merge_names_absorbed(names: Seq<Seq<char>>, more: Seq<Seq<char>>)
    requires
        forall|i: int| 0 <= i < more.len() ==> names.contains(#[trigger] more[i]),
    ensures
        merge_names(names, more) == names,
    decreases more.len(),
{
    if more.len() > 0 {
        lemma_merge_names_absorbed(names, more.drop_last());
    }
}

/// Merging the same names a second time changes nothing.
pub proof fn lemma_merge_names_idempotent(names: Seq<Seq<char>>, more: Seq<Seq<char>>)
    ensures
        merge_names(merge_names(names, more), more) == merge_names(names, more),
{
    let merged = merge_names(names, more);
    assert forall|i: int| 0 <= i < more.len() implies merged.contains(#[trigger] more[i]) by {
        lemma_merge_names_contains(names, more, more[i]);
    }
    lemma_merge_names_absorbed(merged, more);
}

/// Whether two strings hold the same characters.
pub fn str_eq(a: &str, b: &str) -> (r: bool)
    ensures
        r == (a@ == b@),
{
    let x = a.to_owned();
    let y = b.to_owned();
    x == y
}

/// Whether `s` begins with `prefix`.
pub fn starts_with(s: &str, prefix: &str) -> (r: bool)
    ensures
        r == prefix@.is_prefix_of(s@),
{
    let n = s.unicode_len();
    let k = prefix.unicode_len();
    if k > n {
        return false;
    }
    let head = s.substring_char(0, k);
    str_eq(head, prefix)
}

/// Whether `name` occurs in `names`.
pub fn contains_name(names: &Vec<String>, name: &str) -> (r: bool)
    ensures
        r == names.deep_view().contains(name@),
{
    let mut i: usize = 0;
    while i < names.len()
        invariant
            i <= names.len(),
            forall|j: int| 0 <= j < i ==> names.deep_view()[j] != name@,
        decreases names.len() - i,
    {
        if str_eq(names[i].as_str(), name) {
            assert(names.deep_view()[i as int] == name@);
            return true;
        }
        i += 1;
    }
    false
}

/// Adds `name` to `names` unless it is there already; says whether it was
/// added.
pub fn insert_name(names: &mut Vec<String>, name: &str) -> (added: bool)
    ensures
        added == !old(names).deep_view().contains(name@),
        added ==> final(names).deep_view() == old(names).deep_view().push(name@),
        !added ==> final(names).deep_view() == old(names).deep_view(),
        old(names).deep_view().no_duplicates() ==> final(names).deep_view().no_duplicates(),
{
    if contains_name(names, name) {
        false
    } else {
        names.push(name.to_owned());
        true
    }
}

/// A copy of a list of names.
pub fn clone_names(names: &Vec<String>) -> (r: Vec<String>)
    ensures
        r.deep_view() == names.deep_view(),
{
    let mut out: Vec<String> = Vec::new();
    let mut i: usize = 0;
    while i < names.len()
        invariant
            i <= names.len(),
            out.len() == i,
            forall|j: int| 0 <= j < i ==> out@[j]@ == names@[j]@,
        decreases names.len() - i,
    {
        out.push(names[i].clone());
        i += 1;
    }
    out
}

/// Folds `more` into `names`: each name of `more` that `names` lacks is
/// appended, in order.
pub fn merge_into(names: &mut Vec<String>, more: &Vec<String>)
    ensures
        final(names).deep_view() == merge_names(old(names).deep_view(), more.deep_view()),
{
    let mut i: usize = 0;
    while i < more.len()
        invariant
            i <= more.len(),
            names.deep_view() == merge_names(old(names).deep_view(), more.deep_view().take(i as int)),
        decreases more.len() - i,
    {
        let ghost next = more.deep_view().take(i + 1);
        assert(next.drop_last() =~= more.deep_view().take(i as int));
        insert_name(names, more[i].as_str());
        i += 1;
    }
    assert(more.deep_view().take(more.len() as int) =~= more.deep_view());
}

/// Splits a path into its segments.
pub fn split_path(s: &str) -> (segments: Vec<String>)
    ensures
        segments.deep_view() == split_segments(s@),
        segments.len() >= 1,
{
    let n = s.unicode_len();
    let mut out: Vec<String> = Vec::new();
    let mut start: usize = 0;
    let mut i: usize = 0;
    while i < n
        invariant
            n == s@.len(),
            start <= i <= n,
            split_segments(s@) == out.deep_view() + split_from(s@, start as int, i as int),
        decreases n - i,
    {
        if i + 1 < n && s.get_char(i) == ':' && s.get_char(i + 1) == ':' {
            out.push(s.substring_char(start, i).to_owned());
            start = i + 2;
            i = i + 2;
        } else {
            i = i + 1;
        }
    }
    out.push(s.substring_char(start, n).to_owned());
    out
}

/// Joins the segments from position `from` on into a path.
pub fn join_path_from(segments: &Vec<String>, from: usize) -> (path: String)
    requires
        from <= segments.len(),
    ensures
        path@ == join_segments(segments.deep_view().skip(from as int)),
{
    let mut out = String::new();
    let mut i: usize = from;
    let ghost tail = segments.deep_view().skip(from as int);
    while i < segments.len()
        invariant
            from <= i <= segments.len(),
            tail == segments.deep_view().skip(from as int),
            out@ == join_segments(tail.take(i - from)),
        decreases segments.len() - i,
    {
        let ghost prefix = tail.take(i - from);
        let ghost next = tail.take(i - from + 1);
        assert(next.drop_last() =~= prefix);
        if i > from {
            proof {
                reveal_strlit("::");
            }
            out.append("::");
        }
        out.append(segments[i].as_str());
        i += 1;
    }
    assert(tail.take(segments.len() - from) =~= tail);
    out
}

/// Joins segments into a path.
pub fn join_path(segments: &Vec<String>) -> (path: String)
    ensures
        path@ == join_segments(segments.deep_view()),
{
    assert(segments.deep_view().skip(0) =~= segments.deep_view());
    join_path_from(segments, 0)
}

} // verus!
