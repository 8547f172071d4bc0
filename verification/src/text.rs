//! Text: joining pieces, and cutting a piece out of a line.

use vstd::prelude::*;
use vstd::string::*;

verus! {

/// The pieces one after the other, with `sep` between neighbours.
pub open spec fn join_with(parts: Seq<Seq<char>>, sep: Seq<char>) -> Seq<char>
    decreases parts.len(),
{
    if parts.len() == 0 {
        Seq::empty()
    } else if parts.len() == 1 {
        parts[0]
    } else {
        join_with(parts.drop_last(), sep) + sep + parts.last()
    }
}

/// The pieces one after the other.
pub open spec fn concat_all(parts: Seq<Seq<char>>) -> Seq<char>
    decreases parts.len(),
{
    if parts.len() == 0 {
        Seq::empty()
    } else {
        concat_all(parts.drop_last()) + parts.last()
    }
}

/// Joins the pieces, with `sep` between neighbours.
pub fn join_strings(parts: &Vec<String>, sep: &str) -> (text: String)
    ensures
        text@ == join_with(parts.deep_view(), sep@),
{
    let mut out = String::new();
    let ghost all = parts.deep_view();
    let mut i: usize = 0;
    while i < parts.len()
        invariant
            i <= parts.len(),
            all == parts.deep_view(),
            out@ == join_with(all.take(i as int), sep@),
        decreases parts.len() - i,
    {
        let ghost next = all.take(i + 1);
        assert(next.drop_last() =~= all.take(i as int));
        if i > 0 {
            out.append(sep);
        }
        out.append(parts[i].as_str());
        i += 1;
    }
    assert(all.take(parts.len() as int) =~= all);
    out
}

/// Puts the pieces one after the other.
pub fn concat_strings(parts: &Vec<String>) -> (text: String)
    ensures
        text@ == concat_all(parts.deep_view()),
{
    let mut out = String::new();
    let ghost all = parts.deep_view();
    let mut i: usize = 0;
    while i < parts.len()
        invariant
            i <= parts.len(),
            all == parts.deep_view(),
            out@ == concat_all(all.take(i as int)),
        decreases parts.len() - i,
    {
        let ghost next = all.take(i + 1);
        assert(next.drop_last() =~= all.take(i as int));
        out.append(parts[i].as_str());
        i += 1;
    }
    assert(all.take(parts.len() as int) =~= all);
    out
}

/// The part of a line from column `from` up to column `to`, both taken no
/// further than the line goes.
pub open spec fn clip(line: Seq<char>, from: int, to: int) -> Seq<char> {
    let end = if to < line.len() {
        to
    } else {
        line.len() as int
    };
    let begin = if from < end {
        from
    } else {
        end
    };
    line.subrange(begin, end)
}

/// The part of a line from column `from` up to column `to`.
pub fn clip_line(line: &str, from: usize, to: usize) -> (r: String)
    ensures
        r@ == clip(line@, from as int, to as int),
{
    let n = line.unicode_len();
    let end = if to < n {
        to
    } else {
        n
    };
    let begin = if from < end {
        from
    } else {
        end
    };
    line.substring_char(begin, end).to_owned()
}

} // verus!
