//! Names of files, taken from their paths.
//!
//! A path is text whose components are separated by `/`. Empty components
//! and `.` components carry no name; `..` names the parent and is no file
//! name either.

use vstd::prelude::*;
use vstd::string::*;

verus! {

/// Where the last component of `p` starts: right after the last `/`, or at
/// the front where there is none.
pub open spec fn last_segment_start(p: Seq<char>) -> int
    decreases p.len(),
{
    if p.len() == 0 || p.last() == '/' {
        p.len() as int
    } else {
        last_segment_start(p.drop_last())
    }
}

/// Whether a component carries no name of its own: it is empty or `.`.
pub open spec fn is_inert_segment(seg: Seq<char>) -> bool {
    seg.len() == 0 || seg == seq!['.']
}

/// The last component of `p` that is neither empty nor `.`; empty where `p`
/// has no such component.
pub open spec fn last_component(p: Seq<char>) -> Seq<char>
    decreases p.len(),
{
    let start = last_segment_start(p);
    let seg = p.subrange(start, p.len() as int);
    if !is_inert_segment(seg) {
        seg
    } else if 0 < start <= p.len() {
        last_component(p.subrange(0, start - 1))
    } else {
        Seq::empty()
    }
}

/// The file name of a path: its last component, unless the path has none or
/// ends in `..`.
pub open spec fn file_name_of(p: Seq<char>) -> Option<Seq<char>> {
    let c = last_component(p);
    if c.len() == 0 || c == seq!['.', '.'] {
        None
    } else {
        Some(c)
    }
}

/// The position of the last `.` in `name`, or -1 where it has none.
pub open spec fn last_dot(name: Seq<char>) -> int
    decreases name.len(),
{
    if name.len() == 0 {
        -1
    } else if name.last() == '.' {
        name.len() - 1
    } else {
        last_dot(name.drop_last())
    }
}

/// The stem of a file name: the name up to its last `.`, and all of it where
/// it holds no `.` or only a leading one.
pub open spec fn stem_of_name(name: Seq<char>) -> Seq<char> {
    let dot = last_dot(name);
    if dot <= 0 {
        name
    } else {
        name.subrange(0, dot)
    }
}

/// The stem of the file name of a path.
pub open spec fn file_stem_of(p: Seq<char>) -> Option<Seq<char>> {
    match file_name_of(p) {
        Some(name) => Some(stem_of_name(name)),
        None => None,
    }
}

proof fn lemma_last_segment(p: Seq<char>)
    ensures
        0 <= last_segment_start(p) <= p.len(),
        forall|i: int| last_segment_start(p) <= i < p.len() ==> p[i] != '/',
    decreases p.len(),
{
    if p.len() == 0 || p.last() == '/' {
    } else {
        let front = p.drop_last();
        lemma_last_segment(front);
        assert forall|i: int| last_segment_start(p) <= i < p.len() implies p[i] != '/' by {
            if i < front.len() {
                assert(p[i] == front[i]);
            }
        }
    }
}

proof fn lemma_last_component_is_plain(p: Seq<char>)
    ensures
        forall|i: int| 0 <= i < last_component(p).len() ==> last_component(p)[i] != '/',
        last_component(p) != seq!['.'],
    decreases p.len(),
{
    lemma_last_segment(p);
    let start = last_segment_start(p);
    if is_inert_segment(p.subrange(start, p.len() as int)) && 0 < start {
        lemma_last_component_is_plain(p.subrange(0, start - 1));
    }
}

/// A file name is a name and no path: it is not empty, holds no `/`, and
/// is neither `.` nor `..`.
pub proof fn lemma_file_name_is_plain(p: Seq<char>)
    requires
        file_name_of(p) is Some,
    ensures
        file_name_of(p).unwrap().len() > 0,
        forall|i: int|
            0 <= i < file_name_of(p).unwrap().len() ==> file_name_of(p).unwrap()[i] != '/',
        file_name_of(p).unwrap() != seq!['.'],
        file_name_of(p).unwrap() != seq!['.', '.'],
{
    lemma_last_component_is_plain(p);
}

/// The file name of a name is the name: a path that is not empty, holds
/// no `/`, and is neither `.` nor `..` is its own file name.
pub proof fn lemma_file_name_of_a_name(name: Seq<char>)
    requires
        name.len() > 0,
        forall|i: int| 0 <= i < name.len() ==> name[i] != '/',
        name != seq!['.'],
        name != seq!['.', '.'],
    ensures
        file_name_of(name) == Some(name),
{
    lemma_segment_start_is(name, 0);
    assert(name.subrange(0, name.len() as int) =~= name);
}

/// A position `s` with no `/` from it to the end, and a `/` just before it
/// (or nothing before it), is where the last component starts.
proof fn lemma_segment_start_is(p: Seq<char>, s: int)
    requires
        0 <= s <= p.len(),
        s > 0 ==> p[s - 1] == '/',
        forall|i: int| s <= i < p.len() ==> p[i] != '/',
    ensures
        last_segment_start(p) == s,
    decreases p.len(),
{
    if p.len() == 0 || p.last() == '/' {
    } else {
        lemma_segment_start_is(p.drop_last(), s);
    }
}

proof fn lemma_last_dot_is(name: Seq<char>, d: int)
    requires
        -1 <= d < name.len(),
        d >= 0 ==> name[d] == '.',
        forall|i: int| d < i < name.len() ==> name[i] != '.',
    ensures
        last_dot(name) == d,
    decreases name.len(),
{
    if name.len() == 0 {
    } else if name.last() == '.' {
    } else {
        lemma_last_dot_is(name.drop_last(), d);
    }
}

/// The characters of `s`.
fn chars_of(s: &str) -> (v: Vec<char>)
    ensures
        v@ == s@,
{
    let mut v: Vec<char> = Vec::new();
    for c in it: s.chars()
        invariant
            v@ == it.seq().take(it.index() as int),
            it.seq() == s@,
    {
        v.push(c);
    }
    v
}

/// The text of `v[from..to]`.
fn text_of(v: &Vec<char>, from: usize, to: usize) -> (s: String)
    requires
        from <= to <= v.len(),
    ensures
        s@ == v@.subrange(from as int, to as int),
{
    let mut s = String::new();
    let mut i: usize = from;
    while i < to
        invariant
            from <= i <= to <= v.len(),
            s@ == v@.subrange(from as int, i as int),
        decreases to - i,
    {
        s.push(v[i]);
        i += 1;
    }
    s
}

/// Finds the last component of `v[..end]` that is neither empty nor `.`, as
/// the bounds of that component in `v`; the bounds are equal where there is
/// none.
fn find_last_component(v: &Vec<char>) -> (r: (usize, usize))
    ensures
        r.0 <= r.1 <= v.len(),
        v@.subrange(r.0 as int, r.1 as int) == last_component(v@),
{
    let mut end: usize = v.len();
    assert(v@.take(end as int) =~= v@);
    loop
        invariant
            end <= v.len(),
            last_component(v@) == last_component(v@.take(end as int)),
        decreases end,
    {
        let ghost p = v@.take(end as int);
        // Walk back to the start of the component that ends at `end`.
        let mut start: usize = end;
        while start > 0 && v[start - 1] != '/'
            invariant
                start <= end <= v.len(),
                forall|i: int| start <= i < end ==> v[i] != '/',
            decreases start,
        {
            start -= 1;
        }
        proof {
            lemma_segment_start_is(p, start as int);
        }
        let inert = start == end || (end - start == 1 && v[start] == '.');
        assert(inert == is_inert_segment(p.subrange(start as int, end as int))) by {
            let seg = p.subrange(start as int, end as int);
            if end - start == 1 && v[start as int] == '.' {
                assert(seg =~= seq!['.']);
            }
            if seg == seq!['.'] {
                assert(seg.len() == 1);
                assert(seg[0] == '.');
            }
        }
        if !inert {
            return (start, end);
        }
        if start == 0 {
            return (0, 0);
        }
        proof {
            assert(p.subrange(0, start - 1) =~= v@.take(start - 1));
        }
        end = start - 1;
    }
}

/// Finds the file name of the path `v`, as its bounds in `v`.
fn find_file_name(v: &Vec<char>) -> (r: Option<(usize, usize)>)
    ensures
        match r {
            Some((start, end)) => start < end <= v.len() && file_name_of(v@) == Some(
                v@.subrange(start as int, end as int),
            ),
            None => file_name_of(v@) is None,
        },
{
    let (start, end) = find_last_component(v);
    if start == end {
        return None;
    }
    if end - start == 2 && v[start] == '.' && v[start + 1] == '.' {
        assert(v@.subrange(start as int, end as int) =~= seq!['.', '.']);
        return None;
    }
    Some((start, end))
}

/// The file name of `path`: its last component, as text. `None` where the
/// path has no component with a name, or ends in `..`.
pub fn filename_from_path(path: &str) -> (name: Option<String>)
    ensures
        name is Some <==> file_name_of(path@) is Some,
        name matches Some(n) ==> Some(n@) == file_name_of(path@),
{
    let v = chars_of(path);
    match find_file_name(&v) {
        Some((start, end)) => Some(text_of(&v, start, end)),
        None => None,
    }
}

/// The stem of the file name of `path`: the name without its last
/// extension. `None` where the path has no file name.
pub fn filestem_from_path(path: &str) -> (stem: Option<String>)
    ensures
        stem is Some <==> file_stem_of(path@) is Some,
        stem matches Some(s) ==> Some(s@) == file_stem_of(path@),
{
    let v = chars_of(path);
    let (start, end) = match find_file_name(&v) {
        Some(bounds) => bounds,
        None => {
            return None;
        },
    };
    // Walk back to one past the last `.` of the name, or to its start where
    // it has none.
    let mut dot: usize = end;
    while dot > start && v[dot - 1] != '.'
        invariant
            start <= dot <= end <= v.len(),
            forall|i: int| dot <= i < end ==> v[i] != '.',
        decreases dot,
    {
        dot -= 1;
    }
    proof {
        lemma_last_dot_is(v@.subrange(start as int, end as int), dot - start - 1);
    }
    if dot <= start + 1 {
        Some(text_of(&v, start, end))
    } else {
        Some(text_of(&v, start, dot - 1))
    }
}

} // verus!
