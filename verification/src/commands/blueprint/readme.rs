//! Reading the parts of a blueprint's README: title, first paragraph, usage section.

use crate::text::{chars_of, lines, split_lines, starts_with, trim, trimmed};
use vstd::prelude::*;

verus! {

/// Index of the first line at or after `i` that satisfies `p`, or `ls.len()` when none does.
pub open spec fn find_from(ls: Seq<Seq<char>>, i: int, p: spec_fn(Seq<char>) -> bool) -> int
    decreases ls.len() - i,
{
    if i >= ls.len() {
        ls.len() as int
    } else if p(ls[i]) {
        i
    } else {
        find_from(ls, i + 1, p)
    }
}

pub proof fn lemma_find_from(ls: Seq<Seq<char>>, i: int, p: spec_fn(Seq<char>) -> bool)
    requires
        0 <= i <= ls.len(),
    ensures
        i <= find_from(ls, i, p) <= ls.len(),
        find_from(ls, i, p) < ls.len() ==> p(ls[find_from(ls, i, p)]),
        forall|k: int| i <= k < find_from(ls, i, p) ==> !p(#[trigger] ls[k]),
    decreases ls.len() - i,
{
    if i < ls.len() && !p(ls[i]) {
        lemma_find_from(ls, i + 1, p);
    }
}

/// A line that is blank once trimmed.
pub open spec fn is_blank(l: Seq<char>) -> bool {
    trim(l).len() == 0
}

/// A markdown heading line: its trimmed text starts with `#`.
pub open spec fn is_heading(l: Seq<char>) -> bool {
    trim(l).len() > 0 && trim(l)[0] == '#'
}

/// A paragraph line: not blank and not a heading.
pub open spec fn is_content(l: Seq<char>) -> bool {
    trim(l).len() > 0 && trim(l)[0] != '#'
}

/// A level-one heading line: its trimmed text starts with `# `.
pub open spec fn is_h1(l: Seq<char>) -> bool {
    starts_with(trim(l), "# "@)
}

/// Removes every leading repetition of `p`, as `str::trim_start_matches` does.
pub open spec fn strip_all_prefix(s: Seq<char>, p: Seq<char>) -> Seq<char>
    decreases s.len(),
{
    if p.len() > 0 && starts_with(s, p) {
        strip_all_prefix(s.skip(p.len() as int), p)
    } else {
        s
    }
}

/// Removes every leading repetition of `p` from `v`.
pub fn strip_prefix_all(v: &Vec<char>, p: &str) -> (r: Vec<char>)
    ensures
        r@ == strip_all_prefix(v@, p@),
{
    let pc = chars_of(p);
    let mut i: usize = 0;
    assert(v@.skip(0) == v@);
    if pc.len() > 0 {
        while i < v.len() && crate::text::has_prefix_at(v, i, &pc)
            invariant
                0 < pc@.len(),
                pc@ == p@,
                i <= v.len(),
                strip_all_prefix(v@.skip(i as int), p@) == strip_all_prefix(v@, p@),
            decreases v.len() - i,
        {
            assert(v@.skip(i as int).skip(pc@.len() as int) == v@.skip(i + pc@.len()));
            i = i + pc.len();
        }
    }
    assert(v@.skip(0) == v@);
    let mut r: Vec<char> = Vec::new();
    let mut k = i;
    while k < v.len()
        invariant
            i <= k <= v.len(),
            r@ == v@.subrange(i as int, k as int),
        decreases v.len() - k,
    {
        r.push(v[k]);
        assert(v@.subrange(i as int, k + 1) == v@.subrange(i as int, k as int).push(v@[k as int]));
        k = k + 1;
    }
    proof {
        assert(r@ == v@.skip(i as int));
        if i < v.len() && pc.len() > 0 {
            assert(!starts_with(v@.skip(i as int), p@));
        }
        if i == v.len() {
            assert(v@.skip(i as int).len() == 0);
            if p@.len() > 0 {
                assert(!starts_with(v@.skip(i as int), p@));
            }
        }
    }
    r
}

/// The title text of a level-one heading line.
pub open spec fn title_text(l: Seq<char>) -> Seq<char> {
    trim(strip_all_prefix(trim(l), "# "@))
}

/// The trimmed lines of the run of paragraph lines that starts at `i`.
pub open spec fn run_from(ls: Seq<Seq<char>>, i: int) -> Seq<Seq<char>>
    decreases ls.len() - i,
{
    if i < 0 || i >= ls.len() || !is_content(ls[i]) {
        Seq::empty()
    } else {
        seq![trim(ls[i])] + run_from(ls, i + 1)
    }
}

/// The trimmed lines of the first paragraph at or after line `i`.
pub open spec fn paragraph_from(ls: Seq<Seq<char>>, i: int) -> Seq<Seq<char>> {
    run_from(ls, find_from(ls, i, |l: Seq<char>| is_content(l)))
}

/// The line after the first level-one heading, or 0 when there is none.
pub open spec fn after_h1(ls: Seq<Seq<char>>) -> int {
    let h = find_from(ls, 0, |l: Seq<char>| is_h1(l));
    if h < ls.len() {
        h + 1
    } else {
        0
    }
}

/// The trimmed first paragraph line of the whole text, if any.
pub open spec fn first_content_line(ls: Seq<Seq<char>>) -> Option<Seq<char>> {
    let f = find_from(ls, 0, |l: Seq<char>| is_content(l));
    if f < ls.len() {
        Some(trim(ls[f]))
    } else {
        None
    }
}

/// The lines of a README text.
pub fn readme_lines(content: &str) -> (r: Vec<Vec<char>>)
    ensures
        views(r@) == lines(content@),
{
    let v = chars_of(content);
    let r = split_lines(&v);
    assert(views(r@) =~= lines(content@));
    r
}

/// The views of a vector of lines.
pub open spec fn views(ls: Seq<Vec<char>>) -> Seq<Seq<char>> {
    ls.map_values(|l: Vec<char>| l@)
}

/// Whether the line is a paragraph line.
pub fn line_is_content(l: &Vec<char>) -> (r: bool)
    ensures
        r == is_content(l@),
{
    let t = trimmed(l);
    t.len() > 0 && t[0] != '#'
}

/// Whether the line is a heading.
pub fn line_is_heading(l: &Vec<char>) -> (r: bool)
    ensures
        r == is_heading(l@),
{
    let t = trimmed(l);
    t.len() > 0 && t[0] == '#'
}

/// Whether the line is blank.
pub fn line_is_blank(l: &Vec<char>) -> (r: bool)
    ensures
        r == is_blank(l@),
{
    let t = trimmed(l);
    t.len() == 0
}

/// Whether the line is a level-one heading.
pub fn line_is_h1(l: &Vec<char>) -> (r: bool)
    ensures
        r == is_h1(l@),
{
    let t = trimmed(l);
    crate::text::has_prefix(&t, "# ")
}

/// Index of the first paragraph line at or after `i`.
pub fn find_content(ls: &Vec<Vec<char>>, i: usize) -> (j: usize)
    requires
        i <= ls.len(),
    ensures
        j == find_from(views(ls@), i as int, |l: Seq<char>| is_content(l)),
{
    let ghost vs = views(ls@);
    let ghost p = |l: Seq<char>| is_content(l);
    let mut j = i;
    while j < ls.len() && !line_is_content(&ls[j])
        invariant
            i <= j <= ls.len(),
            vs == views(ls@),
            p == (|l: Seq<char>| is_content(l)),
            find_from(vs, i as int, p) == find_from(vs, j as int, p),
        decreases ls.len() - j,
    {
        assert(vs[j as int] == ls@[j as int]@);
        assert(!p(vs[j as int]));
        assert(find_from(vs, j as int, p) == find_from(vs, j + 1, p));
        j = j + 1;
    }
    j
}

/// Index of the first level-one heading at or after `i`.
pub fn find_h1(ls: &Vec<Vec<char>>, i: usize) -> (j: usize)
    requires
        i <= ls.len(),
    ensures
        j == find_from(views(ls@), i as int, |l: Seq<char>| is_h1(l)),
{
    let ghost vs = views(ls@);
    let ghost p = |l: Seq<char>| is_h1(l);
    let mut j = i;
    while j < ls.len() && !line_is_h1(&ls[j])
        invariant
            i <= j <= ls.len(),
            vs == views(ls@),
            p == (|l: Seq<char>| is_h1(l)),
            find_from(vs, i as int, p) == find_from(vs, j as int, p),
        decreases ls.len() - j,
    {
        assert(vs[j as int] == ls@[j as int]@);
        assert(!p(vs[j as int]));
        assert(find_from(vs, j as int, p) == find_from(vs, j + 1, p));
        j = j + 1;
    }
    j
}

/// The trimmed lines of the run of paragraph lines that starts at `i`.
pub fn collect_run(ls: &Vec<Vec<char>>, i: usize) -> (r: Vec<Vec<char>>)
    requires
        i <= ls.len(),
    ensures
        views(r@) == run_from(views(ls@), i as int),
{
    let ghost vs = views(ls@);
    let mut r: Vec<Vec<char>> = Vec::new();
    let mut k = i;
    while k < ls.len() && line_is_content(&ls[k])
        invariant
            i <= k <= ls.len(),
            vs == views(ls@),
            views(r@) + run_from(vs, k as int) == run_from(vs, i as int),
        decreases ls.len() - k,
    {
        let t = trimmed(&ls[k]);
        proof {
            assert(run_from(vs, k as int) == seq![trim(vs[k as int])] + run_from(vs, k + 1));
            assert(views(r@.push(t)) == views(r@).push(t@));
        }
        r.push(t);
        k = k + 1;
    }
    assert(run_from(vs, k as int) == Seq::<Seq<char>>::empty());
    r
}

/// The trimmed lines of the first paragraph at or after line `i`.
pub fn collect_paragraph(ls: &Vec<Vec<char>>, i: usize) -> (r: Vec<Vec<char>>)
    requires
        i <= ls.len(),
    ensures
        views(r@) == paragraph_from(views(ls@), i as int),
{
    let f = find_content(ls, i);
    proof {
        lemma_find_from(views(ls@), i as int, |l: Seq<char>| is_content(l));
    }
    collect_run(ls, f)
}

/// The line after the first level-one heading, or 0 when there is none.
pub fn line_after_h1(ls: &Vec<Vec<char>>) -> (r: usize)
    ensures
        r == after_h1(views(ls@)),
        r <= ls.len(),
{
    let h = find_h1(ls, 0);
    proof {
        lemma_find_from(views(ls@), 0, |l: Seq<char>| is_h1(l));
    }
    if h < ls.len() {
        h + 1
    } else {
        0
    }
}

/// The trimmed first paragraph line of the whole text, if any.
pub fn first_content(ls: &Vec<Vec<char>>) -> (r: Option<Vec<char>>)
    ensures
        match r {
            Some(l) => first_content_line(views(ls@)) == Some(l@),
            None => first_content_line(views(ls@)) is None,
        },
{
    let f = find_content(ls, 0);
    proof {
        lemma_find_from(views(ls@), 0, |l: Seq<char>| is_content(l));
    }
    if f < ls.len() {
        Some(trimmed(&ls[f]))
    } else {
        None
    }
}

} // verus!
