//! Text utilities over character sequences: trimming, line splitting,
//! prefix and substring tests, joining.

use vstd::prelude::*;

verus! {

/// The Unicode `White_Space` property, as `char::is_whitespace` documents it.
pub open spec fn spec_is_whitespace(c: char) -> bool {
    ||| ('\u{9}' <= c && c <= '\u{d}')
    ||| c == ' '
    ||| c == '\u{85}'
    ||| c == '\u{a0}'
    ||| c == '\u{1680}'
    ||| ('\u{2000}' <= c && c <= '\u{200a}')
    ||| c == '\u{2028}'
    ||| c == '\u{2029}'
    ||| c == '\u{202f}'
    ||| c == '\u{205f}'
    ||| c == '\u{3000}'
}

/// Whether `c` is a whitespace character.
pub fn is_whitespace(c: char) -> (r: bool)
    ensures
        r == spec_is_whitespace(c),
{
    ('\u{9}' <= c && c <= '\u{d}') || c == ' ' || c == '\u{85}' || c == '\u{a0}' || c == '\u{1680}'
        || ('\u{2000}' <= c && c <= '\u{200a}') || c == '\u{2028}' || c == '\u{2029}'
        || c == '\u{202f}' || c == '\u{205f}' || c == '\u{3000}'
}

/// Drops leading whitespace.
pub open spec fn trim_start(s: Seq<char>) -> Seq<char>
    decreases s.len(),
{
    if s.len() > 0 && spec_is_whitespace(s[0]) {
        trim_start(s.drop_first())
    } else {
        s
    }
}

/// Drops trailing whitespace.
pub open spec fn trim_end(s: Seq<char>) -> Seq<char>
    decreases s.len(),
{
    if s.len() > 0 && spec_is_whitespace(s.last()) {
        trim_end(s.drop_last())
    } else {
        s
    }
}

/// Drops leading and trailing whitespace, as `str::trim` does.
pub open spec fn trim(s: Seq<char>) -> Seq<char> {
    trim_end(trim_start(s))
}

/// The characters of `s`.
pub fn chars_of(s: &str) -> (v: Vec<char>)
    ensures
        v@ == s@,
{
    let mut v: Vec<char> = Vec::new();
    let mut it = s.chars();
    for c in iter: it
        invariant
            iter.seq() == s@,
            v@ == s@.take(iter.index() as int),
    {
        v.push(c);
    }
    assert(v@ == s@.take(s@.len() as int));
    v
}

/// Appends one character, as `String::push` does.
#[verifier::external_body]
pub fn push_char(s: &mut String, c: char)
    ensures
        final(s)@ == old(s)@.push(c),
{
    s.push(c);
}


/// `n` copies of `c`.
pub open spec fn repeat_char(c: char, n: nat) -> Seq<char> {
    Seq::new(n, |i: int| c)
}

/// `s` filled with spaces on the right to `w` characters, as `{:<w$}` formats it; a
/// longer `s` stays whole.
pub open spec fn pad_right(s: Seq<char>, w: nat) -> Seq<char> {
    if s.len() < w {
        s + repeat_char(' ', (w - s.len()) as nat)
    } else {
        s
    }
}

/// Appends `n` copies of `c`.
pub fn push_repeat(s: &mut String, c: char, n: usize)
    ensures
        final(s)@ == old(s)@ + repeat_char(c, n as nat),
{
    let mut k: usize = 0;
    while k < n
        invariant
            k <= n,
            s@ == old(s)@ + repeat_char(c, k as nat),
        decreases n - k,
    {
        push_char(s, c);
        assert(old(s)@ + repeat_char(c, (k + 1) as nat) =~= (old(s)@ + repeat_char(c, k as nat)).push(c));
        k = k + 1;
    }
}

/// `s` filled with spaces on the right to `w` characters.
pub fn padded(s: &str, w: usize) -> (r: String)
    ensures
        r@ == pad_right(s@, w as nat),
{
    let mut r = s.to_string();
    let n = s.unicode_len();
    if n < w {
        push_repeat(&mut r, ' ', w - n);
    }
    r
}

/// The characters of `v` from `lo` to `hi` as a string.
pub fn string_from(v: &Vec<char>, lo: usize, hi: usize) -> (r: String)
    requires
        lo <= hi <= v.len(),
    ensures
        r@ == v@.subrange(lo as int, hi as int),
{
    let mut r = String::new();
    let mut i = lo;
    while i < hi
        invariant
            lo <= i <= hi <= v.len(),
            r@ == v@.subrange(lo as int, i as int),
        decreases hi - i,
    {
        push_char(&mut r, v[i]);
        assert(v@.subrange(lo as int, i + 1) == v@.subrange(lo as int, i as int).push(v@[i as int]));
        i = i + 1;
    }
    r
}

/// The whole of `v` as a string.
pub fn string_of(v: &Vec<char>) -> (r: String)
    ensures
        r@ == v@,
{
    assert(v@.subrange(0, v@.len() as int) == v@);
    string_from(v, 0, v.len())
}

/// Skipping `k` leading whitespace characters does not change the start-trimmed text.
pub proof fn lemma_trim_start_skip(s: Seq<char>, k: int)
    requires
        0 <= k <= s.len(),
        forall|j: int| 0 <= j < k ==> spec_is_whitespace(#[trigger] s[j]),
    ensures
        trim_start(s) == trim_start(s.skip(k)),
    decreases k,
{
    if k > 0 {
        assert(s.drop_first().skip(k - 1) == s.skip(k));
        assert forall|j: int| 0 <= j < k - 1 implies spec_is_whitespace(#[trigger] s.drop_first()[j]) by {
            assert(s.drop_first()[j] == s[j + 1]);
        }
        lemma_trim_start_skip(s.drop_first(), k - 1);
    } else {
        assert(s.skip(0) == s);
    }
}

/// Dropping `k` trailing whitespace characters does not change the end-trimmed text.
pub proof fn lemma_trim_end_take(s: Seq<char>, k: int)
    requires
        0 <= k <= s.len(),
        forall|j: int| k <= j < s.len() ==> spec_is_whitespace(#[trigger] s[j]),
    ensures
        trim_end(s) == trim_end(s.take(k)),
    decreases s.len() - k,
{
    if k < s.len() {
        assert(s.drop_last().take(k) == s.take(k));
        assert forall|j: int| k <= j < s.len() - 1 implies spec_is_whitespace(#[trigger] s.drop_last()[j]) by {
            assert(s.drop_last()[j] == s[j]);
        }
        lemma_trim_end_take(s.drop_last(), k);
    } else {
        assert(s.take(k) == s);
    }
}

/// The bounds, within `lo..hi`, of the trimmed text of `v[lo..hi]`.
pub fn trim_bounds(v: &Vec<char>, lo: usize, hi: usize) -> (r: (usize, usize))
    requires
        lo <= hi <= v.len(),
    ensures
        lo <= r.0 <= r.1 <= hi,
        v@.subrange(r.0 as int, r.1 as int) == trim(v@.subrange(lo as int, hi as int)),
{
    let ghost s = v@.subrange(lo as int, hi as int);
    let mut a = lo;
    while a < hi && is_whitespace(v[a])
        invariant
            lo <= a <= hi <= v.len(),
            s == v@.subrange(lo as int, hi as int),
            forall|j: int| lo <= j < a ==> spec_is_whitespace(#[trigger] v@[j]),
        decreases hi - a,
    {
        a = a + 1;
    }
    proof {
        assert forall|j: int| 0 <= j < a - lo implies spec_is_whitespace(#[trigger] s[j]) by {
            assert(s[j] == v@[lo + j]);
        }
        lemma_trim_start_skip(s, a - lo);
        assert(s.skip(a - lo) == v@.subrange(a as int, hi as int));
    }
    let ghost t = v@.subrange(a as int, hi as int);
    assert(trim_start(t) == t) by {
        if t.len() > 0 {
            assert(t[0] == v@[a as int]);
        }
    }
    let mut b = hi;
    while b > a && is_whitespace(v[b - 1])
        invariant
            lo <= a <= b <= hi <= v.len(),
            t == v@.subrange(a as int, hi as int),
            forall|j: int| b <= j < hi ==> spec_is_whitespace(#[trigger] v@[j]),
        decreases b - a,
    {
        b = b - 1;
    }
    proof {
        assert forall|j: int| b - a <= j < t.len() implies spec_is_whitespace(#[trigger] t[j]) by {
            assert(t[j] == v@[a + j]);
        }
        lemma_trim_end_take(t, b - a);
        assert(t.take(b - a) == v@.subrange(a as int, b as int));
        let u = v@.subrange(a as int, b as int);
        if u.len() > 0 {
            assert(u.last() == v@[b - 1]);
        }
        assert(trim_end(u) == u);
    }
    (a, b)
}

/// Trims leading and trailing whitespace, as `str::trim` does.
pub fn trim_str(s: &str) -> (r: String)
    ensures
        r@ == trim(s@),
{
    let v = chars_of(s);
    let (a, b) = trim_bounds(&v, 0, v.len());
    assert(v@.subrange(0, v@.len() as int) == v@);
    string_from(&v, a, b)
}


/// Index of the first `'\n'` at or after `i`, or `s.len()` when there is none.
pub open spec fn next_newline(s: Seq<char>, i: int) -> int
    decreases s.len() - i,
{
    if i >= s.len() {
        s.len() as int
    } else if s[i] == '\n' {
        i
    } else {
        next_newline(s, i + 1)
    }
}

/// Drops one trailing carriage return.
pub open spec fn strip_cr(s: Seq<char>) -> Seq<char> {
    if s.len() > 0 && s.last() == '\r' {
        s.drop_last()
    } else {
        s
    }
}

/// The lines of `s` starting at index `i`, as `str::lines` yields them: a line ends
/// at `'\n'` (with one `'\r'` before it dropped), and a final line needs no terminator.
pub open spec fn lines_from(s: Seq<char>, i: int) -> Seq<Seq<char>>
    decreases s.len() - i,
{
    if i < 0 || i >= s.len() {
        Seq::empty()
    } else {
        let j = next_newline(s, i);
        proof {
            lemma_next_newline_bounds(s, i);
        }
        if j >= s.len() {
            seq![s.subrange(i, s.len() as int)]
        } else {
            seq![strip_cr(s.subrange(i, j))] + lines_from(s, j + 1)
        }
    }
}

/// The lines of `s`, as `str::lines` yields them.
pub open spec fn lines(s: Seq<char>) -> Seq<Seq<char>> {
    lines_from(s, 0)
}

pub proof fn lemma_next_newline_bounds(s: Seq<char>, i: int)
    requires
        0 <= i <= s.len(),
    ensures
        i <= next_newline(s, i) <= s.len(),
        next_newline(s, i) < s.len() ==> s[next_newline(s, i)] == '\n',
        forall|k: int| i <= k < next_newline(s, i) ==> s[k] != '\n',
    decreases s.len() - i,
{
    if i < s.len() && s[i] != '\n' {
        lemma_next_newline_bounds(s, i + 1);
    }
}

/// Position of the first `'\n'` at or after `i`.
fn find_newline(v: &Vec<char>, i: usize) -> (j: usize)
    requires
        i <= v.len(),
    ensures
        j == next_newline(v@, i as int),
{
    let mut j = i;
    while j < v.len() && v[j] != '\n'
        invariant
            i <= j <= v.len(),
            next_newline(v@, i as int) == next_newline(v@, j as int),
        decreases v.len() - j,
    {
        j = j + 1;
    }
    j
}

/// Splits `v` into lines, as `str::lines` does.
pub fn split_lines(v: &Vec<char>) -> (r: Vec<Vec<char>>)
    ensures
        r@.len() == lines(v@).len(),
        forall|k: int| 0 <= k < r@.len() ==> (#[trigger] r@[k])@ == lines(v@)[k],
{
    let mut r: Vec<Vec<char>> = Vec::new();
    let mut i: usize = 0;
    let ghost mut done: Seq<Seq<char>> = Seq::empty();
    while i < v.len()
        invariant
            i <= v.len(),
            done + lines_from(v@, i as int) == lines(v@),
            r@.len() == done.len(),
            forall|k: int| 0 <= k < r@.len() ==> (#[trigger] r@[k])@ == done[k],
        decreases v.len() - i,
    {
        let j = find_newline(v, i);
        proof {
            lemma_next_newline_bounds(v@, i as int);
        }
        let mut line: Vec<char> = Vec::new();
        let mut k = i;
        let mut end = j;
        if j < v.len() && j > i && v[j - 1] == '\r' {
            end = j - 1;
        }
        while k < end
            invariant
                i <= k <= end <= j <= v.len(),
                line@ == v@.subrange(i as int, k as int),
            decreases end - k,
        {
            line.push(v[k]);
            assert(v@.subrange(i as int, k + 1) == v@.subrange(i as int, k as int).push(v@[k as int]));
            k = k + 1;
        }
        proof {
            let piece = v@.subrange(i as int, j as int);
            if j < v.len() {
                assert(line@ == strip_cr(piece)) by {
                    if j > i && v@[j - 1] == '\r' {
                        assert(piece.drop_last() == v@.subrange(i as int, j - 1));
                    }
                }
                assert(lines_from(v@, i as int) == seq![strip_cr(piece)] + lines_from(v@, j + 1));
                assert(done.push(line@) + lines_from(v@, j + 1) == done + lines_from(v@, i as int));
            } else {
                assert(lines_from(v@, i as int) == seq![piece]);
                assert(lines_from(v@, j as int) == Seq::<Seq<char>>::empty());
                assert(done.push(line@) + lines_from(v@, j as int) == done + lines_from(v@, i as int));
            }
            done = done.push(line@);
        }
        r.push(line);
        if j < v.len() {
            i = j + 1;
        } else {
            i = j;
        }
    }
    assert(lines_from(v@, i as int) == Seq::<Seq<char>>::empty());
    assert(done == lines(v@));
    r
}

/// Index of the first `c` at or after `i`, or `s.len()` when there is none.
pub open spec fn index_of_from(s: Seq<char>, i: int, c: char) -> int
    decreases s.len() - i,
{
    if i >= s.len() {
        s.len() as int
    } else if s[i] == c {
        i
    } else {
        index_of_from(s, i + 1, c)
    }
}

pub proof fn lemma_index_of_from(s: Seq<char>, i: int, c: char)
    requires
        0 <= i <= s.len(),
    ensures
        i <= index_of_from(s, i, c) <= s.len(),
        index_of_from(s, i, c) < s.len() ==> s[index_of_from(s, i, c)] == c,
        forall|k: int| i <= k < index_of_from(s, i, c) ==> s[k] != c,
    decreases s.len() - i,
{
    if i < s.len() && s[i] != c {
        lemma_index_of_from(s, i + 1, c);
    }
}

/// Position of the first `c` at or after `i` in `v`.
pub fn find_char(v: &Vec<char>, i: usize, c: char) -> (j: usize)
    requires
        i <= v.len(),
    ensures
        j == index_of_from(v@, i as int, c),
        i <= j <= v.len(),
{
    let mut j = i;
    while j < v.len() && v[j] != c
        invariant
            i <= j <= v.len(),
            index_of_from(v@, i as int, c) == index_of_from(v@, j as int, c),
        decreases v.len() - j,
    {
        j = j + 1;
    }
    j
}

/// Whether `p` is a prefix of `s`.
pub open spec fn starts_with(s: Seq<char>, p: Seq<char>) -> bool {
    p.len() <= s.len() && s.take(p.len() as int) == p
}

/// Whether `p` occurs in `s` as a contiguous run.
pub open spec fn contains(s: Seq<char>, p: Seq<char>) -> bool {
    exists|i: int| 0 <= i && i + p.len() <= s.len() && #[trigger] s.subrange(i, i + p.len()) == p
}

/// Whether `v[lo..]` begins with `p`.
pub fn has_prefix_at(v: &Vec<char>, lo: usize, p: &Vec<char>) -> (r: bool)
    requires
        lo <= v.len(),
    ensures
        r == starts_with(v@.skip(lo as int), p@),
{
    if p.len() > v.len() - lo {
        return false;
    }
    let mut k: usize = 0;
    while k < p.len()
        invariant
            k <= p.len(),
            lo + p.len() <= v.len(),
            forall|m: int| 0 <= m < k ==> v@[lo + m] == p@[m],
        decreases p.len() - k,
    {
        if v[lo + k] != p[k] {
            assert(v@.skip(lo as int).take(p@.len() as int)[k as int] == v@[lo + k]);
            return false;
        }
        k = k + 1;
    }
    assert(v@.skip(lo as int).take(p@.len() as int) =~= p@);
    true
}

/// Whether `v` begins with the text `p`.
pub fn has_prefix(v: &Vec<char>, p: &str) -> (r: bool)
    ensures
        r == starts_with(v@, p@),
{
    let pc = chars_of(p);
    assert(v@.skip(0) == v@);
    has_prefix_at(v, 0, &pc)
}

/// Whether `s` ends with `p`.
pub open spec fn ends_with(s: Seq<char>, p: Seq<char>) -> bool {
    p.len() <= s.len() && s.skip(s.len() - p.len()) == p
}

/// Whether `v` ends with the text `p`.
pub fn has_suffix(v: &Vec<char>, p: &str) -> (r: bool)
    ensures
        r == ends_with(v@, p@),
{
    let pc = chars_of(p);
    if pc.len() > v.len() {
        return false;
    }
    let lo = v.len() - pc.len();
    let b = has_prefix_at(v, lo, &pc);
    assert(v@.skip(lo as int).take(pc@.len() as int) =~= v@.skip(lo as int));
    b
}

/// Whether the text `p` occurs in `v`.
pub fn has_substring(v: &Vec<char>, p: &str) -> (r: bool)
    ensures
        r == contains(v@, p@),
{
    let pc = chars_of(p);
    if pc.len() > v.len() {
        return false;
    }
    if pc.len() == 0 {
        assert(v@.subrange(0, 0 + p@.len() as int) =~= p@);
        return true;
    }
    let mut i: usize = 0;
    let last = v.len() - pc.len();
    while i <= last
        invariant
            pc@ == p@,
            0 < pc.len() <= v.len(),
            last == v.len() - pc.len(),
            i <= last + 1,
            forall|k: int| 0 <= k < i ==> #[trigger] v@.subrange(k, k + pc@.len()) != pc@,
        decreases last + 1 - i,
    {
        if has_prefix_at(v, i, &pc) {
            assert(v@.skip(i as int).take(pc@.len() as int) == v@.subrange(i as int, i + pc@.len()));
            return true;
        }
        assert(v@.skip(i as int).take(pc@.len() as int) == v@.subrange(i as int, i + pc@.len()));
        i = i + 1;
    }
    assert forall|k: int| 0 <= k && k + p@.len() <= v@.len() implies #[trigger] v@.subrange(k, k + p@.len()) != p@ by {
        assert(k < i);
    }
    false
}

/// The trimmed text of `v`, as a fresh vector.
pub fn trimmed(v: &Vec<char>) -> (r: Vec<char>)
    ensures
        r@ == trim(v@),
{
    let (a, b) = trim_bounds(v, 0, v.len());
    assert(v@.subrange(0, v@.len() as int) == v@);
    let mut r: Vec<char> = Vec::new();
    let mut k = a;
    while k < b
        invariant
            a <= k <= b <= v.len(),
            r@ == v@.subrange(a as int, k as int),
        decreases b - k,
    {
        r.push(v[k]);
        assert(v@.subrange(a as int, k + 1) == v@.subrange(a as int, k as int).push(v@[k as int]));
        k = k + 1;
    }
    r
}

/// Lexicographic order of texts by character, which is the order `str::cmp` gives
/// (UTF-8 preserves the order of code points).
pub open spec fn seq_lt(a: Seq<char>, b: Seq<char>) -> bool
    decreases a.len(),
{
    if a.len() == 0 {
        b.len() > 0
    } else if b.len() == 0 {
        false
    } else if a[0] != b[0] {
        a[0] < b[0]
    } else {
        seq_lt(a.drop_first(), b.drop_first())
    }
}

/// No text comes before itself.
pub proof fn lemma_seq_lt_irreflexive(a: Seq<char>)
    ensures
        !seq_lt(a, a),
    decreases a.len(),
{
    if a.len() > 0 {
        lemma_seq_lt_irreflexive(a.drop_first());
    }
}

/// Of two different texts, one comes first; never both.
pub proof fn lemma_seq_lt_total(a: Seq<char>, b: Seq<char>)
    ensures
        a != b ==> (seq_lt(a, b) || seq_lt(b, a)),
        !(seq_lt(a, b) && seq_lt(b, a)),
    decreases a.len(),
{
    if a.len() > 0 && b.len() > 0 && a[0] == b[0] {
        lemma_seq_lt_total(a.drop_first(), b.drop_first());
        if a.drop_first() == b.drop_first() {
            assert(a == seq![a[0]] + a.drop_first());
            assert(b == seq![b[0]] + b.drop_first());
        }
    } else if a.len() == 0 && b.len() == 0 {
        assert(a == b);
    }
}

/// The order is transitive.
pub proof fn lemma_seq_lt_transitive(a: Seq<char>, b: Seq<char>, c: Seq<char>)
    requires
        seq_lt(a, b),
        seq_lt(b, c),
    ensures
        seq_lt(a, c),
    decreases a.len(),
{
    if a.len() > 0 && b.len() > 0 && c.len() > 0 && a[0] == b[0] && b[0] == c[0] {
        lemma_seq_lt_transitive(a.drop_first(), b.drop_first(), c.drop_first());
    }
}

/// Whether `a` comes before `b` in lexicographic character order.
pub fn text_lt(a: &str, b: &str) -> (r: bool)
    ensures
        r == seq_lt(a@, b@),
{
    let x = chars_of(a);
    let y = chars_of(b);
    let mut i: usize = 0;
    assert(x@.skip(0) == x@ && y@.skip(0) == y@);
    while i < x.len() && i < y.len() && x[i] == y[i]
        invariant
            i <= x.len(),
            i <= y.len(),
            x@.take(i as int) == y@.take(i as int),
            seq_lt(x@, y@) == seq_lt(x@.skip(i as int), y@.skip(i as int)),
        decreases x.len() - i,
    {
        assert(x@.skip(i as int).drop_first() == x@.skip(i + 1));
        assert(y@.skip(i as int).drop_first() == y@.skip(i + 1));
        assert(x@.take(i + 1) == x@.take(i as int).push(x@[i as int]));
        assert(y@.take(i + 1) == y@.take(i as int).push(y@[i as int]));
        i = i + 1;
    }
    assert(i < x.len() ==> x@.skip(i as int)[0] == x@[i as int]);
    assert(i < y.len() ==> y@.skip(i as int)[0] == y@[i as int]);
    if i == x.len() {
        i < y.len()
    } else if i == y.len() {
        false
    } else {
        x[i] < y[i]
    }
}

/// The texts of a list of strings.
pub open spec fn texts(v: Seq<String>) -> Seq<Seq<char>> {
    v.map_values(|s: String| s@)
}

/// The number of bytes of a character in UTF-8.
pub open spec fn char_utf8_len(c: char) -> nat {
    if (c as u32) < 0x80 {
        1
    } else if (c as u32) < 0x800 {
        2
    } else if (c as u32) < 0x10000 {
        3
    } else {
        4
    }
}

/// The number of bytes of a text in UTF-8, which is what `str::len` counts.
pub open spec fn utf8_len(s: Seq<char>) -> nat
    decreases s.len(),
{
    if s.len() == 0 {
        0
    } else {
        utf8_len(s.drop_last()) + char_utf8_len(s.last())
    }
}

/// The byte length of a character in UTF-8.
pub fn char_len_utf8(c: char) -> (r: usize)
    ensures
        r == char_utf8_len(c),
{
    let v = c as u32;
    if v < 0x80 {
        1
    } else if v < 0x800 {
        2
    } else if v < 0x10000 {
        3
    } else {
        4
    }
}

/// The byte length of a text in UTF-8, as `str::len` gives it.
pub fn byte_len(s: &str) -> (r: u128)
    ensures
        r == utf8_len(s@),
{
    let c = chars_of(s);
    let mut n: u128 = 0;
    let mut i: usize = 0;
    while i < c.len()
        invariant
            i <= c.len(),
            c@ == s@,
            n == utf8_len(c@.take(i as int)),
            n <= 4 * i,
        decreases c.len() - i,
    {
        assert(c@.take(i + 1).drop_last() == c@.take(i as int));
        n = n + char_len_utf8(c[i]) as u128;
        i = i + 1;
    }
    assert(c@.take(c@.len() as int) == c@);
    n
}

/// The ASCII lowercase of a character.
pub open spec fn ascii_lowercase(c: char) -> char {
    if 'A' <= c && c <= 'Z' {
        ((c as u32) + 32) as char
    } else {
        c
    }
}

/// Whether two texts are equal ignoring ASCII case, as `str::eq_ignore_ascii_case` tells.
pub open spec fn eq_ignore_ascii_case(a: Seq<char>, b: Seq<char>) -> bool {
    a.len() == b.len() && forall|i: int|
        0 <= i < a.len() ==> ascii_lowercase(#[trigger] a[i]) == ascii_lowercase(b[i])
}

/// Whether `a` equals `b` ignoring ASCII case.
pub fn text_eq_ignore_ascii_case(a: &Vec<char>, b: &str) -> (r: bool)
    ensures
        r == eq_ignore_ascii_case(a@, b@),
{
    let y = chars_of(b);
    if a.len() != y.len() {
        return false;
    }
    let mut i: usize = 0;
    while i < a.len()
        invariant
            i <= a.len(),
            a.len() == y.len(),
            y@ == b@,
            forall|k: int| 0 <= k < i ==> ascii_lowercase(#[trigger] a@[k]) == ascii_lowercase(y@[k]),
        decreases a.len() - i,
    {
        let x = a[i];
        let z = y[i];
        let lx = if 'A' <= x && x <= 'Z' { ((x as u32) + 32) as u8 as char } else { x };
        let lz = if 'A' <= z && z <= 'Z' { ((z as u32) + 32) as u8 as char } else { z };
        assert(lx == ascii_lowercase(x)) by {
            if 'A' <= x && x <= 'Z' {
                assert(((x as u32) + 32) as u8 as char == ((x as u32) + 32) as char);
            }
        }
        assert(lz == ascii_lowercase(z)) by {
            if 'A' <= z && z <= 'Z' {
                assert(((z as u32) + 32) as u8 as char == ((z as u32) + 32) as char);
            }
        }
        if lx != lz {
            return false;
        }
        i = i + 1;
    }
    true
}

/// Whether a character is an ASCII decimal digit.
pub open spec fn is_ascii_digit(c: char) -> bool {
    '0' <= c && c <= '9'
}

/// The value of a run of decimal digits.
pub open spec fn digits_value(s: Seq<char>) -> int
    decreases s.len(),
{
    if s.len() == 0 {
        0
    } else {
        digits_value(s.drop_last()) * 10 + (s.last() as int - '0' as int)
    }
}

/// Whether every character is a decimal digit.
pub open spec fn all_digits(d: Seq<char>) -> bool {
    forall|i: int| 0 <= i < d.len() ==> is_ascii_digit(#[trigger] d[i])
}

/// Whether `u32::from_str` accepts a text: an optional `+`, then one or more digits, of a
/// value that fits.
pub open spec fn is_u32_text(s: Seq<char>) -> bool {
    let d = if s.len() > 0 && s[0] == '+' {
        s.drop_first()
    } else {
        s
    };
    d.len() > 0 && all_digits(d) && digits_value(d) <= u32::MAX
}

/// Whether `u32::from_str` accepts the text.
pub fn parses_as_u32(s: &Vec<char>) -> (r: bool)
    ensures
        r == is_u32_text(s@),
{
    let start: usize = if s.len() > 0 && s[0] == '+' { 1 } else { 0 };
    let ghost d = if s@.len() > 0 && s@[0] == '+' { s@.drop_first() } else { s@ };
    assert(d == s@.skip(start as int));
    if start >= s.len() {
        return false;
    }
    let mut v: u64 = 0;
    let mut i = start;
    while i < s.len()
        invariant
            start <= i <= s.len(),
            d == s@.skip(start as int),
            d == (if s@.len() > 0 && s@[0] == '+' { s@.drop_first() } else { s@ }),
            all_digits(d.take(i - start)),
            digits_value(d.take(i - start)) >= 0,
            v == (if digits_value(d.take(i - start)) <= u32::MAX {
                digits_value(d.take(i - start))
            } else {
                u32::MAX + 1
            }),
        decreases s.len() - i,
    {
        let x = s[i];
        assert(d[i - start] == x);
        if !('0' <= x && x <= '9') {
            assert(!is_ascii_digit(d[i - start]));
            return false;
        }
        assert(d.take(i - start + 1).drop_last() == d.take(i - start));
        let dv = ((x as u32) - ('0' as u32)) as u64;
        v = if v > 0xffff_ffff || v * 10 + dv > 0xffff_ffff {
            0x1_0000_0000
        } else {
            v * 10 + dv
        };
        i = i + 1;
    }
    assert(d.take(d.len() as int) == d);
    v <= 0xffff_ffff
}

/// Whether `v` is exactly the text `lit`.
pub fn is_text(v: &Vec<char>, lit: &str) -> (r: bool)
    ensures
        r == (v@ == lit@),
{
    let pc = chars_of(lit);
    if pc.len() != v.len() {
        return false;
    }
    let b = has_prefix_at(v, 0, &pc);
    assert(v@.skip(0) == v@);
    proof {
        if b {
            assert(v@.take(pc@.len() as int) == v@);
        }
    }
    b
}

/// Whether the string `s` is exactly the text `lit`.
pub fn str_is(s: &str, lit: &str) -> (r: bool)
    ensures
        r == (s@ == lit@),
{
    let v = chars_of(s);
    is_text(&v, lit)
}

/// The parts joined with `sep` between them, as `[T]::join` does.
pub open spec fn join(parts: Seq<Seq<char>>, sep: Seq<char>) -> Seq<char>
    decreases parts.len(),
{
    if parts.len() == 0 {
        Seq::empty()
    } else if parts.len() == 1 {
        parts[0]
    } else {
        join(parts.drop_last(), sep) + sep + parts.last()
    }
}

/// Joins the parts with `sep` between them.
pub fn join_parts(parts: &Vec<Vec<char>>, sep: &str) -> (r: String)
    ensures
        r@ == join(parts@.map_values(|p: Vec<char>| p@), sep@),
{
    let ghost views = parts@.map_values(|p: Vec<char>| p@);
    let mut r = String::new();
    let mut i: usize = 0;
    while i < parts.len()
        invariant
            i <= parts.len(),
            views == parts@.map_values(|p: Vec<char>| p@),
            r@ == join(views.take(i as int), sep@),
        decreases parts.len() - i,
    {
        if i > 0 {
            r.append(sep);
        }
        let piece = string_of(&parts[i]);
        r.append(piece.as_str());
        proof {
            let t = views.take(i + 1);
            assert(t.drop_last() == views.take(i as int));
            assert(t.last() == parts@[i as int]@);
            if i == 0 {
                assert(t.len() == 1);
            }
        }
        i = i + 1;
    }
    assert(views.take(parts@.len() as int) == views);
    r
}

/// The text with every character mapped to lowercase, as `str::to_lowercase` does.
pub uninterp spec fn lowercase(s: Seq<char>) -> Seq<char>;

/// The text with every character mapped to uppercase, as `str::to_uppercase` does.
pub uninterp spec fn uppercase(s: Seq<char>) -> Seq<char>;

/// The ASCII uppercase of a character.
pub open spec fn ascii_uppercase(c: char) -> char {
    if 'a' <= c && c <= 'z' {
        ((c as u32) - 32) as char
    } else {
        c
    }
}

/// Whether every character of a text is ASCII.
pub open spec fn is_ascii_text(s: Seq<char>) -> bool {
    forall|i: int| 0 <= i < s.len() ==> (#[trigger] s[i] as u32) < 128
}

/// The whitespace before the first other character (all of `s` when it is blank).
pub open spec fn leading_ws(s: Seq<char>) -> Seq<char> {
    s.take(s.len() - trim_start(s).len())
}

/// The whitespace after the last other character (empty when `s` is blank).
pub open spec fn trailing_ws(s: Seq<char>) -> Seq<char> {
    trim_start(s).skip(trim(s).len() as int)
}

/// Calls `str::to_lowercase`; its result is named `lowercase` of the input text. The
/// mapping is Unicode's lowercase mapping, under which whitespace has no case: the
/// whitespace around the text stays as it is, and only the text between is mapped
/// (whitespace is neither cased nor case-ignorable, so it does not change the mapping of
/// its neighbours). An ASCII text has its letters `A`-`Z` mapped to `a`-`z` and nothing
/// else changed.
#[verifier::external_body]
pub fn to_lowercase(s: &str) -> (r: String)
    ensures
        r@ == lowercase(s@),
        r@ == leading_ws(s@) + lowercase(trim(s@)) + trailing_ws(s@),
        is_ascii_text(s@) ==> r@ == s@.map_values(|c: char| ascii_lowercase(c)),
{
    s.to_lowercase()
}

/// Calls `str::to_uppercase`; its result is named `uppercase` of the input text. An ASCII
/// text has its letters `a`-`z` mapped to `A`-`Z` and nothing else changed.
#[verifier::external_body]
pub fn to_uppercase(s: &str) -> (r: String)
    ensures
        r@ == uppercase(s@),
        is_ascii_text(s@) ==> r@ == s@.map_values(|c: char| ascii_uppercase(c)),
{
    s.to_uppercase()
}

/// Leading whitespace comes off before the first other character: `s` is its leading
/// whitespace followed by `trim_start(s)`.
pub proof fn lemma_trim_start_shape(s: Seq<char>)
    ensures
        trim_start(s).len() <= s.len(),
        trim_start(s) == s.skip(s.len() - trim_start(s).len()),
        forall|j: int| 0 <= j < s.len() - trim_start(s).len() ==> spec_is_whitespace(#[trigger] s[j]),
    decreases s.len(),
{
    if s.len() > 0 && spec_is_whitespace(s[0]) {
        lemma_trim_start_shape(s.drop_first());
        let t = s.drop_first();
        assert(t.skip(t.len() - trim_start(t).len()) == s.skip(s.len() - trim_start(t).len()));
        assert forall|j: int| 0 <= j < s.len() - trim_start(s).len() implies spec_is_whitespace(
            #[trigger] s[j],
        ) by {
            if j > 0 {
                assert(s[j] == t[j - 1]);
            }
        }
    } else {
        assert(s.skip(0) == s);
    }
}

/// Trailing whitespace comes off after the last other character: `trim_end(s)` is a
/// prefix of `s` followed only by whitespace.
pub proof fn lemma_trim_end_shape(s: Seq<char>)
    ensures
        trim_end(s).len() <= s.len(),
        trim_end(s) == s.take(trim_end(s).len() as int),
        forall|j: int| trim_end(s).len() <= j < s.len() ==> spec_is_whitespace(#[trigger] s[j]),
    decreases s.len(),
{
    if s.len() > 0 && spec_is_whitespace(s.last()) {
        lemma_trim_end_shape(s.drop_last());
        let t = s.drop_last();
        assert(t.take(trim_end(t).len() as int) == s.take(trim_end(t).len() as int));
        assert forall|j: int| trim_end(s).len() <= j < s.len() implies spec_is_whitespace(
            #[trigger] s[j],
        ) by {
            if j < s.len() - 1 {
                assert(s[j] == t[j]);
            }
        }
    } else {
        assert(s.take(s.len() as int) == s);
    }
}

/// The leading and trailing whitespace of a text are whitespace only.
pub proof fn lemma_ws_parts(s: Seq<char>)
    ensures
        forall|j: int| 0 <= j < leading_ws(s).len() ==> spec_is_whitespace(#[trigger] leading_ws(s)[j]),
        forall|j: int| 0 <= j < trailing_ws(s).len() ==> spec_is_whitespace(#[trigger] trailing_ws(s)[j]),
{
    lemma_trim_start_shape(s);
    let t = trim_start(s);
    lemma_trim_end_shape(t);
    assert forall|j: int| 0 <= j < leading_ws(s).len() implies spec_is_whitespace(
        #[trigger] leading_ws(s)[j],
    ) by {
        assert(leading_ws(s)[j] == s[j]);
    }
    assert forall|j: int| 0 <= j < trailing_ws(s).len() implies spec_is_whitespace(
        #[trigger] trailing_ws(s)[j],
    ) by {
        assert(trailing_ws(s)[j] == t[trim(s).len() + j]);
    }
}

/// Whitespace before a text does not change what trimming its start leaves.
proof fn lemma_trim_start_ws_prefix(w: Seq<char>, z: Seq<char>)
    requires
        forall|j: int| 0 <= j < w.len() ==> spec_is_whitespace(#[trigger] w[j]),
    ensures
        trim_start(w + z) == trim_start(z),
    decreases w.len(),
{
    if w.len() > 0 {
        assert((w + z)[0] == w[0]);
        assert((w + z).drop_first() == w.drop_first() + z);
        assert forall|j: int| 0 <= j < w.drop_first().len() implies spec_is_whitespace(
            #[trigger] w.drop_first()[j],
        ) by {
            assert(w.drop_first()[j] == w[j + 1]);
        }
        lemma_trim_start_ws_prefix(w.drop_first(), z);
    } else {
        assert(w + z == z);
    }
}

/// Whitespace after a text does not change what trimming its end leaves.
proof fn lemma_trim_end_ws_suffix(z: Seq<char>, w: Seq<char>)
    requires
        forall|j: int| 0 <= j < w.len() ==> spec_is_whitespace(#[trigger] w[j]),
    ensures
        trim_end(z + w) == trim_end(z),
    decreases w.len(),
{
    if w.len() > 0 {
        assert((z + w).last() == w.last());
        assert((z + w).drop_last() == z + w.drop_last());
        assert forall|j: int| 0 <= j < w.drop_last().len() implies spec_is_whitespace(
            #[trigger] w.drop_last()[j],
        ) by {
            assert(w.drop_last()[j] == w[j]);
        }
        lemma_trim_end_ws_suffix(z, w.drop_last());
    } else {
        assert(z + w == z);
    }
}

/// Whitespace after a text does not change what trimming both ends leaves.
proof fn lemma_trim_ws_suffix(y: Seq<char>, w: Seq<char>)
    requires
        forall|j: int| 0 <= j < w.len() ==> spec_is_whitespace(#[trigger] w[j]),
    ensures
        trim(y + w) == trim(y),
    decreases y.len(),
{
    if y.len() == 0 {
        assert(y + w == Seq::<char>::empty() + w);
        assert(Seq::<char>::empty() + w == w);
        lemma_trim_start_ws_prefix(w, Seq::<char>::empty());
        assert(w + Seq::<char>::empty() == w);
    } else if spec_is_whitespace(y[0]) {
        assert((y + w)[0] == y[0]);
        assert((y + w).drop_first() == y.drop_first() + w);
        lemma_trim_ws_suffix(y.drop_first(), w);
    } else {
        assert((y + w)[0] == y[0]);
        lemma_trim_end_ws_suffix(y, w);
    }
}

/// Whitespace around a text does not change what trimming leaves.
pub proof fn lemma_trim_ws_frame(a: Seq<char>, y: Seq<char>, b: Seq<char>)
    requires
        forall|j: int| 0 <= j < a.len() ==> spec_is_whitespace(#[trigger] a[j]),
        forall|j: int| 0 <= j < b.len() ==> spec_is_whitespace(#[trigger] b[j]),
    ensures
        trim(a + y + b) == trim(y),
{
    assert(a + y + b == a + (y + b));
    lemma_trim_start_ws_prefix(a, y + b);
    lemma_trim_ws_suffix(y, b);
}


/// The decimal digit character for `d` (below 10).
pub open spec fn digit_char(d: nat) -> char {
    ((48 + d) as u32) as char
}

/// The decimal text of `n`, without leading zeros.
pub open spec fn decimal(n: nat) -> Seq<char>
    decreases n,
{
    if n < 10 {
        seq![digit_char(n)]
    } else {
        decimal(n / 10).push(digit_char(n % 10))
    }
}

/// The decimal digit character for `d`.
pub fn digit(d: u8) -> (c: char)
    requires
        d < 10,
    ensures
        c == digit_char(d as nat),
{
    let b: u8 = 48 + d;
    b as char
}

/// The decimal text of `n`, as `Display` writes an integer.
pub fn decimal_string(n: u128) -> (r: String)
    ensures
        r@ == decimal(n as nat),
{
    let mut digits: Vec<char> = Vec::new();
    let mut m = n;
    let ghost mut tail: Seq<char> = Seq::empty();
    while m >= 10
        invariant
            decimal(n as nat) == decimal(m as nat) + tail,
            digits@ == tail.reverse(),
        decreases m,
    {
        let d = (m % 10) as u8;
        let c = digit(d);
        proof {
            assert(decimal(m as nat) == decimal((m / 10) as nat).push(c));
            assert(decimal(m as nat) + tail =~= decimal((m / 10) as nat) + (seq![c] + tail));
            assert((seq![c] + tail).reverse() =~= tail.reverse().push(c));
            tail = seq![c] + tail;
        }
        digits.push(c);
        m = m / 10;
    }
    let c = digit(m as u8);
    digits.push(c);
    proof {
        assert(decimal(m as nat) == seq![c]);
        tail = seq![c] + tail;
        assert(digits@ =~= tail.reverse());
    }
    let mut r = String::new();
    let mut i = digits.len();
    while i > 0
        invariant
            i <= digits.len(),
            digits@ == tail.reverse(),
            r@ == tail.take((digits@.len() - i) as int),
            decimal(n as nat) == tail,
        decreases i,
    {
        i = i - 1;
        push_char(&mut r, digits[i]);
        proof {
            assert(tail.take((digits@.len() - i) as int) =~= tail.take((digits@.len() - i - 1) as int).push(digits@[i as int]));
        }
    }
    assert(tail.take(digits@.len() as int) == tail);
    r
}

/// A signed integer in decimal, as `i64::to_string` writes it.
pub open spec fn signed_decimal(n: int) -> Seq<char> {
    if n < 0 {
        "-"@ + decimal((-n) as nat)
    } else {
        decimal(n as nat)
    }
}

/// A signed integer in decimal.
pub fn signed_decimal_string(n: i64) -> (r: String)
    ensures
        r@ == signed_decimal(n as int),
{
    if n < 0 {
        let m: u128 = (0i128 - (n as i128)) as u128;
        let d = decimal_string(m);
        let mut r = "-".to_string();
        r.append(d.as_str());
        r
    } else {
        decimal_string(n as u128)
    }
}

/// The digits of an unsigned integer text without its optional leading `+`.
pub open spec fn unsigned_digits(s: Seq<char>) -> Seq<char> {
    if s.len() > 0 && s[0] == '+' {
        s.drop_first()
    } else {
        s
    }
}

/// The value `u16::from_str` reads from a text, or 0 when it fails (as
/// `parse::<u16>().unwrap_or(0)` gives).
pub open spec fn u16_or_zero(s: Seq<char>) -> int {
    let d = unsigned_digits(s);
    if d.len() > 0 && all_digits(d) && digits_value(d) <= u16::MAX {
        digits_value(d)
    } else {
        0
    }
}

/// The value `u16::from_str` reads from a text, or 0 when it fails.
pub fn parse_u16_or_zero(s: &Vec<char>) -> (r: u16)
    ensures
        r == u16_or_zero(s@),
{
    let start: usize = if s.len() > 0 && s[0] == '+' { 1 } else { 0 };
    let ghost d = unsigned_digits(s@);
    assert(d == s@.skip(start as int));
    if start >= s.len() {
        return 0;
    }
    let mut v: u32 = 0;
    let mut i = start;
    while i < s.len()
        invariant
            start <= i <= s.len(),
            d == s@.skip(start as int),
            d == unsigned_digits(s@),
            all_digits(d.take(i - start)),
            digits_value(d.take(i - start)) >= 0,
            v == (if digits_value(d.take(i - start)) <= u16::MAX {
                digits_value(d.take(i - start))
            } else {
                u16::MAX + 1
            }),
        decreases s.len() - i,
    {
        let x = s[i];
        assert(d[i - start] == x);
        if !('0' <= x && x <= '9') {
            assert(!is_ascii_digit(d[i - start]));
            return 0;
        }
        assert(d.take(i - start + 1).drop_last() == d.take(i - start));
        let dv = (x as u32) - ('0' as u32);
        v = if v > 0xffff || v * 10 + dv > 0xffff {
            0x1_0000
        } else {
            v * 10 + dv
        };
        i = i + 1;
    }
    assert(d.take(d.len() as int) == d);
    if v <= 0xffff {
        v as u16
    } else {
        0
    }
}

/// Whether the first `n` bytes of a text in UTF-8 end on a character boundary, so that
/// `&s[..n]` does not panic.
pub open spec fn has_byte_prefix(s: Seq<char>, n: nat) -> bool {
    exists|k: int| 0 <= k <= s.len() && utf8_len(#[trigger] s.take(k)) == n
}

/// The characters making up the first `n` bytes of a text.
pub open spec fn byte_prefix(s: Seq<char>, n: nat) -> Seq<char> {
    s.take(choose|k: int| 0 <= k <= s.len() && utf8_len(#[trigger] s.take(k)) == n)
}

/// Byte lengths of prefixes grow with the prefix.
pub proof fn lemma_utf8_len_prefix_grows(s: Seq<char>, i: int, j: int)
    requires
        0 <= i <= j <= s.len(),
    ensures
        utf8_len(s.take(i)) <= utf8_len(s.take(j)),
        i < j ==> utf8_len(s.take(i)) < utf8_len(s.take(j)),
    decreases j - i,
{
    if i < j {
        lemma_utf8_len_prefix_grows(s, i, j - 1);
        assert(s.take(j).drop_last() == s.take(j - 1));
    }
}

/// `&s[..n]`: the text made of the first `n` bytes.
pub fn prefix_bytes(s: &str, n: u128) -> (r: String)
    requires
        has_byte_prefix(s@, n as nat),
    ensures
        r@ == byte_prefix(s@, n as nat),
{
    let c = chars_of(s);
    let mut r = String::new();
    let mut len: u128 = 0;
    let mut i: usize = 0;
    let ghost k = choose|k: int| 0 <= k <= s@.len() && utf8_len(#[trigger] s@.take(k)) == n;
    while len < n
        invariant
            c@ == s@,
            0 <= k <= s@.len(),
            s@.len() == c.len(),
            utf8_len(s@.take(k)) == n,
            i <= k,
            len == utf8_len(s@.take(i as int)),
            r@ == s@.take(i as int),
        decreases k - i,
    {
        proof {
            if i == k {
                assert(false);
            }
        }
        assert(i < k);
        assert(s@.take(i + 1).drop_last() == s@.take(i as int));
        assert(s@.take(i + 1) == s@.take(i as int).push(c@[i as int]));
        proof {
            lemma_utf8_len_prefix_grows(s@, i + 1, k);
        }
        push_char(&mut r, c[i]);
        len = len + char_len_utf8(c[i]) as u128;
        i = i + 1;
    }
    proof {
        if i < k {
            lemma_utf8_len_prefix_grows(s@, i as int, k);
        }
    }
    assert(i == k);
    r
}

/// `&s[..n]` when `n` falls on a character boundary within `s`, else `None`.
pub fn try_prefix_bytes(s: &str, n: u128) -> (r: Option<String>)
    ensures
        r is Some <==> has_byte_prefix(s@, n as nat),
        r matches Some(p) ==> p@ == byte_prefix(s@, n as nat),
{
    let c = chars_of(s);
    let mut r = String::new();
    let mut len: u128 = 0;
    let mut i: usize = 0;
    while len < n && i < c.len()
        invariant
            c@ == s@,
            i <= c.len(),
            len == utf8_len(s@.take(i as int)),
            len <= 4 * i,
            r@ == s@.take(i as int),
            forall|j: int| 0 <= j < i ==> utf8_len(#[trigger] s@.take(j)) < n,
        decreases c.len() - i,
    {
        assert(s@.take(i + 1).drop_last() == s@.take(i as int));
        assert(s@.take(i + 1) == s@.take(i as int).push(c@[i as int]));
        push_char(&mut r, c[i]);
        len = len + char_len_utf8(c[i]) as u128;
        i = i + 1;
    }
    if len == n {
        assert(utf8_len(s@.take(i as int)) == n as nat);
        let ghost k = choose|k: int| 0 <= k <= s@.len() && utf8_len(#[trigger] s@.take(k)) == n as nat;
        proof {
            if k < i {
                lemma_utf8_len_prefix_grows(s@, k, i as int);
            } else if k > i {
                lemma_utf8_len_prefix_grows(s@, i as int, k);
            }
        }
        Some(r)
    } else {
        proof {
            assert forall|k: int| 0 <= k <= s@.len() implies utf8_len(#[trigger] s@.take(k)) != n as nat by {
                if k > i {
                    lemma_utf8_len_prefix_grows(s@, i as int, k);
                }
            }
        }
        None
    }
}

/// Appends one line.
pub fn push_text(lines: &mut Vec<String>, line: String)
    ensures
        texts(final(lines)@) == texts(old(lines)@).push(line@),
{
    lines.push(line);
    assert(texts(lines@) =~= texts(old(lines)@).push(line@));
}

/// Appends lines.
pub fn push_texts(lines: &mut Vec<String>, more: Vec<String>)
    ensures
        texts(final(lines)@) == texts(old(lines)@) + texts(more@),
{
    let mut i: usize = 0;
    while i < more.len()
        invariant
            i <= more.len(),
            texts(lines@) == texts(old(lines)@) + texts(more@).take(i as int),
        decreases more.len() - i,
    {
        let ghost before = texts(lines@);
        push_text(lines, more[i].clone());
        assert(texts(more@).take(i + 1) == texts(more@).take(i as int).push(more@[i as int]@));
        assert(before.push(more@[i as int]@) =~= texts(old(lines)@) + texts(more@).take(i + 1));
        i = i + 1;
    }
    assert(texts(more@).take(more@.len() as int) == texts(more@));
}

} // verus!
