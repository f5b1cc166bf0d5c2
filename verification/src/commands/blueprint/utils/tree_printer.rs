//! Drawing a directory as a tree, in the manner of the `tree` command.
//!
//! The walk is a state machine: [`TreeWalk::advance`] decides what to print next and when a
//! directory has to be read; whoever drives it reads that directory and hands the entries
//! back with [`TreeWalk::enter`].

use crate::text::{
    chars_of, lemma_seq_lt_total, lemma_seq_lt_transitive, seq_lt, str_is, text_lt, texts,
};
use vstd::multiset::Multiset;
use crate::order::{insert_stable, lemma_insert_stable_split, lemma_stable_sort_sorted, stable_sort};
use vstd::prelude::*;

verus! {

/// One entry of a directory, as the walk sees it.
pub struct TreeEntry {
    /// The entry's file name.
    pub name: String,
    /// Whether the entry is a directory.
    pub is_dir: bool,
    /// The path by which the entry is read.
    pub path: String,
    /// The entry's canonical path, when it could be resolved.
    pub canonical: Option<String>,
}

/// The value of a [`TreeEntry`].
pub struct EntryModel {
    pub name: Seq<char>,
    pub is_dir: bool,
    pub path: Seq<char>,
    pub canonical: Option<Seq<char>>,
}

/// The text of an optional string.
pub open spec fn opt_view(o: Option<String>) -> Option<Seq<char>> {
    match o {
        Some(s) => Some(s@),
        None => None,
    }
}

impl View for TreeEntry {
    type V = EntryModel;

    open spec fn view(&self) -> EntryModel {
        EntryModel {
            name: self.name@,
            is_dir: self.is_dir,
            path: self.path@,
            canonical: opt_view(self.canonical),
        }
    }
}

/// The values of a list of entries.
pub open spec fn entry_models(v: Seq<TreeEntry>) -> Seq<EntryModel> {
    v.map_values(|e: TreeEntry| e@)
}

/// Hidden entries are those whose name starts with `.`.
pub open spec fn is_hidden(name: Seq<char>) -> bool {
    name.len() > 0 && name[0] == '.'
}

/// The entries that are not hidden, in their order.
pub open spec fn visible(s: Seq<EntryModel>) -> Seq<EntryModel>
    decreases s.len(),
{
    if s.len() == 0 {
        s
    } else if is_hidden(s.last().name) {
        visible(s.drop_last())
    } else {
        visible(s.drop_last()).push(s.last())
    }
}

/// Whether `a` may be listed before `b`: directories before files, and within each kind
/// by name.
pub open spec fn entry_le(a: EntryModel, b: EntryModel) -> bool {
    if a.is_dir != b.is_dir {
        a.is_dir
    } else {
        !seq_lt(b.name, a.name)
    }
}

/// A listing in display order, without hidden entries.
pub open spec fn arranged(s: Seq<EntryModel>) -> bool {
    &&& forall|i: int, j: int| 0 <= i < j < s.len() ==> #[trigger] entry_le(s[i], s[j])
    &&& forall|i: int| 0 <= i < s.len() ==> !is_hidden(#[trigger] s[i].name)
}

/// Of any two entries one may come first.
pub proof fn lemma_entry_le_total(a: EntryModel, b: EntryModel)
    ensures
        entry_le(a, b) || entry_le(b, a),
{
    lemma_seq_lt_total(a.name, b.name);
}

/// The display order is transitive.
pub proof fn lemma_entry_le_transitive(a: EntryModel, b: EntryModel, c: EntryModel)
    requires
        entry_le(a, b),
        entry_le(b, c),
    ensures
        entry_le(a, c),
{
    lemma_seq_lt_total(a.name, b.name);
    lemma_seq_lt_total(b.name, c.name);
    lemma_seq_lt_total(a.name, c.name);
    if a.is_dir == b.is_dir && b.is_dir == c.is_dir {
        if seq_lt(c.name, a.name) {
            if a.name == b.name {
                assert(seq_lt(c.name, b.name));
            } else if b.name == c.name {
                assert(seq_lt(b.name, a.name));
            } else {
                lemma_seq_lt_transitive(a.name, b.name, c.name);
            }
        }
    }
}

/// A copy of an entry.
fn copy_entry(e: &TreeEntry) -> (r: TreeEntry)
    ensures
        r@ == e@,
{
    let canonical = match &e.canonical {
        Some(c) => Some(c.clone()),
        None => None,
    };
    TreeEntry { name: e.name.clone(), is_dir: e.is_dir, path: e.path.clone(), canonical }
}

/// Whether a name is hidden.
fn hidden_name(name: &str) -> (r: bool)
    ensures
        r == is_hidden(name@),
{
    let c = chars_of(name);
    c.len() > 0 && c[0] == '.'
}

/// Whether `a` may be listed before `b`.
fn listed_before(a: &TreeEntry, b: &TreeEntry) -> (r: bool)
    ensures
        r == entry_le(a@, b@),
{
    if a.is_dir != b.is_dir {
        a.is_dir
    } else {
        !text_lt(b.name.as_str(), a.name.as_str())
    }
}

/// Hidden entries never survive into the visible ones.
pub proof fn lemma_visible_not_hidden(s: Seq<EntryModel>)
    ensures
        forall|i: int| 0 <= i < visible(s).len() ==> !is_hidden(#[trigger] visible(s)[i].name),
    decreases s.len(),
{
    if s.len() > 0 {
        lemma_visible_not_hidden(s.drop_last());
    }
}

/// The entries of a directory in display order: hidden entries left out, directories
/// first, then files, each group by name; entries that compare equal keep the order in
/// which the directory was read.
pub fn arrange_entries(raw: &Vec<TreeEntry>) -> (r: Vec<TreeEntry>)
    ensures
        entry_models(r@) == stable_sort(
            visible(entry_models(raw@)),
            |a: EntryModel, b: EntryModel| entry_le(a, b),
        ),
        arranged(entry_models(r@)),
        entry_models(r@).to_multiset() == visible(entry_models(raw@)).to_multiset(),
{
    broadcast use vstd::seq_lib::group_to_multiset_ensures;

    let ghost le = |a: EntryModel, b: EntryModel| entry_le(a, b);
    let ghost all = entry_models(raw@);
    let mut out: Vec<TreeEntry> = Vec::new();
    let mut i: usize = 0;
    assert(all.take(0) =~= Seq::<EntryModel>::empty());
    assert(entry_models(out@) =~= Seq::<EntryModel>::empty());
    while i < raw.len()
        invariant
            i <= raw.len(),
            all == entry_models(raw@),
            le == (|a: EntryModel, b: EntryModel| entry_le(a, b)),
            entry_models(out@) == stable_sort(visible(all.take(i as int)), le),
        decreases raw.len() - i,
    {
        assert(all.take(i + 1).drop_last() == all.take(i as int));
        assert(all.take(i + 1).last() == all[i as int]);
        if !hidden_name(raw[i].name.as_str()) {
            let x = copy_entry(&raw[i]);
            let ghost xm = x@;
            let ghost s = entry_models(out@);
            let ghost v = visible(all.take(i as int));
            let mut j = out.len();
            while j > 0 && !listed_before(&out[j - 1], &x)
                invariant
                    j <= out.len(),
                    s == entry_models(out@),
                    xm == x@,
                    le == (|a: EntryModel, b: EntryModel| entry_le(a, b)),
                    forall|t: int| j <= t < s.len() ==> !le(#[trigger] s[t], xm),
                decreases j,
            {
                j = j - 1;
            }
            proof {
                lemma_insert_stable_split(s, xm, le, j as int);
                if j > 0 {
                    assert(s[j - 1] == out@[j - 1]@);
                    assert(le(s.take(j as int).last(), xm));
                }
                assert(insert_stable(s.take(j as int), xm, le) == s.take(j as int).push(xm));
                assert(visible(all.take(i + 1)) == v.push(xm));
                assert(v.push(xm).drop_last() =~= v);
                assert(stable_sort(v.push(xm), le) == insert_stable(stable_sort(v, le), xm, le));
            }
            out.insert(j, x);
            assert(entry_models(out@) =~= s.take(j as int).push(xm) + s.skip(j as int));
        } else {
            assert(visible(all.take(i + 1)) == visible(all.take(i as int)));
        }
        i = i + 1;
    }
    assert(all.take(raw.len() as int) == all);
    proof {
        assert forall|a: EntryModel, b: EntryModel| #[trigger] le(a, b) || le(b, a) by {
            lemma_entry_le_total(a, b);
        }
        assert forall|a: EntryModel, b: EntryModel, c: EntryModel|
            #[trigger] le(a, b) && #[trigger] le(b, c) implies le(a, c) by {
            lemma_entry_le_transitive(a, b, c);
        }
        lemma_stable_sort_sorted(visible(all), le);
        lemma_visible_not_hidden(all);
        let r = entry_models(out@);
        assert forall|i: int, j: int| 0 <= i < j < r.len() implies #[trigger] entry_le(r[i], r[j]) by {
            assert(le(r[i], r[j]));
        }
        assert forall|i: int| 0 <= i < r.len() implies !is_hidden(#[trigger] r[i].name) by {
            assert(r.to_multiset().count(r[i]) > 0);
            assert(visible(all).to_multiset().count(r[i]) > 0);
            assert(visible(all).contains(r[i]));
            let t = choose|t: int| 0 <= t < visible(all).len() && visible(all)[t] == r[i];
            assert(!is_hidden(visible(all)[t].name));
        }
    }
    out
}

/// `├── `: the connector of an entry that has a sibling below it.
pub open spec fn tee() -> Seq<char> {
    "├── "@
}

/// `└── `: the connector of the last entry of a directory.
pub open spec fn elbow() -> Seq<char> {
    "└── "@
}

/// `│   `: the indentation under an entry that has a sibling below it.
pub open spec fn pipe() -> Seq<char> {
    "│   "@
}

/// Four spaces: the indentation under the last entry of a directory.
pub open spec fn spacer() -> Seq<char> {
    "    "@
}

/// Text shown in bold on a terminal.
pub open spec fn bold(s: Seq<char>) -> Seq<char> {
    "\x1b[1m"@ + s + "\x1b[0m"@
}

/// The indentation for a depth: one unit per enclosing directory, a pipe where that
/// directory had a sibling below it and a spacer where it was the last.
pub open spec fn prefix_text(units: Seq<bool>) -> Seq<char>
    decreases units.len(),
{
    if units.len() == 0 {
        Seq::empty()
    } else {
        prefix_text(units.drop_last()) + (if units.last() {
            pipe()
        } else {
            spacer()
        })
    }
}

/// The line of one entry.
pub open spec fn entry_line(units: Seq<bool>, last: bool, e: EntryModel) -> Seq<char> {
    prefix_text(units) + (if last {
        elbow()
    } else {
        tee()
    }) + (if e.is_dir {
        bold(e.name)
    } else {
        e.name
    }) + "\n"@
}

/// The units with the trailing ones equal to `unit` removed.
pub open spec fn strip_trailing(units: Seq<bool>, unit: bool) -> Seq<bool>
    decreases units.len(),
{
    if units.len() > 0 && units.last() == unit {
        strip_trailing(units.drop_last(), unit)
    } else {
        units
    }
}

/// The line shown under a directory that was already walked: the indentation with its
/// trailing pipes and then its trailing spacers removed, one spacer, and the marker.
pub open spec fn cycle_line(units: Seq<bool>) -> Seq<char> {
    prefix_text(strip_trailing(strip_trailing(units, true), false)) + spacer() + elbow()
        + " -> [CYCLE DETECTED]\n"@
}

/// The first line: the root's display name, bold, with a slash.
pub open spec fn root_line(name: Seq<char>) -> Seq<char> {
    bold(name + "/"@) + "\n"@
}

/// A directory being listed: its entries in display order and the index of the next one.
pub struct FrameModel {
    pub entries: Seq<EntryModel>,
    pub next: int,
}

/// The state of a walk.
pub struct WalkModel {
    /// The directories being listed, outermost first.
    pub frames: Seq<FrameModel>,
    /// The indentation units of the current depth.
    pub prefix: Seq<bool>,
    /// The canonical paths of the directories walked so far.
    pub visited: Seq<Seq<char>>,
    /// The text drawn so far.
    pub output: Seq<char>,
    /// Whether the walk waits for the entries of a directory.
    pub pending: bool,
}

/// What the walk needs next.
pub enum StepModel {
    Read(Seq<char>),
    Continue,
    Finished,
}

/// The states a walk can be in: one indentation unit per enclosing directory (one more
/// while a directory's entries are awaited), each listing in display order and its next
/// index within it.
pub open spec fn walk_wf(m: WalkModel) -> bool {
    &&& if m.pending {
        m.prefix.len() == m.frames.len()
    } else {
        (m.frames.len() == 0 && m.prefix.len() == 0) || m.prefix.len() + 1 == m.frames.len()
    }
    &&& forall|k: int|
        0 <= k < m.frames.len() ==> 0 <= (#[trigger] m.frames[k]).next <= m.frames[k].entries.len()
            && arranged(m.frames[k].entries)
}

/// One step of the walk. At the end of a listing the walk goes back up one level (and
/// finishes after the root's). Otherwise it draws the next entry; under a directory it
/// draws the cycle marker when the directory's canonical path was walked already, and
/// else records that path and asks for the directory's entries.
pub open spec fn walk_next(m: WalkModel) -> (WalkModel, StepModel) {
    if m.frames.len() == 0 {
        (m, StepModel::Finished)
    } else {
        let top = m.frames.last();
        if top.next >= top.entries.len() {
            let frames = m.frames.drop_last();
            if frames.len() == 0 {
                (
                    WalkModel {
                        frames,
                        prefix: m.prefix,
                        visited: m.visited,
                        output: m.output,
                        pending: m.pending,
                    },
                    StepModel::Finished,
                )
            } else {
                (
                    WalkModel {
                        frames,
                        prefix: m.prefix.drop_last(),
                        visited: m.visited,
                        output: m.output,
                        pending: m.pending,
                    },
                    StepModel::Continue,
                )
            }
        } else {
            let e = top.entries[top.next];
            let last = top.next == top.entries.len() - 1;
            let frames = m.frames.update(
                m.frames.len() - 1,
                FrameModel { entries: top.entries, next: top.next + 1 },
            );
            let output = m.output + entry_line(m.prefix, last, e);
            if !e.is_dir {
                (
                    WalkModel { frames, prefix: m.prefix, visited: m.visited, output, pending: false },
                    StepModel::Continue,
                )
            } else {
                let units = m.prefix.push(!last);
                if e.canonical is Some && m.visited.contains(e.canonical->0) {
                    (
                        WalkModel {
                            frames,
                            prefix: m.prefix,
                            visited: m.visited,
                            output: output + cycle_line(units),
                            pending: false,
                        },
                        StepModel::Continue,
                    )
                } else {
                    let visited = if e.canonical is Some {
                        m.visited.push(e.canonical->0)
                    } else {
                        m.visited
                    };
                    (
                        WalkModel { frames, prefix: units, visited, output, pending: true },
                        StepModel::Read(e.path),
                    )
                }
            }
        }
    }
}

/// What the walk needs next.
pub enum WalkStep {
    /// The entries of the directory at this path.
    Read(String),
    /// Nothing; advance again.
    Continue,
    /// Nothing more; the drawing is complete.
    Finished,
}

impl View for WalkStep {
    type V = StepModel;

    open spec fn view(&self) -> StepModel {
        match self {
            WalkStep::Read(p) => StepModel::Read(p@),
            WalkStep::Continue => StepModel::Continue,
            WalkStep::Finished => StepModel::Finished,
        }
    }
}

/// A directory being listed.
struct Frame {
    entries: Vec<TreeEntry>,
    next: usize,
}

impl View for Frame {
    type V = FrameModel;

    closed spec fn view(&self) -> FrameModel {
        FrameModel { entries: entry_models(self.entries@), next: self.next as int }
    }
}

/// A walk over a directory tree that draws it as text.
pub struct TreeWalk {
    frames: Vec<Frame>,
    prefix: Vec<bool>,
    visited: Vec<String>,
    output: String,
    pending: bool,
}

impl View for TreeWalk {
    type V = WalkModel;

    closed spec fn view(&self) -> WalkModel {
        WalkModel {
            frames: self.frames@.map_values(|f: Frame| f@),
            prefix: self.prefix@,
            visited: texts(self.visited@),
            output: self.output@,
            pending: self.pending,
        }
    }
}

/// Appends the indentation for `units`.
fn write_prefix(out: &mut String, units: &Vec<bool>, n: usize)
    requires
        n <= units.len(),
    ensures
        final(out)@ == old(out)@ + prefix_text(units@.take(n as int)),
{
    let mut k: usize = 0;
    while k < n
        invariant
            k <= n <= units.len(),
            out@ == old(out)@ + prefix_text(units@.take(k as int)),
        decreases n - k,
    {
        assert(units@.take(k + 1).drop_last() == units@.take(k as int));
        if units[k] {
            out.append("│   ");
        } else {
            out.append("    ");
        }
        k = k + 1;
    }
}

/// Appends the line of one entry.
fn write_entry_line(out: &mut String, units: &Vec<bool>, last: bool, e: &TreeEntry)
    ensures
        final(out)@ == old(out)@ + entry_line(units@, last, e@),
{
    write_prefix(out, units, units.len());
    assert(units@.take(units@.len() as int) == units@);
    if last {
        out.append("└── ");
    } else {
        out.append("├── ");
    }
    if e.is_dir {
        out.append("\x1b[1m");
        out.append(e.name.as_str());
        out.append("\x1b[0m");
    } else {
        out.append(e.name.as_str());
    }
    out.append("\n");
}

/// The length of the first `n` units once their trailing `unit`s are removed.
fn strip_len(units: &Vec<bool>, n: usize, unit: bool) -> (k: usize)
    requires
        n <= units.len(),
    ensures
        k <= n,
        strip_trailing(units@.take(n as int), unit) == units@.take(k as int),
{
    let mut k = n;
    while k > 0 && units[k - 1] == unit
        invariant
            k <= n <= units.len(),
            strip_trailing(units@.take(n as int), unit) == strip_trailing(units@.take(k as int), unit),
        decreases k,
    {
        assert(units@.take(k as int).drop_last() == units@.take(k - 1));
        k = k - 1;
    }
    k
}

/// Appends the cycle marker line.
fn write_cycle_line(out: &mut String, units: &Vec<bool>)
    ensures
        final(out)@ == old(out)@ + cycle_line(units@),
{
    assert(units@.take(units.len() as int) == units@);
    let k1 = strip_len(units, units.len(), true);
    let k2 = strip_len(units, k1, false);
    write_prefix(out, units, k2);
    out.append("    ");
    out.append("└── ");
    out.append(" -> [CYCLE DETECTED]\n");
}

/// Whether `s` is among the texts of `v`.
fn contains_text(v: &Vec<String>, s: &String) -> (r: bool)
    ensures
        r == texts(v@).contains(s@),
{
    let mut i: usize = 0;
    while i < v.len()
        invariant
            i <= v.len(),
            forall|k: int| 0 <= k < i ==> texts(v@)[k] != s@,
        decreases v.len() - i,
    {
        if str_is(v[i].as_str(), s.as_str()) {
            assert(texts(v@)[i as int] == s@);
            return true;
        }
        i = i + 1;
    }
    false
}

impl TreeWalk {
    /// A walk that has drawn the root's line and waits for the root's entries. The
    /// root's canonical path, when known, counts as walked.
    pub fn start(display_name: &str, root_canonical: Option<String>) -> (r: TreeWalk)
        ensures
            walk_wf(r@),
            r@ == (WalkModel {
                frames: Seq::empty(),
                prefix: Seq::empty(),
                visited: match opt_view(root_canonical) {
                    Some(c) => seq![c],
                    None => Seq::empty(),
                },
                output: root_line(display_name@),
                pending: true,
            }),
    {
        let mut output = String::new();
        output.append("\x1b[1m");
        output.append(display_name);
        output.append("/");
        output.append("\x1b[0m");
        output.append("\n");
        let mut visited: Vec<String> = Vec::new();
        match root_canonical {
            Some(c) => visited.push(c),
            None => {},
        }
        let r = TreeWalk { frames: Vec::new(), prefix: Vec::new(), visited, output, pending: true };
        assert(r@.frames =~= Seq::<FrameModel>::empty());
        assert(r@.prefix =~= Seq::<bool>::empty());
        assert(r@.output =~= root_line(display_name@));
        assert(r@.visited == match opt_view(root_canonical) {
            Some(c) => seq![c],
            None => Seq::<Seq<char>>::empty(),
        });
        r
    }

    /// Hands over the entries of the directory the walk asked for.
    pub fn enter(&mut self, listing: &Vec<TreeEntry>)
        requires
            walk_wf(old(self)@),
            old(self)@.pending,
        ensures
            walk_wf(final(self)@),
            !final(self)@.pending,
            final(self)@.frames.drop_last() == old(self)@.frames,
            final(self)@.frames.len() == old(self)@.frames.len() + 1,
            final(self)@.frames.last().next == 0,
            final(self)@.frames.last().entries == stable_sort(
                visible(entry_models(listing@)),
                |a: EntryModel, b: EntryModel| entry_le(a, b),
            ),
            arranged(final(self)@.frames.last().entries),
            final(self)@.frames.last().entries.to_multiset() == visible(
                entry_models(listing@),
            ).to_multiset(),
            final(self)@.prefix == old(self)@.prefix,
            final(self)@.visited == old(self)@.visited,
            final(self)@.output == old(self)@.output,
    {
        let entries = arrange_entries(listing);
        let ghost before = self.frames@;
        self.frames.push(Frame { entries, next: 0 });
        self.pending = false;
        assert(self@.frames.drop_last() == before.map_values(|f: Frame| f@));
        assert forall|k: int| 0 <= k < self@.frames.len() implies 0 <= (#[trigger] self@.frames[k]).next
            <= self@.frames[k].entries.len() && arranged(self@.frames[k].entries) by {
            if k < before.len() {
                assert(self@.frames[k] == old(self)@.frames[k]);
            }
        }
    }

    /// The text drawn so far.
    pub fn output(&self) -> (r: &String)
        ensures
            r@ == self@.output,
    {
        &self.output
    }

    /// Takes one step of the walk (see [`walk_next`]).
    pub fn advance(&mut self) -> (r: WalkStep)
        requires
            walk_wf(old(self)@),
            !old(self)@.pending,
        ensures
            walk_wf(final(self)@),
            (final(self)@, r@) == walk_next(old(self)@),
    {
        let ghost m = self@;
        if self.frames.len() == 0 {
            return WalkStep::Finished;
        }
        let ghost fs = self.frames@;
        let mut top = self.frames.pop().unwrap();
        assert(self.frames@ == fs.drop_last());
        assert(self@.frames == m.frames.drop_last());
        assert(top@ == m.frames.last());
        if top.next >= top.entries.len() {
            if self.frames.len() == 0 {
                return WalkStep::Finished;
            }
            self.prefix.pop();
            assert(self@.prefix == m.prefix.drop_last());
            return WalkStep::Continue;
        }
        let i = top.next;
        let last = i + 1 == top.entries.len();
        let e = copy_entry(&top.entries[i]);
        assert(e@ == m.frames.last().entries[i as int]);
        top.next = i + 1;
        self.frames.push(top);
        assert(self@.frames == m.frames.update(
            m.frames.len() - 1,
            FrameModel { entries: m.frames.last().entries, next: m.frames.last().next + 1 },
        ));
        write_entry_line(&mut self.output, &self.prefix, last, &e);
        if !e.is_dir {
            return WalkStep::Continue;
        }
        let ghost old_prefix = self.prefix@;
        self.prefix.push(!last);
        match e.canonical {
            Some(c) => {
                if contains_text(&self.visited, &c) {
                    write_cycle_line(&mut self.output, &self.prefix);
                    self.prefix.pop();
                    assert(self.prefix@ == old_prefix);
                    return WalkStep::Continue;
                }
                let ghost old_visited = self.visited@;
                self.visited.push(c);
                assert(texts(self.visited@) == texts(old_visited).push(c@));
            },
            None => {},
        }
        self.pending = true;
        WalkStep::Read(e.path)
    }
}

/// Why a path cannot be drawn as a tree: it does not exist, or it is not a directory.
pub open spec fn tree_root_error(path: Seq<char>, exists: bool, is_dir: bool) -> Option<Seq<char>> {
    if !exists {
        Some("Cannot print tree: Path '"@ + path + "' does not exist."@)
    } else if !is_dir {
        Some("Cannot print tree: Path '"@ + path + "' is not a directory."@)
    } else {
        None
    }
}

/// Checks that the root of a tree can be drawn.
pub fn check_tree_root(path: &str, exists: bool, is_dir: bool) -> (r: Result<(), String>)
    ensures
        match r {
            Ok(()) => tree_root_error(path@, exists, is_dir) is None,
            Err(m) => tree_root_error(path@, exists, is_dir) == Some(m@),
        },
{
    if exists && is_dir {
        return Ok(());
    }
    let mut m = String::new();
    m.append("Cannot print tree: Path '");
    m.append(path);
    if !exists {
        m.append("' does not exist.");
    } else {
        m.append("' is not a directory.");
    }
    Err(m)
}

/// Whether no path occurs twice.
pub open spec fn no_repeats(s: Seq<Seq<char>>) -> bool {
    forall|i: int, j: int| 0 <= i < j < s.len() ==> s[i] != s[j]
}

/// Each step of the walk only adds to the drawing and to the walked paths, and never
/// records a directory's canonical path twice, so no directory is listed twice.
pub proof fn lemma_walk_grows(m: WalkModel)
    ensures
        m.output.len() <= walk_next(m).0.output.len(),
        walk_next(m).0.output.take(m.output.len() as int) == m.output,
        m.visited.len() <= walk_next(m).0.visited.len(),
        walk_next(m).0.visited.take(m.visited.len() as int) == m.visited,
        no_repeats(m.visited) ==> no_repeats(walk_next(m).0.visited),
{
    let n = walk_next(m).0;
    assert(n.output.take(m.output.len() as int) =~= m.output);
    assert(n.visited.take(m.visited.len() as int) =~= m.visited);
    if no_repeats(m.visited) && n.visited.len() > m.visited.len() {
        let p = n.visited.last();
        assert(!m.visited.contains(p));
        assert forall|i: int, j: int| 0 <= i < j < n.visited.len() implies n.visited[i]
            != n.visited[j] by {
            if j == m.visited.len() {
                assert(n.visited[i] == m.visited[i]);
            } else {
                assert(n.visited[i] == m.visited[i] && n.visited[j] == m.visited[j]);
            }
        }
    }
}

/// Begins drawing the tree of the directory `root_path` under the label `display_name`:
/// refuses a root that does not exist or is no directory, and otherwise returns the walk
/// with the label's line drawn and the root's canonical path (when it has one) marked as
/// walked. The caller hands it the root's entries with `enter`, then calls `advance`,
/// handing over the entries of each directory it asks for, until it reports `Finished`;
/// `output` is then the whole drawing.
pub fn print_directory_tree_to_string(
    root_path: &str,
    exists: bool,
    is_dir: bool,
    display_name: &str,
    root_canonical: Option<String>,
) -> (r: Result<TreeWalk, String>)
    ensures
        match r {
            Ok(w) => tree_root_error(root_path@, exists, is_dir) is None && walk_wf(w@) && w@
                == (WalkModel {
                frames: Seq::empty(),
                prefix: Seq::empty(),
                visited: match opt_view(root_canonical) {
                    Some(c) => seq![c],
                    None => Seq::empty(),
                },
                output: root_line(display_name@),
                pending: true,
            }),
            Err(m) => tree_root_error(root_path@, exists, is_dir) == Some(m@),
        },
{
    match check_tree_root(root_path, exists, is_dir) {
        Ok(()) => Ok(TreeWalk::start(display_name, root_canonical)),
        Err(m) => Err(m),
    }
}

/// The work left in the listings being walked: the entries not yet drawn, and one for
/// closing each listing.
pub open spec fn work_left(fs: Seq<FrameModel>) -> int
    decreases fs.len(),
{
    if fs.len() == 0 {
        0
    } else {
        work_left(fs.drop_last()) + (fs.last().entries.len() - fs.last().next) + 1
    }
}

/// Whether every directory among the listings being walked has a canonical path.
pub open spec fn dirs_resolved(m: WalkModel) -> bool {
    forall|k: int, j: int|
        0 <= k < m.frames.len() && 0 <= j < m.frames[k].entries.len()
            && (#[trigger] m.frames[k].entries[j]).is_dir ==> m.frames[k].entries[j].canonical is Some
}

/// The walk always moves forward. A step either finishes it, or asks for a directory whose
/// canonical path it records as walked for the first time, or draws an entry or closes a
/// listing and so leaves strictly less work in the listings, recording nothing. (Given
/// resolved directories.) So over a file system with finitely many directories the walk
/// ends, each directory listed at most once.
pub proof fn lemma_walk_progress(m: WalkModel)
    requires
        walk_wf(m),
        !m.pending,
        dirs_resolved(m),
    ensures
        ({
            let (n, s) = walk_next(m);
            &&& s is Finished ==> n.frames.len() == 0
            &&& s is Read ==> n.visited.len() == m.visited.len() + 1 && n.visited.drop_last()
                == m.visited && !m.visited.contains(n.visited.last()) && n.pending
            &&& s is Continue ==> n.visited == m.visited && 0 <= work_left(n.frames) < work_left(
                m.frames,
            ) && !n.pending
        }),
{
    let (n, s) = walk_next(m);
    if m.frames.len() > 0 {
        let l = m.frames.len() - 1;
        let top = m.frames[l];
        assert(m.frames.last() == top);
        assert(0 <= top.next <= top.entries.len());
        lemma_work_left_nonneg(m.frames.drop_last());
        if top.next >= top.entries.len() {
            assert(n.frames == m.frames.drop_last());
        } else {
            let e = top.entries[top.next];
            let nf = FrameModel { entries: top.entries, next: top.next + 1 };
            let fs = m.frames.update(l, nf);
            assert(fs.drop_last() =~= m.frames.drop_last());
            assert(fs.last() == nf);
            if e.is_dir {
                assert(m.frames[l].entries[top.next] == e);
                assert(e.canonical is Some);
                if !m.visited.contains(e.canonical->0) {
                    assert(n.visited.drop_last() =~= m.visited);
                }
            }
        }
    }
}

/// The work left is never negative.
pub proof fn lemma_work_left_nonneg(fs: Seq<FrameModel>)
    requires
        forall|k: int| 0 <= k < fs.len() ==> 0 <= (#[trigger] fs[k]).next <= fs[k].entries.len(),
    ensures
        work_left(fs) >= 0,
    decreases fs.len(),
{
    if fs.len() > 0 {
        let d = fs.drop_last();
        assert forall|k: int| 0 <= k < d.len() implies 0 <= (#[trigger] d[k]).next <= d[k].entries.len() by {
            assert(d[k] == fs[k]);
        }
        lemma_work_left_nonneg(d);
        assert(fs.last() == fs[fs.len() - 1]);
    }
}

/// The indentation of an entry has one four-character unit per enclosing directory, from
/// the outermost to the innermost: `│   ` where that directory has a sibling below it and
/// four spaces where it is the last. Going one level deeper appends one unit at the end
/// and leaves the rest as it was.
pub proof fn lemma_prefix_units(units: Seq<bool>)
    ensures
        prefix_text(units).len() == 4 * units.len(),
        forall|k: int|
            0 <= k < units.len() ==> prefix_text(units).subrange(4 * k, 4 * k + 4) == (if #[trigger] units[k] {
                "│   "@
            } else {
                "    "@
            }),
        forall|b: bool|
            #[trigger] prefix_text(units.push(b)) == prefix_text(units) + (if b {
                "│   "@
            } else {
                "    "@
            }),
    decreases units.len(),
{
    reveal_strlit("│   ");
    reveal_strlit("    ");
    assert("│   "@.len() == 4);
    assert("    "@.len() == 4);
    assert forall|b: bool| #[trigger] prefix_text(units.push(b)) == prefix_text(units) + (if b {
        "│   "@
    } else {
        "    "@
    }) by {
        assert(units.push(b).drop_last() == units);
        assert(units.push(b).last() == b);
    }
    if units.len() > 0 {
        let u = units.drop_last();
        lemma_prefix_units(u);
        let t = prefix_text(units);
        let unit = if units.last() {
            "│   "@
        } else {
            "    "@
        };
        assert(t == prefix_text(u) + unit);
        assert forall|k: int| 0 <= k < units.len() implies t.subrange(4 * k, 4 * k + 4) == (if #[trigger] units[k] {
            "│   "@
        } else {
            "    "@
        }) by {
            if k < u.len() {
                assert(units[k] == u[k]);
                assert(t.subrange(4 * k, 4 * k + 4) =~= prefix_text(u).subrange(4 * k, 4 * k + 4));
            } else {
                assert(k == u.len());
                assert(t.subrange(4 * k, 4 * k + 4) =~= unit);
            }
        }
    }
}

/// A listing in display order has its directories before its files, and within each kind
/// no name sorts before an earlier one; no name in it starts with `.`.
pub proof fn lemma_arranged_order(s: Seq<EntryModel>)
    requires
        arranged(s),
    ensures
        forall|i: int, j: int|
            0 <= i < j < s.len() && (#[trigger] s[j]).is_dir ==> (#[trigger] s[i]).is_dir,
        forall|i: int, j: int|
            0 <= i < j < s.len() && (#[trigger] s[i]).is_dir == (#[trigger] s[j]).is_dir ==> !seq_lt(
                s[j].name,
                s[i].name,
            ),
        forall|i: int| 0 <= i < s.len() ==> !((#[trigger] s[i]).name.len() > 0 && s[i].name[0] == '.'),
{
    assert forall|i: int, j: int| 0 <= i < j < s.len() && (#[trigger] s[j]).is_dir implies (
    #[trigger] s[i]).is_dir by {
        assert(entry_le(s[i], s[j]));
    }
    assert forall|i: int, j: int|
        0 <= i < j < s.len() && (#[trigger] s[i]).is_dir == (#[trigger] s[j]).is_dir implies !seq_lt(
        s[j].name,
        s[i].name,
    ) by {
        assert(entry_le(s[i], s[j]));
    }
    assert forall|i: int| 0 <= i < s.len() implies !((#[trigger] s[i]).name.len() > 0
        && s[i].name[0] == '.') by {
        assert(!is_hidden(s[i].name));
    }
}

/// The visible entries are exactly those whose name does not start with `.`, in order.
pub proof fn lemma_visible_exact(s: Seq<EntryModel>)
    ensures
        visible(s).len() <= s.len(),
        forall|i: int| 0 <= i < visible(s).len() ==> s.contains(#[trigger] visible(s)[i]),
        forall|i: int|
            0 <= i < s.len() && !((#[trigger] s[i]).name.len() > 0 && s[i].name[0] == '.')
                ==> visible(s).contains(s[i]),
        forall|i: int|
            0 <= i < visible(s).len() ==> !((#[trigger] visible(s)[i]).name.len() > 0
                && visible(s)[i].name[0] == '.'),
    decreases s.len(),
{
    lemma_visible_not_hidden(s);
    if s.len() > 0 {
        let t = s.drop_last();
        lemma_visible_exact(t);
        assert forall|i: int| 0 <= i < visible(s).len() implies s.contains(#[trigger] visible(s)[i]) by {
            if i < visible(t).len() {
                assert(visible(s)[i] == visible(t)[i]);
                let k = choose|k: int| 0 <= k < t.len() && t[k] == visible(t)[i];
                assert(s[k] == t[k]);
            } else {
                assert(visible(s)[i] == s.last());
                assert(s[s.len() - 1] == s.last());
            }
        }
        assert forall|i: int|
            0 <= i < s.len() && !((#[trigger] s[i]).name.len() > 0 && s[i].name[0] == '.') implies visible(
            s,
        ).contains(s[i]) by {
            if i < t.len() {
                assert(s[i] == t[i]);
                assert(visible(t).contains(t[i]));
                let k = choose|k: int| 0 <= k < visible(t).len() && visible(t)[k] == t[i];
                if is_hidden(s.last().name) {
                    assert(visible(s)[k] == visible(t)[k]);
                } else {
                    assert(visible(s)[k] == visible(t)[k]);
                }
            } else {
                assert(!is_hidden(s.last().name));
                assert(visible(s)[visible(s).len() - 1] == s.last());
            }
        }
    }
}

/// The drawn lines: the root as `\x1b[1mNAME/\x1b[0m` on a line of its own; an entry as
/// its indentation, `└── ` when it is the last of its directory and `├── ` otherwise,
/// then its name, in bold when it is a directory; and under a directory walked already,
/// the indentation without its trailing pipes and spacers, four spaces, `└── ` and
/// ` -> [CYCLE DETECTED]`.
pub proof fn lemma_line_texts(units: Seq<bool>, last: bool, e: EntryModel, name: Seq<char>)
    ensures
        root_line(name) == "\x1b[1m"@ + name + "/"@ + "\x1b[0m"@ + "\n"@,
        entry_line(units, last, e) == prefix_text(units) + (if last {
            "└── "@
        } else {
            "├── "@
        }) + (if e.is_dir {
            "\x1b[1m"@ + e.name + "\x1b[0m"@
        } else {
            e.name
        }) + "\n"@,
        cycle_line(units) == prefix_text(strip_trailing(strip_trailing(units, true), false))
            + "    "@ + "└── "@ + " -> [CYCLE DETECTED]\n"@,
{
    assert(root_line(name) =~= "\x1b[1m"@ + name + "/"@ + "\x1b[0m"@ + "\n"@);
}

/// One step of a walk inside a listing draws exactly the next entry's line (and the cycle
/// marker under a directory walked already) after what was drawn. Under a directory that
/// is entered, the indentation gains one unit at its end: a pipe when the directory has
/// a sibling below it, a spacer when it is the last; the directory's path is asked for.
/// At the end of a listing other than the root's the indentation loses its last unit and
/// nothing is drawn.
pub proof fn lemma_walk_step(m: WalkModel)
    requires
        m.frames.len() > 0,
        0 <= m.frames.last().next,
    ensures
        ({
            let top = m.frames.last();
            let (m2, s) = walk_next(m);
            &&& top.next < top.entries.len() ==> {
                let e = top.entries[top.next];
                let below = top.next < top.entries.len() - 1;
                let line = entry_line(m.prefix, !below, e);
                &&& !e.is_dir ==> m2.output == m.output + line && m2.prefix == m.prefix && s
                    is Continue
                &&& e.is_dir && e.canonical is Some && m.visited.contains(e.canonical->0) ==> m2.output
                    == m.output + line + cycle_line(m.prefix.push(below)) && m2.prefix == m.prefix
                &&& e.is_dir && !(e.canonical is Some && m.visited.contains(e.canonical->0))
                    ==> m2.output == m.output + line && m2.prefix == m.prefix.push(below) && s
                    == StepModel::Read(e.path)
            }
            &&& top.next >= top.entries.len() && m.frames.len() > 1 ==> m2.output == m.output
                && m2.prefix == m.prefix.drop_last() && s is Continue
            &&& top.next >= top.entries.len() && m.frames.len() == 1 ==> m2.output == m.output
                && s is Finished
        }),
{
}

} // verus!
