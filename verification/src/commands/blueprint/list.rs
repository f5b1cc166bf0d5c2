//! `devrs blueprint list`: the available blueprints with short descriptions.

use crate::commands::blueprint::readme::{
    after_h1, collect_paragraph, first_content, first_content_line, line_after_h1, paragraph_from,
    readme_lines, views,
};
use crate::text::{
    byte_len, chars_of, lemma_seq_lt_total, lemma_seq_lt_transitive, decimal, decimal_string, has_prefix, join, join_parts, lines, pad_right,
    padded, push_repeat, push_text, repeat_char, seq_lt, starts_with, string_from, text_lt, texts,
    utf8_len,
};
use crate::cli::{
    arg_model, arg_models, args_error_message, argv_texts, clap_outcome, clap_parse, command_ok,
    leaf_command, leaf_command_spec, values_fit, values_models, ArgKind, ArgModel, ArgSpec,
    ArgValues, ArgsError, CommandModel, ValuesModel,
};
use crate::cli::str_opt_of;
use crate::order::{insert_stable, lemma_insert_stable_split, lemma_stable_sort_sorted, stable_sort};
use vstd::prelude::*;

verus! {

/// The line describing the command in its help.
pub const ABOUT: &'static str = "# List Blueprint Arguments (`ListArgs`)";

/// Arguments of `devrs blueprint list`.
#[derive(Debug)]
pub struct ListArgs {}

impl ListArgs {
    /// The arguments, in order.
    pub open spec fn spec_args() -> Seq<ArgModel> {
        Seq::empty()
    }

    /// The command.
    pub open spec fn spec_command() -> CommandModel {
        leaf_command("list"@, Some(ABOUT@), Self::spec_args())
    }

    /// The arguments, in order.
    pub fn args() -> (r: Vec<ArgSpec>)
        ensures
            arg_models(r@) == Self::spec_args(),
    {
        let r: Vec<ArgSpec> = Vec::new();
        assert(arg_models(r@) =~= Self::spec_args());
        r
    }

    /// `clap` accepts the command.
    #[verifier::spinoff_prover]
    pub proof fn lemma_command_ok()
        ensures
            command_ok(Self::spec_command()),
    {
        reveal_strlit("help");
        reveal_strlit("version");
        let a = Self::spec_args();
    }

    /// Whether the fields are the parsed values.
    pub open spec fn read_from(self, vals: Seq<ValuesModel>) -> bool {
        true
    }

    /// The fields from parsed values.
    pub fn from_values(vals: &Vec<ArgValues>) -> (r: ListArgs)
        requires
            values_fit(Self::spec_args(), values_models(vals@)),
        ensures
            r.read_from(values_models(vals@)),
    {
        ListArgs {}
    }

    /// Parses a command line (the command's name first) as `clap` would for these
    /// arguments.
    pub fn try_parse_from(argv: &[&str]) -> (r: Result<ListArgs, ArgsError>)
        ensures
            match clap_outcome(Self::spec_command(), argv_texts(argv@)) {
                Ok(p) => r matches Ok(a) && a.read_from(p.values),
                Err((m, answered)) => r matches Err(e) && args_error_message(e) == m && (e is Answered
                    <==> answered),
            },
    {
        let spec = leaf_command_spec("list", ABOUT, Self::args());
        proof {
            Self::lemma_command_ok();
        }
        match clap_parse(&spec, argv) {
            Ok(p) => Ok(Self::from_values(&p.values)),
            Err((m, answered)) => Err(
                if answered {
                    ArgsError::Answered(m)
                } else {
                    ArgsError::Rejected(m)
                },
            ),
        }
    }
}

/// The longest description the listing shows, in characters.
pub const MAX_DESCRIPTION_LEN: usize = 80;

/// The lines that make up a README's summary: its first paragraph after the title, else
/// its first paragraph line anywhere.
pub open spec fn summary_parts(content: Seq<char>) -> Seq<Seq<char>> {
    let ls = lines(content);
    let para = paragraph_from(ls, after_h1(ls));
    if para.len() > 0 {
        para
    } else {
        match first_content_line(ls) {
            Some(l) => seq![l],
            None => Seq::empty(),
        }
    }
}

/// A description cut to at most 80 characters: longer text keeps its first 77
/// characters and gets `...`.
pub open spec fn truncated(full: Seq<char>) -> Seq<char> {
    if full.len() > 80 {
        full.take(77) + "..."@
    } else {
        full
    }
}

/// The short description of a README, or `None` when it has no paragraph line.
pub open spec fn readme_summary(content: Seq<char>) -> Option<Seq<char>> {
    let parts = summary_parts(content);
    if parts.len() == 0 {
        None
    } else {
        Some(truncated(join(parts, " "@)))
    }
}

/// Extracts a short description from a README text.
pub fn extract_description_from_readme(content: &str) -> (r: Option<String>)
    ensures
        match r {
            Some(s) => readme_summary(content@) == Some(s@),
            None => readme_summary(content@) is None,
        },
{
    let ls = readme_lines(content);
    let start = line_after_h1(&ls);
    let mut parts = collect_paragraph(&ls, start);
    if parts.len() == 0 {
        match first_content(&ls) {
            Some(l) => {
                parts.push(l);
                assert(views(parts@) =~= seq![l@]);
            },
            None => {
                assert(views(parts@) =~= Seq::<Seq<char>>::empty());
            },
        }
    }
    if parts.len() == 0 {
        return None;
    }
    let full = join_parts(&parts, " ");
    let fc = chars_of(full.as_str());
    if fc.len() > MAX_DESCRIPTION_LEN {
        let mut cut = string_from(&fc, 0, MAX_DESCRIPTION_LEN - 3);
        cut.append("...");
        Some(cut)
    } else {
        Some(full)
    }
}

/// The description shown for a blueprint without a usable README.
pub const NO_DESCRIPTION: &'static str = "[No README.md or description found]";

/// One entry of the blueprint directory, as the host reports it.
pub struct DirEntryInfo {
    /// The entry's file name.
    pub name: String,
    /// Whether it is a directory.
    pub is_dir: bool,
    /// The text of its `README.md`, when that is a file that could be read.
    pub readme: Option<String>,
}

/// A listed blueprint: its name and description.
pub type BlueprintModel = (Seq<char>, Seq<char>);

/// Whether an entry is a blueprint: a directory whose name does not begin with `.`.
pub open spec fn is_blueprint(e: DirEntryInfo) -> bool {
    e.is_dir && !starts_with(e.name@, "."@)
}

/// The description of a blueprint from its README, when it has one.
pub open spec fn description_of(readme: Option<Seq<char>>) -> Seq<char> {
    match readme {
        Some(c) => match readme_summary(c) {
            Some(d) => d,
            None => NO_DESCRIPTION@,
        },
        None => NO_DESCRIPTION@,
    }
}

/// The blueprints among the entries, in the directory's order.
pub open spec fn blueprint_models(es: Seq<DirEntryInfo>) -> Seq<BlueprintModel>
    decreases es.len(),
{
    if es.len() == 0 {
        Seq::empty()
    } else {
        let r = blueprint_models(es.drop_last());
        let e = es.last();
        if is_blueprint(e) {
            r.push((e.name@, description_of(str_opt_of(e.readme))))
        } else {
            r
        }
    }
}

/// Whether one blueprint may come before another: by name.
pub open spec fn name_le(a: BlueprintModel, b: BlueprintModel) -> bool {
    !seq_lt(b.0, a.0)
}

/// The listed blueprints: sorted by name, entries with equal names in the directory's
/// order.
pub open spec fn listed_blueprints(es: Seq<DirEntryInfo>) -> Seq<BlueprintModel> {
    stable_sort(blueprint_models(es), |a: BlueprintModel, b: BlueprintModel| name_le(a, b))
}

/// The values of listed pairs.
pub open spec fn pair_views(v: Seq<(String, String)>) -> Seq<BlueprintModel> {
    v.map_values(|p: (String, String)| (p.0@, p.1@))
}

/// The blueprints among the entries of the blueprint directory, with their
/// descriptions, sorted by name.
pub fn read_blueprints_from_dir(entries: &Vec<DirEntryInfo>) -> (r: Vec<(String, String)>)
    ensures
        pair_views(r@) == listed_blueprints(entries@),
{
    let ghost le = |a: BlueprintModel, b: BlueprintModel| name_le(a, b);
    let mut out: Vec<(String, String)> = Vec::new();
    let mut i: usize = 0;
    assert(entries@.take(0) =~= Seq::<DirEntryInfo>::empty());
    assert(pair_views(out@) =~= Seq::<BlueprintModel>::empty());
    while i < entries.len()
        invariant
            i <= entries.len(),
            le == (|a: BlueprintModel, b: BlueprintModel| name_le(a, b)),
            pair_views(out@) == stable_sort(blueprint_models(entries@.take(i as int)), le),
        decreases entries.len() - i,
    {
        let e = &entries[i];
        proof {
            assert(entries@.take(i + 1).drop_last() =~= entries@.take(i as int));
            assert(entries@.take(i + 1).last() == *e);
        }
        let name_chars = chars_of(e.name.as_str());
        let hidden = has_prefix(&name_chars, ".");
        if e.is_dir && !hidden {
            let desc = match &e.readme {
                Some(c) => match extract_description_from_readme(c.as_str()) {
                    Some(d) => d,
                    None => NO_DESCRIPTION.to_string(),
                },
                None => NO_DESCRIPTION.to_string(),
            };
            let name = e.name.clone();
            let ghost x: BlueprintModel = (name@, desc@);
            let ghost s = pair_views(out@);
            let ghost bm = blueprint_models(entries@.take(i as int));
            assert(x == (e.name@, description_of(str_opt_of(e.readme))));
            let mut j = out.len();
            while j > 0 && text_lt(name.as_str(), out[j - 1].0.as_str())
                invariant
                    j <= out.len(),
                    s == pair_views(out@),
                    x.0 == name@,
                    le == (|a: BlueprintModel, b: BlueprintModel| name_le(a, b)),
                    forall|t: int| j <= t < s.len() ==> !le(#[trigger] s[t], x),
                decreases j,
            {
                j = j - 1;
            }
            proof {
                lemma_insert_stable_split(s, x, le, j as int);
                if j > 0 {
                    assert(s[j - 1] == (out@[j - 1].0@, out@[j - 1].1@));
                    assert(le(s.take(j as int).last(), x));
                }
                assert(insert_stable(s.take(j as int), x, le) == s.take(j as int).push(x));
                assert(blueprint_models(entries@.take(i + 1)) == bm.push(x));
                assert(bm.push(x).drop_last() =~= bm);
                assert(stable_sort(bm.push(x), le) == insert_stable(stable_sort(bm, le), x, le));
            }
            out.insert(j, (name, desc));
            assert(pair_views(out@) =~= s.take(j as int).push(x) + s.skip(j as int));
        } else {
            assert(blueprint_models(entries@.take(i + 1)) == blueprint_models(entries@.take(i as int)));
        }
        i = i + 1;
    }
    assert(entries@.take(entries.len() as int) =~= entries@);
    out
}

/// The widest name in bytes, or `None` when there is none.
pub open spec fn widest_name(bs: Seq<BlueprintModel>) -> Option<nat>
    decreases bs.len(),
{
    if bs.len() == 0 {
        None
    } else {
        let w = utf8_len(bs.last().0);
        match widest_name(bs.drop_last()) {
            Some(m) => Some(if m < w { w } else { m }),
            None => Some(w),
        }
    }
}

/// The width of the name column: the widest name's length in bytes (10 when there is
/// none), kept between 10 and 30.
pub open spec fn name_width(bs: Seq<BlueprintModel>) -> nat {
    let m = match widest_name(bs) {
        Some(m) => m,
        None => 10,
    };
    if m < 10 {
        10
    } else if m > 30 {
        30
    } else {
        m
    }
}

/// The width of the name column.
pub fn name_column_width(bs: &Vec<(String, String)>) -> (r: usize)
    ensures
        r == name_width(pair_views(bs@)),
{
    let ghost m = pair_views(bs@);
    let mut widest: Option<u128> = None;
    let mut i: usize = 0;
    while i < bs.len()
        invariant
            i <= bs.len(),
            m == pair_views(bs@),
            match widest {
                Some(w) => widest_name(m.take(i as int)) == Some(w as nat),
                None => widest_name(m.take(i as int)) is None,
            },
        decreases bs.len() - i,
    {
        let w = byte_len(bs[i].0.as_str());
        proof {
            assert(m.take(i + 1).drop_last() =~= m.take(i as int));
            assert(m.take(i + 1).last() == m[i as int]);
        }
        widest = match widest {
            Some(p) => Some(if p < w { w } else { p }),
            None => Some(w),
        };
        i = i + 1;
    }
    assert(m.take(bs.len() as int) =~= m);
    let x: u128 = match widest {
        Some(w) => w,
        None => 10,
    };
    if x < 10 {
        10
    } else if x > 30 {
        30
    } else {
        x as usize
    }
}

/// One row of the table.
pub open spec fn table_row(b: BlueprintModel, w: nat) -> Seq<char> {
    pad_right(b.0, w) + " | "@ + b.1
}

/// What `devrs blueprint list` prints for the blueprints `bs` of the directory `dir`.
pub open spec fn blueprint_table(bs: Seq<BlueprintModel>, dir: Seq<char>) -> Seq<Seq<char>> {
    if bs.len() == 0 {
        seq![
            Seq::empty(),
            "No blueprints found in '"@ + dir + "'."@,
            Seq::empty(),
            "To add blueprints, create subdirectories in this location containing project templates."@,
            "Each subdirectory represents one blueprint (e.g., '"@ + dir + "/rust/')."@,
        ]
    } else {
        let w = name_width(bs);
        seq![
            Seq::empty(),
            "Available Blueprints in '"@ + dir + "':"@,
            Seq::empty(),
            pad_right("Name"@, w) + " | Description"@,
            repeat_char('-', w) + "-+-"@ + repeat_char('-', 50),
        ] + Seq::new(bs.len(), |i: int| table_row(bs[i], w)) + seq![
            Seq::empty(),
            "Found "@ + decimal(bs.len()) + " blueprint(s)."@,
            "Use 'devrs blueprint info <Name>' for details or 'devrs blueprint create --lang <Name> ...' to use one."@,
        ]
    }
}

/// The lines of the table.
pub fn blueprint_table_lines(bs: &Vec<(String, String)>, dir: &str) -> (r: Vec<String>)
    ensures
        texts(r@) == blueprint_table(pair_views(bs@), dir@),
{
    let ghost m = pair_views(bs@);
    let mut r: Vec<String> = Vec::new();
    if bs.len() == 0 {
        push_text(&mut r, String::new());
        let mut a = "No blueprints found in '".to_string();
        a.append(dir);
        a.append("'.");
        push_text(&mut r, a);
        push_text(&mut r, String::new());
        push_text(
            &mut r,
            "To add blueprints, create subdirectories in this location containing project templates.".to_string(),
        );
        let mut b = "Each subdirectory represents one blueprint (e.g., '".to_string();
        b.append(dir);
        b.append("/rust/').");
        push_text(&mut r, b);
        assert(texts(r@) =~= blueprint_table(m, dir@));
        return r;
    }
    let w = name_column_width(bs);
    push_text(&mut r, String::new());
    let mut a = "Available Blueprints in '".to_string();
    a.append(dir);
    a.append("':");
    push_text(&mut r, a);
    push_text(&mut r, String::new());
    let mut h = padded("Name", w);
    h.append(" | Description");
    push_text(&mut r, h);
    let mut d = String::new();
    push_repeat(&mut d, '-', w);
    d.append("-+-");
    push_repeat(&mut d, '-', 50);
    push_text(&mut r, d);
    let ghost head = texts(r@);
    let mut i: usize = 0;
    while i < bs.len()
        invariant
            i <= bs.len(),
            m == pair_views(bs@),
            w == name_width(m),
            texts(r@) == head + Seq::new(i as nat, |k: int| table_row(m[k], w as nat)),
        decreases bs.len() - i,
    {
        let mut row = padded(bs[i].0.as_str(), w);
        row.append(" | ");
        row.append(bs[i].1.as_str());
        assert(row@ == table_row(m[i as int], w as nat));
        push_text(&mut r, row);
        assert(texts(r@) =~= head + Seq::new((i + 1) as nat, |k: int| table_row(m[k], w as nat)));
        i = i + 1;
    }
    push_text(&mut r, String::new());
    let mut f = "Found ".to_string();
    let n = decimal_string(bs.len() as u128);
    f.append(n.as_str());
    f.append(" blueprint(s).");
    push_text(&mut r, f);
    push_text(
        &mut r,
        "Use 'devrs blueprint info <Name>' for details or 'devrs blueprint create --lang <Name> ...' to use one.".to_string(),
    );
    assert(texts(r@) =~= blueprint_table(m, dir@));
    r
}

/// The listing is in order of name, and holds exactly the blueprints among the entries
/// (directories whose name does not begin with `.`), each once for each entry.
pub proof fn lemma_listing_sorted(es: Seq<DirEntryInfo>)
    ensures
        forall|i: int, j: int|
            0 <= i < j < listed_blueprints(es).len() ==> !seq_lt(
                #[trigger] listed_blueprints(es)[j].0,
                #[trigger] listed_blueprints(es)[i].0,
            ),
        listed_blueprints(es).to_multiset() == blueprint_models(es).to_multiset(),
{
    let le = |a: BlueprintModel, b: BlueprintModel| name_le(a, b);
    assert forall|a: BlueprintModel, b: BlueprintModel| #[trigger] le(a, b) || le(b, a) by {
        lemma_seq_lt_total(a.0, b.0);
    }
    assert forall|a: BlueprintModel, b: BlueprintModel, c: BlueprintModel|
        #[trigger] le(a, b) && #[trigger] le(b, c) implies le(a, c) by {
        if seq_lt(c.0, a.0) {
            lemma_seq_lt_total(a.0, b.0);
            lemma_seq_lt_total(b.0, c.0);
            if a.0 == b.0 {
            } else if b.0 == c.0 {
            } else {
                lemma_seq_lt_transitive(c.0, a.0, b.0);
            }
        }
    }
    lemma_stable_sort_sorted(blueprint_models(es), le);
    let l = listed_blueprints(es);
    assert forall|i: int, j: int| 0 <= i < j < l.len() implies !seq_lt(
        #[trigger] l[j].0,
        #[trigger] l[i].0,
    ) by {
        assert(le(l[i], l[j]));
    }
}

} // verus!
