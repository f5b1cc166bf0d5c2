//! `devrs blueprint info`: details about one blueprint, read from its README.

use crate::commands::blueprint::readme::{
    after_h1, collect_paragraph, find_from, find_h1, first_content, first_content_line, is_blank,
    is_content, is_h1, is_heading, line_is_blank, line_is_heading, run_from, strip_all_prefix,
    lemma_find_from, line_after_h1, paragraph_from, readme_lines, strip_prefix_all, title_text, views,
};
use crate::text::{
    byte_len, chars_of, contains, has_substring, starts_with, is_whitespace, join, join_parts, lines, lowercase,
    push_repeat, push_text, push_texts, repeat_char, split_lines, string_from, string_of, texts,
    to_lowercase, trim, trim_end, trim_str, trimmed, utf8_len,
};
use crate::cli::{
    arg_model, arg_models, arg_ok, args_error_message, argv_texts, clap_outcome, clap_parse,
    command_ok, leaf_command, leaf_command_spec, read_single, single_of, value_fits, values_fit,
    values_models, ArgKind, ArgModel, ArgSpec, ArgValues, ArgsError, CommandModel, ValuesModel,
};
use crate::cli::str_opt_of;
use crate::commands::blueprint::utils::project_detector::ProjectInfo;
use crate::commands::setup::deps::strs;
use vstd::prelude::*;

verus! {

/// The line describing the command in its help.
pub const ABOUT: &'static str = "# Blueprint Info Arguments (`InfoArgs`)";

/// Arguments of `devrs blueprint info`.
#[derive(Debug)]
pub struct InfoArgs {
    /// The blueprint to describe.
    pub blueprint_name: String,
}

impl InfoArgs {
    /// The arguments, in order.
    pub open spec fn spec_args() -> Seq<ArgModel> {
        seq![
            arg_model("blueprint_name"@, ArgKind::Single).with_required()
                .with_help("The name of the blueprint to display information about. This name must correspond to a subdirectory within the configured main blueprints directory (e.g., if the blueprint is in `~/devrs/blueprints/rust`, the name required here is `rust`)"@)
                .with_value_name("BLUEPRINT_NAME"@),
        ]
    }

    /// The command.
    pub open spec fn spec_command() -> CommandModel {
        leaf_command("info"@, Some(ABOUT@), Self::spec_args())
    }

    /// The arguments, in order.
    pub fn args() -> (r: Vec<ArgSpec>)
        ensures
            arg_models(r@) == Self::spec_args(),
    {
        let r = vec![
            ArgSpec::new("blueprint_name", ArgKind::Single).required()
                .help("The name of the blueprint to display information about. This name must correspond to a subdirectory within the configured main blueprints directory (e.g., if the blueprint is in `~/devrs/blueprints/rust`, the name required here is `rust`)")
                .value_name("BLUEPRINT_NAME"),
        ];
        assert(arg_models(r@) =~= Self::spec_args());
        r
    }

    /// `clap` accepts the command.
    #[verifier::spinoff_prover]
    pub proof fn lemma_command_ok()
        ensures
            command_ok(Self::spec_command()),
    {
        reveal_strlit("blueprint_name");
        reveal_strlit("help");
        reveal_strlit("version");
        let a = Self::spec_args();
        assert forall|i: int| 0 <= i < a.len() implies arg_ok(#[trigger] a[i]) by {
            assert(i == 0);
        }
    }

    /// Whether the fields are the parsed values.
    pub open spec fn read_from(self, vals: Seq<ValuesModel>) -> bool {
        &&& self.blueprint_name@ == single_of(vals[0])
    }

    /// The fields from parsed values.
    pub fn from_values(vals: &Vec<ArgValues>) -> (r: InfoArgs)
        requires
            values_fit(Self::spec_args(), values_models(vals@)),
        ensures
            r.read_from(values_models(vals@)),
    {
        let ghost v = values_models(vals@);
        assert(value_fits(Self::spec_args()[0], v[0]));
        InfoArgs { blueprint_name: read_single(&vals[0]) }
    }

    /// Parses a command line (the command's name first) as `clap` would for these
    /// arguments.
    pub fn try_parse_from(argv: &[&str]) -> (r: Result<InfoArgs, ArgsError>)
        ensures
            match clap_outcome(Self::spec_command(), argv_texts(argv@)) {
                Ok(p) => r matches Ok(a) && a.read_from(p.values),
                Err((m, answered)) => r matches Err(e) && args_error_message(e) == m && (e is Answered
                    <==> answered),
            },
    {
        let spec = leaf_command_spec("info", ABOUT, Self::args());
        proof {
            Self::lemma_command_ok();
        }
        match clap_parse(&spec, argv) {
            Ok(p) => Ok(Self::from_values(&p.values)),
            Err((m, answered)) => Err(
                if answered {
                    ArgsError::Answered(m)
                } else {
                    ArgsError::Rejected(m)
                },
            ),
        }
    }
}

/// The title used when the README has no level-one heading.
pub open spec fn default_title() -> Seq<char> {
    "Blueprint Information"@
}

/// The description used when the README has no paragraph line.
pub open spec fn default_description() -> Seq<char> {
    "No description available in README."@
}

/// The title of a README: the text of its first level-one heading.
pub open spec fn readme_title(content: Seq<char>) -> Seq<char> {
    let ls = lines(content);
    let h = find_from(ls, 0, |l: Seq<char>| is_h1(l));
    if h < ls.len() {
        title_text(ls[h])
    } else {
        default_title()
    }
}

/// The description of a README: its first paragraph after the title (lines joined with a
/// space), else its first paragraph line anywhere, else a placeholder.
pub open spec fn readme_description(content: Seq<char>) -> Seq<char> {
    let ls = lines(content);
    let para = paragraph_from(ls, after_h1(ls));
    if para.len() > 0 {
        join(para, " "@)
    } else {
        match first_content_line(ls) {
            Some(l) => l,
            None => default_description(),
        }
    }
}

/// Extracts the title and the first-paragraph description of a README text.
pub fn extract_title_and_description(content: &str) -> (r: (String, String))
    ensures
        r.0@ == readme_title(content@),
        r.1@ == readme_description(content@),
{
    let ls = readme_lines(content);
    let ghost vs = views(ls@);
    let h = find_h1(&ls, 0);
    proof {
        lemma_find_from(vs, 0, |l: Seq<char>| is_h1(l));
    }
    let title = if h < ls.len() {
        let t = trimmed(&ls[h]);
        let s = strip_prefix_all(&t, "# ");
        let tt = trimmed(&s);
        assert(vs[h as int] == ls@[h as int]@);
        string_of(&tt)
    } else {
        "Blueprint Information".to_string()
    };
    let start = line_after_h1(&ls);
    let para = collect_paragraph(&ls, start);
    let description = if para.len() > 0 {
        join_parts(&para, " ")
    } else {
        match first_content(&ls) {
            Some(l) => string_of(&l),
            None => "No description available in README.".to_string(),
        }
    };
    (title, description)
}


/// The number of leading `#` characters.
pub open spec fn lead_hashes(t: Seq<char>) -> nat
    decreases t.len(),
{
    if t.len() > 0 && t[0] == '#' {
        1 + lead_hashes(t.drop_first())
    } else {
        0
    }
}

/// The level of a heading line: the number of `#` that begin its trimmed text.
pub open spec fn heading_level(l: Seq<char>) -> nat {
    lead_hashes(trim(l))
}

/// The lowercased text of a heading line, without its leading `#` characters.
pub open spec fn heading_words(l: Seq<char>) -> Seq<char> {
    lowercase(trim(strip_all_prefix(trim(l), "#"@)))
}

/// Whether heading text names a usage-like section.
pub open spec fn names_usage(w: Seq<char>) -> bool {
    ||| contains(w, "usage"@)
    ||| contains(w, "setup"@)
    ||| contains(w, "getting started"@)
    ||| contains(w, "installation"@)
    ||| contains(w, "building"@)
    ||| contains(w, "running"@)
}

/// A heading that opens a usage-like section.
pub open spec fn is_usage_heading(l: Seq<char>) -> bool {
    is_heading(l) && names_usage(heading_words(l))
}

/// One past the last non-blank line of `ls[lo..hi]`, or `lo` when all are blank.
pub open spec fn blank_trimmed_end(ls: Seq<Seq<char>>, lo: int, hi: int) -> int
    decreases hi - lo,
{
    if hi > lo && is_blank(ls[hi - 1]) {
        blank_trimmed_end(ls, lo, hi - 1)
    } else {
        hi
    }
}

/// The usage section of a README: the lines under the first usage-like heading, up to the
/// next heading of the same or a higher level, from the first to the last non-blank line,
/// joined with newlines; `None` when there is no such heading or the section is blank.
pub open spec fn usage_section(content: Seq<char>) -> Option<Seq<char>> {
    let ls = lines(content);
    let h = find_from(ls, 0, |l: Seq<char>| is_usage_heading(l));
    if h >= ls.len() {
        None
    } else {
        let lv = heading_level(ls[h]);
        let e = find_from(ls, h + 1, |l: Seq<char>| is_heading(l) && heading_level(l) <= lv);
        let a = find_from(ls, h + 1, |l: Seq<char>| !is_blank(l));
        let b = blank_trimmed_end(ls, a, e);
        if a >= b {
            None
        } else {
            Some(join(ls.subrange(a, b), "\n"@))
        }
    }
}

/// The level of a heading line.
fn line_heading_level(l: &Vec<char>) -> (r: usize)
    ensures
        r == heading_level(l@),
{
    let t = trimmed(l);
    let mut k: usize = 0;
    assert(t@.skip(0) == t@);
    while k < t.len() && t[k] == '#'
        invariant
            k <= t.len(),
            lead_hashes(t@) == k + lead_hashes(t@.skip(k as int)),
        decreases t.len() - k,
    {
        assert(t@.skip(k as int).drop_first() == t@.skip(k + 1));
        k = k + 1;
    }
    assert(lead_hashes(t@.skip(k as int)) == 0);
    k
}

/// Whether the line is a heading that opens a usage-like section.
fn line_is_usage_heading(l: &Vec<char>) -> (r: bool)
    ensures
        r == is_usage_heading(l@),
{
    if !line_is_heading(l) {
        return false;
    }
    let t = trimmed(l);
    let s = strip_prefix_all(&t, "#");
    let w = trimmed(&s);
    let ws = string_of(&w);
    let lw = to_lowercase(ws.as_str());
    let c = chars_of(lw.as_str());
    has_substring(&c, "usage") || has_substring(&c, "setup") || has_substring(&c, "getting started")
        || has_substring(&c, "installation") || has_substring(&c, "building") || has_substring(
        &c,
        "running",
    )
}

/// Extracts the usage-like section of a README text (usage, setup, getting started,
/// installation, building or running).
pub fn extract_usage_from_readme(content: &str) -> (r: Option<String>)
    ensures
        match r {
            Some(s) => usage_section(content@) == Some(s@),
            None => usage_section(content@) is None,
        },
{
    let ls = readme_lines(content);
    let ghost vs = views(ls@);
    let ghost ph = |l: Seq<char>| is_usage_heading(l);
    let mut h: usize = 0;
    while h < ls.len() && !line_is_usage_heading(&ls[h])
        invariant
            h <= ls.len(),
            vs == views(ls@),
            ph == (|l: Seq<char>| is_usage_heading(l)),
            find_from(vs, 0, ph) == find_from(vs, h as int, ph),
        decreases ls.len() - h,
    {
        assert(vs[h as int] == ls@[h as int]@);
        assert(find_from(vs, h as int, ph) == find_from(vs, h + 1, ph));
        h = h + 1;
    }
    if h >= ls.len() {
        return None;
    }
    assert(vs[h as int] == ls@[h as int]@);
    let lv = line_heading_level(&ls[h]);
    let ghost pe = |l: Seq<char>| is_heading(l) && heading_level(l) <= lv;
    let mut e: usize = h + 1;
    while e < ls.len() && !(line_is_heading(&ls[e]) && line_heading_level(&ls[e]) <= lv)
        invariant
            h < e <= ls.len(),
            vs == views(ls@),
            pe == (|l: Seq<char>| is_heading(l) && heading_level(l) <= lv),
            find_from(vs, h + 1, pe) == find_from(vs, e as int, pe),
        decreases ls.len() - e,
    {
        assert(vs[e as int] == ls@[e as int]@);
        assert(find_from(vs, e as int, pe) == find_from(vs, e + 1, pe));
        e = e + 1;
    }
    proof {
        lemma_find_from(vs, h + 1, pe);
    }
    let ghost pa = |l: Seq<char>| !is_blank(l);
    let mut a: usize = h + 1;
    while a < ls.len() && line_is_blank(&ls[a])
        invariant
            h < a <= ls.len(),
            vs == views(ls@),
            pa == (|l: Seq<char>| !is_blank(l)),
            find_from(vs, h + 1, pa) == find_from(vs, a as int, pa),
        decreases ls.len() - a,
    {
        assert(vs[a as int] == ls@[a as int]@);
        assert(find_from(vs, a as int, pa) == find_from(vs, a + 1, pa));
        a = a + 1;
    }
    proof {
        lemma_find_from(vs, h + 1, pa);
        if e < ls.len() {
            assert(vs[e as int] == ls@[e as int]@);
            assert(pe(vs[e as int]));
            assert(trim(vs[e as int]).len() > 0);
            if a > e {
                assert(!pa(vs[e as int]));
            }
        }
    }
    assert(a <= e);
    let mut b: usize = e;
    while b > a && line_is_blank(&ls[b - 1])
        invariant
            a <= b <= e <= ls.len(),
            vs == views(ls@),
            blank_trimmed_end(vs, a as int, e as int) == blank_trimmed_end(vs, a as int, b as int),
        decreases b - a,
    {
        assert(vs[b - 1] == ls@[b - 1]@);
        b = b - 1;
    }
    if a >= b {
        return None;
    }
    let mut section: Vec<Vec<char>> = Vec::new();
    let mut k = a;
    while k < b
        invariant
            a <= k <= b <= ls.len(),
            vs == views(ls@),
            views(section@) == vs.subrange(a as int, k as int),
        decreases b - k,
    {
        let line = ls[k].clone();
        proof {
            assert(views(section@.push(line)) == views(section@).push(line@));
            assert(vs.subrange(a as int, k + 1) == vs.subrange(a as int, k as int).push(vs[k as int]));
        }
        section.push(line);
        k = k + 1;
    }
    Some(join_parts(&section, "\n"))
}

/// The file names that count as a Dockerfile in a blueprint.
pub fn dockerfile_names() -> (r: Vec<&'static str>)
    ensures
        strs(r@) == seq!["Dockerfile"@, "Dockerfile.template"@, "Dockerfile.tmpl"@, "Dockerfile.tera"@],
{
    let r = vec!["Dockerfile", "Dockerfile.template", "Dockerfile.tmpl", "Dockerfile.tera"];
    assert(strs(r@) =~= seq!["Dockerfile"@, "Dockerfile.template"@, "Dockerfile.tmpl"@, "Dockerfile.tera"@]);
    r
}

/// Why the blueprint `name` at `path` under `root` cannot be shown, if it cannot.
pub open spec fn blueprint_path_error(
    name: Seq<char>,
    root: Seq<char>,
    path: Seq<char>,
    exists: bool,
    is_dir: bool,
) -> Option<Seq<char>> {
    if !exists {
        Some(
            "Blueprint '"@ + name + "' not found in '"@ + root
                + "'. Run 'devrs blueprint list' to see available blueprints."@,
        )
    } else if !is_dir {
        Some("Path '"@ + path + "' exists but is not a directory."@)
    } else {
        None
    }
}

/// Checks that the blueprint `name` at `path` under `root` is a directory.
pub fn check_blueprint_path(name: &str, root: &str, path: &str, exists: bool, is_dir: bool) -> (r:
    Result<(), String>)
    ensures
        match blueprint_path_error(name@, root@, path@, exists, is_dir) {
            Some(m) => r matches Err(e) && e@ == m,
            None => r is Ok,
        },
{
    if !exists {
        let mut m = "Blueprint '".to_string();
        m.append(name);
        m.append("' not found in '");
        m.append(root);
        m.append("'. Run 'devrs blueprint list' to see available blueprints.");
        Err(m)
    } else if !is_dir {
        let mut m = "Path '".to_string();
        m.append(path);
        m.append("' exists but is not a directory.");
        Err(m)
    } else {
        Ok(())
    }
}

/// Title, description and usage notes of a blueprint whose README has the text
/// `content` (`None` when there is no README file).
pub open spec fn readme_fields_of(content: Option<Seq<char>>) -> (Seq<char>, Seq<char>, Option<Seq<char>>) {
    match content {
        Some(c) => (readme_title(c), readme_description(c), usage_section(c)),
        None => (default_title(), "No README.md found."@, None),
    }
}

/// Title, description and usage notes of a blueprint from its README.
pub fn readme_fields(content: &Option<String>) -> (r: (String, String, Option<String>))
    ensures
        (r.0@, r.1@, str_opt_of(r.2)) == readme_fields_of(str_opt_of(*content)),
{
    match content {
        Some(c) => {
            let (t, d) = extract_title_and_description(c.as_str());
            let u = extract_usage_from_readme(c.as_str());
            (t, d, u)
        },
        None => ("Blueprint Information".to_string(), "No README.md found.".to_string(), None),
    }
}

/// The dividing line between sections.
pub open spec fn section_rule() -> Seq<char> {
    "┣--------------------------------------------------------------------┫"@
}

/// The first lines of the details box, up to the file structure heading.
pub open spec fn info_head(
    name: Seq<char>,
    title: Seq<char>,
    desc: Seq<char>,
    project: (Seq<char>, Seq<char>),
    has_dockerfile: bool,
) -> Seq<Seq<char>> {
    let pad = if utf8_len(name) < 51 { (51 - utf8_len(name)) as nat } else { 0nat };
    seq![
        Seq::empty(),
        "┏━━━━━━━━━━━━━━━━━━━━━━━━━━━━━━━━━━━━━━━━━━━━━━━━━━━━━━━━━━━━━━━━━━━━┓"@,
        "┃ 🔎 Blueprint Details: "@ + name + " "@ + repeat_char(' ', pad),
        "┣━━━━━━━━━━━━━━━━━━━━━━━━━━━━━━━━━━━━━━━━━━━━━━━━━━━━━━━━━━━━━━━━━━━━┫"@,
        "┃ 🏷️  Title:         "@ + title,
        "┃ 📝 Description:   "@ + desc,
        section_rule(),
        "┃ 🛠️  Project Info:"@,
        "┃    - Type:          "@ + project.0,
        "┃    - Build System:  "@ + project.1,
        "┃    - Docker Support: "@ + (if has_dockerfile { "Yes"@ } else { "No"@ }),
        section_rule(),
        "┃ 📁 File Structure:"@,
    ]
}

/// The usage section: how to create a project from the blueprint, then the README's
/// notes, each line quoted.
pub open spec fn usage_lines(name: Seq<char>, notes: Option<Seq<char>>) -> Seq<Seq<char>> {
    seq![
        "┃ 🚀 Usage:"@,
        "┃    To create a new project from this blueprint:"@,
        "┃      devrs blueprint create --lang "@ + name + " <your-project-name>"@,
        "┃"@,
        "┃    Example:"@,
        "┃      devrs blueprint create --lang "@ + name + " my-awesome-app"@,
    ] + match notes {
        Some(n) => seq!["┃"@, "┃ 📋 Additional Notes (from README.md):"@] + note_lines(n),
        None => Seq::empty(),
    }
}

/// The quoted lines of usage notes: each line of the trimmed notes, trimmed at its end.
pub open spec fn note_lines(n: Seq<char>) -> Seq<Seq<char>> {
    let t = trim(n);
    if t.len() == 0 {
        seq!["┃    > "@]
    } else {
        Seq::new(lines(t).len(), |i: int| "┃    > "@ + trim_end(lines(t)[i]))
    }
}

/// What `devrs blueprint info` prints, and its result, given the blueprint's name,
/// README fields, detected project, whether it has a Dockerfile, and its file tree (or
/// why the tree could not be drawn).
pub open spec fn info_report_of(
    name: Seq<char>,
    title: Seq<char>,
    desc: Seq<char>,
    project: (Seq<char>, Seq<char>),
    has_dockerfile: bool,
    tree: Result<Seq<char>, Seq<char>>,
    notes: Option<Seq<char>>,
) -> (Seq<Seq<char>>, Result<(), Seq<char>>) {
    let head = info_head(name, title, desc, project, has_dockerfile);
    match tree {
        Ok(t) => (
            head + Seq::new(lines(t).len(), |i: int| "┃    "@ + lines(t)[i]) + seq![section_rule()]
                + usage_lines(name, notes) + seq!["┗━━━━━━━━━━━━━━━━━━━━━━━━━━━━━━━━━━━━━━━━━━━━━━━━━━━━━━━━━━━━━━━━━━━━┛"@],
            Ok(()),
        ),
        Err(_) => (
            head + seq!["┃    [Error displaying file structure]"@],
            Err("Failed to display blueprint file structure"@),
        ),
    }
}

/// A string with its end trimmed.
fn trim_end_chars(v: &Vec<char>) -> (r: String)
    ensures
        r@ == trim_end(v@),
{
    let mut hi = v.len();
    assert(v@.take(hi as int) =~= v@);
    while hi > 0 && is_whitespace(v[hi - 1])
        invariant
            hi <= v.len(),
            trim_end(v@) == trim_end(v@.take(hi as int)),
        decreases hi,
    {
        assert(v@.take(hi as int).drop_last() =~= v@.take(hi - 1));
        hi = hi - 1;
    }
    assert(v@.subrange(0, hi as int) == v@.take(hi as int));
    string_from(v, 0, hi)
}

/// The quoted lines of usage notes.
fn quoted_notes(n: &str) -> (r: Vec<String>)
    ensures
        texts(r@) == note_lines(n@),
{
    let t = trim_str(n);
    let tc = chars_of(t.as_str());
    let mut r: Vec<String> = Vec::new();
    if tc.len() == 0 {
        push_text(&mut r, "┃    > ".to_string());
        assert(texts(r@) =~= note_lines(n@));
        return r;
    }
    let ls = split_lines(&tc);
    let mut i: usize = 0;
    while i < ls.len()
        invariant
            i <= ls.len(),
            tc@ == trim(n@),
            tc@.len() > 0,
            ls@.len() == lines(tc@).len(),
            forall|k: int| 0 <= k < ls@.len() ==> (#[trigger] ls@[k])@ == lines(tc@)[k],
            texts(r@) == Seq::new(i as nat, |k: int| "┃    > "@ + trim_end(lines(tc@)[k])),
        decreases ls.len() - i,
    {
        let mut q = "┃    > ".to_string();
        let e = trim_end_chars(&ls[i]);
        q.append(e.as_str());
        push_text(&mut r, q);
        assert(texts(r@) =~= Seq::new((i + 1) as nat, |k: int| "┃    > "@ + trim_end(lines(tc@)[k])));
        i = i + 1;
    }
    r
}

/// The usage section.
fn usage_section_lines(name: &str, notes: &Option<String>) -> (r: Vec<String>)
    ensures
        texts(r@) == usage_lines(name@, str_opt_of(*notes)),
{
    let mut r: Vec<String> = Vec::new();
    push_text(&mut r, "┃ 🚀 Usage:".to_string());
    push_text(&mut r, "┃    To create a new project from this blueprint:".to_string());
    let mut a = "┃      devrs blueprint create --lang ".to_string();
    a.append(name);
    a.append(" <your-project-name>");
    push_text(&mut r, a);
    push_text(&mut r, "┃".to_string());
    push_text(&mut r, "┃    Example:".to_string());
    let mut b = "┃      devrs blueprint create --lang ".to_string();
    b.append(name);
    b.append(" my-awesome-app");
    push_text(&mut r, b);
    let ghost head = texts(r@);
    match notes {
        Some(n) => {
            push_text(&mut r, "┃".to_string());
            push_text(&mut r, "┃ 📋 Additional Notes (from README.md):".to_string());
            let q = quoted_notes(n.as_str());
            push_texts(&mut r, q);
            assert(texts(r@) =~= head + (seq!["┃"@, "┃ 📋 Additional Notes (from README.md):"@] + note_lines(n@)));
        },
        None => {
            assert(texts(r@) =~= head + Seq::<Seq<char>>::empty());
        },
    }
    r
}

/// The lines of the details box, and the result of `devrs blueprint info`.
pub fn info_report(
    name: &str,
    title: &str,
    desc: &str,
    project: &ProjectInfo,
    has_dockerfile: bool,
    tree: &Result<String, String>,
    notes: &Option<String>,
) -> (r: (Vec<String>, Result<(), String>))
    ensures
        ({
            let t = match *tree {
                Ok(s) => Ok(s@),
                Err(e) => Err(e@),
            };
            let o = info_report_of(name@, title@, desc@, project@, has_dockerfile, t, str_opt_of(*notes));
            &&& texts(r.0@) == o.0
            &&& match (r.1, o.1) {
                (Ok(_), Ok(_)) => true,
                (Err(a), Err(b)) => a@ == b,
                _ => false,
            }
        }),
{
    let mut r: Vec<String> = Vec::new();
    push_text(&mut r, String::new());
    push_text(&mut r, "┏━━━━━━━━━━━━━━━━━━━━━━━━━━━━━━━━━━━━━━━━━━━━━━━━━━━━━━━━━━━━━━━━━━━━┓".to_string());
    let mut d = "┃ 🔎 Blueprint Details: ".to_string();
    d.append(name);
    d.append(" ");
    let nl = byte_len(name);
    if nl < 51 {
        push_repeat(&mut d, ' ', (51 - nl) as usize);
    }
    push_text(&mut r, d);
    push_text(&mut r, "┣━━━━━━━━━━━━━━━━━━━━━━━━━━━━━━━━━━━━━━━━━━━━━━━━━━━━━━━━━━━━━━━━━━━━┫".to_string());
    let mut t = "┃ 🏷️  Title:         ".to_string();
    t.append(title);
    push_text(&mut r, t);
    let mut ds = "┃ 📝 Description:   ".to_string();
    ds.append(desc);
    push_text(&mut r, ds);
    push_text(&mut r, "┣--------------------------------------------------------------------┫".to_string());
    push_text(&mut r, "┃ 🛠️  Project Info:".to_string());
    let mut ty = "┃    - Type:          ".to_string();
    ty.append(project.project_type.as_str());
    push_text(&mut r, ty);
    let mut bs = "┃    - Build System:  ".to_string();
    bs.append(project.build_system.as_str());
    push_text(&mut r, bs);
    let mut dk = "┃    - Docker Support: ".to_string();
    dk.append(if has_dockerfile { "Yes" } else { "No" });
    push_text(&mut r, dk);
    push_text(&mut r, "┣--------------------------------------------------------------------┫".to_string());
    push_text(&mut r, "┃ 📁 File Structure:".to_string());
    let ghost head = texts(r@);
    assert(head =~= info_head(name@, title@, desc@, project@, has_dockerfile));
    match tree {
        Ok(s) => {
            let tc = chars_of(s.as_str());
            let ls = split_lines(&tc);
            let mut i: usize = 0;
            while i < ls.len()
                invariant
                    i <= ls.len(),
                    tc@ == s@,
                    ls@.len() == lines(tc@).len(),
                    forall|k: int| 0 <= k < ls@.len() ==> (#[trigger] ls@[k])@ == lines(tc@)[k],
                    texts(r@) == head + Seq::new(i as nat, |k: int| "┃    "@ + lines(tc@)[k]),
                decreases ls.len() - i,
            {
                let mut l = "┃    ".to_string();
                let lt = string_of(&ls[i]);
                l.append(lt.as_str());
                push_text(&mut r, l);
                assert(texts(r@) =~= head + Seq::new((i + 1) as nat, |k: int| "┃    "@ + lines(tc@)[k]));
                i = i + 1;
            }
            push_text(&mut r, "┣--------------------------------------------------------------------┫".to_string());
            let u = usage_section_lines(name, notes);
            push_texts(&mut r, u);
            push_text(&mut r, "┗━━━━━━━━━━━━━━━━━━━━━━━━━━━━━━━━━━━━━━━━━━━━━━━━━━━━━━━━━━━━━━━━━━━━┛".to_string());
            (r, Ok(()))
        },
        Err(_) => {
            push_text(&mut r, "┃    [Error displaying file structure]".to_string());
            (r, Err("Failed to display blueprint file structure".to_string()))
        },
    }
}

/// Whether lowercased heading text mentions one of the usage-like section names.
pub open spec fn mentions_usage_word(w: Seq<char>) -> bool {
    contains(w, "usage"@) || contains(w, "setup"@) || contains(w, "getting started"@) || contains(
        w,
        "installation"@,
    ) || contains(w, "building"@) || contains(w, "running"@)
}

/// The section under the heading at `h`: its lines up to the next heading of the same or
/// a higher level, from the first to the last non-blank one, joined with newlines; `None`
/// when they are all blank.
pub open spec fn section_under(ls: Seq<Seq<char>>, h: int) -> Option<Seq<char>> {
    let lv = heading_level(ls[h]);
    let e = find_from(ls, h + 1, |l: Seq<char>| is_heading(l) && heading_level(l) <= lv);
    let a = find_from(ls, h + 1, |l: Seq<char>| !is_blank(l));
    let b = blank_trimmed_end(ls, a, e);
    if a >= b {
        None
    } else {
        Some(join(ls.subrange(a, b), "\n"@))
    }
}

/// The usage section is the section under the first heading whose text (without its `#`
/// marks, lowercased) mentions "usage", "setup", "getting started", "installation",
/// "building" or "running"; a README without such a heading has none.
pub proof fn lemma_usage_section_heading(content: Seq<char>, h: int)
    requires
        0 <= h <= lines(content).len(),
        forall|j: int|
            0 <= j < h ==> !(is_heading(#[trigger] lines(content)[j]) && mentions_usage_word(
                heading_words(lines(content)[j]),
            )),
        h < lines(content).len() ==> is_heading(lines(content)[h]) && mentions_usage_word(
            heading_words(lines(content)[h]),
        ),
    ensures
        h < lines(content).len() ==> usage_section(content) == section_under(lines(content), h),
        h == lines(content).len() ==> usage_section(content) is None,
{
    let ls = lines(content);
    let p = |l: Seq<char>| is_usage_heading(l);
    lemma_find_from(ls, 0, p);
    let f = find_from(ls, 0, p);
    if f < h {
        assert(p(ls[f]));
        assert(is_heading(ls[f]) && mentions_usage_word(heading_words(ls[f])));
    }
    if h < f {
        assert(!p(ls[h]));
    }
    assert(f == h);
}

/// Finds the first line at or after `i` satisfying `p`, given where it is.
proof fn lemma_find_at(ls: Seq<Seq<char>>, i: int, p: spec_fn(Seq<char>) -> bool, k: int)
    requires
        0 <= i <= k <= ls.len(),
        forall|j: int| i <= j < k ==> !p(#[trigger] ls[j]),
        k < ls.len() ==> p(ls[k]),
    ensures
        find_from(ls, i, p) == k,
{
    lemma_find_from(ls, i, p);
    let f = find_from(ls, i, p);
    if f < k {
        assert(p(ls[f]));
    }
    if k < f {
        assert(!p(ls[k]));
    }
}

/// A run of paragraph lines, trimmed.
proof fn lemma_run_from(ls: Seq<Seq<char>>, i: int, b: int)
    requires
        0 <= i <= b <= ls.len(),
        forall|j: int| i <= j < b ==> trim(#[trigger] ls[j]).len() > 0 && trim(ls[j])[0] != '#',
        b < ls.len() ==> !(trim(ls[b]).len() > 0 && trim(ls[b])[0] != '#'),
    ensures
        run_from(ls, i) == ls.subrange(i, b).map_values(|l: Seq<char>| trim(l)),
    decreases b - i,
{
    if i < b {
        lemma_run_from(ls, i + 1, b);
        assert(ls.subrange(i, b).map_values(|l: Seq<char>| trim(l)) =~= seq![trim(ls[i])]
            + ls.subrange(i + 1, b).map_values(|l: Seq<char>| trim(l)));
    } else {
        assert(ls.subrange(i, b).map_values(|l: Seq<char>| trim(l)) =~= Seq::<Seq<char>>::empty());
    }
}

/// The title is the text of the first line whose trimmed text starts with `# `, with its
/// leading `# ` marks and surrounding whitespace removed; without such a line it is
/// "Blueprint Information".
pub proof fn lemma_readme_title(content: Seq<char>, h: int)
    requires
        0 <= h <= lines(content).len(),
        forall|j: int| 0 <= j < h ==> !starts_with(trim(#[trigger] lines(content)[j]), "# "@),
        h < lines(content).len() ==> starts_with(trim(lines(content)[h]), "# "@),
    ensures
        h < lines(content).len() ==> readme_title(content) == trim(
            strip_all_prefix(trim(lines(content)[h]), "# "@),
        ),
        h == lines(content).len() ==> readme_title(content) == "Blueprint Information"@,
{
    lemma_find_at(lines(content), 0, |l: Seq<char>| is_h1(l), h);
}

/// The description is the first paragraph after the title line (from the start when there
/// is no title): the trimmed lines from the first non-blank, non-heading line up to the
/// next blank line or heading, joined with spaces.
pub proof fn lemma_readme_description(content: Seq<char>, h: int, a: int, b: int)
    requires
        0 <= h <= lines(content).len(),
        forall|j: int| 0 <= j < h ==> !starts_with(trim(#[trigger] lines(content)[j]), "# "@),
        h < lines(content).len() ==> starts_with(trim(lines(content)[h]), "# "@),
        (if h < lines(content).len() {
            h + 1
        } else {
            0
        }) <= a < b <= lines(content).len(),
        forall|j: int|
            (if h < lines(content).len() {
                h + 1
            } else {
                0
            }) <= j < a ==> !(trim(#[trigger] lines(content)[j]).len() > 0 && trim(
                lines(content)[j],
            )[0] != '#'),
        forall|j: int|
            a <= j < b ==> trim(#[trigger] lines(content)[j]).len() > 0 && trim(lines(content)[j])[0]
                != '#',
        b < lines(content).len() ==> !(trim(lines(content)[b]).len() > 0 && trim(
            lines(content)[b],
        )[0] != '#'),
    ensures
        readme_description(content) == join(
            lines(content).subrange(a, b).map_values(|l: Seq<char>| trim(l)),
            " "@,
        ),
{
    let ls = lines(content);
    lemma_find_at(ls, 0, |l: Seq<char>| is_h1(l), h);
    let s = if h < ls.len() {
        h + 1
    } else {
        0
    };
    assert(after_h1(ls) == s);
    lemma_find_at(ls, s, |l: Seq<char>| is_content(l), a);
    lemma_run_from(ls, a, b);
    assert(paragraph_from(ls, s) == ls.subrange(a, b).map_values(|l: Seq<char>| trim(l)));
    assert(paragraph_from(ls, s).len() > 0);
}

} // verus!
