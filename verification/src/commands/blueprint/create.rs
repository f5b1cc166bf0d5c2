//! `devrs blueprint create`: scaffolding a new project from a blueprint.

use crate::text::{
    chars_of, find_char, index_of_from, is_ascii_digit, lemma_index_of_from, lowercase, push_char, starts_with,
    string_from, texts, to_lowercase, to_uppercase, trim, trim_bounds, uppercase,
};
use crate::cli::{
    arg_model, arg_models, arg_ok, args_error_message, argv_texts, clap_outcome, clap_parse,
    command_ok, flag_of, leaf_command, leaf_command_spec, optional_of, pair_ok, pairs_of, read_flag,
    read_optional, read_pairs, read_single, single_of, str_opt_of, value_fits, values_fit,
    values_models, ArgKind, ArgModel, ArgSpec, ArgValues, ArgsError, CommandModel, ValuesModel,
};
use vstd::prelude::*;

verus! {

/// The line describing the command in its help.
pub const ABOUT: &'static str = "# Create Blueprint Arguments (`CreateArgs`)";

/// The message for a `--var` value without `=`.
pub open spec fn key_val_error(s: Seq<char>) -> Seq<char> {
    "Invalid variable format: '"@ + s + "'. Expected format: KEY=VALUE"@
}

/// `KEY=VALUE` split at the first `=`, both sides trimmed; an error without `=`.
pub open spec fn spec_parse_key_val(s: Seq<char>) -> Result<(Seq<char>, Seq<char>), Seq<char>> {
    let i = index_of_from(s, 0, '=');
    if i >= s.len() {
        Err(key_val_error(s))
    } else {
        Ok((trim(s.take(i)), trim(s.skip(i + 1))))
    }
}

/// Parses a `KEY=VALUE` template variable.
pub fn parse_key_val(s: &str) -> (r: Result<(String, String), String>)
    ensures
        match r {
            Ok((k, v)) => spec_parse_key_val(s@) == Ok::<(Seq<char>, Seq<char>), Seq<char>>((k@, v@)),
            Err(e) => spec_parse_key_val(s@) == Err::<(Seq<char>, Seq<char>), Seq<char>>(e@),
        },
{
    let v = chars_of(s);
    let i = find_char(&v, 0, '=');
    if i >= v.len() {
        let mut msg = "Invalid variable format: '".to_string();
        msg.append(s);
        msg.append("'. Expected format: KEY=VALUE");
        return Err(msg);
    }
    let (a, b) = trim_bounds(&v, 0, i);
    let (c, d) = trim_bounds(&v, i + 1, v.len());
    assert(v@.subrange(0, i as int) == v@.take(i as int));
    assert(v@.subrange(i + 1, v@.len() as int) == v@.skip(i + 1));
    Ok((string_from(&v, a, b), string_from(&v, c, d)))
}

/// A word delimiter in project names.
pub open spec fn is_delimiter(c: char) -> bool {
    c == '-' || c == '_'
}

/// ASCII uppercase of one character, as `char::to_ascii_uppercase` does.
pub open spec fn ascii_upper(c: char) -> char {
    if 'a' <= c && c <= 'z' {
        ((c as u32) - 32) as char
    } else {
        c
    }
}

/// ASCII lowercase of one character, as `char::to_ascii_lowercase` does.
pub open spec fn ascii_lower(c: char) -> char {
    if 'A' <= c && c <= 'Z' {
        ((c as u32) + 32) as char
    } else {
        c
    }
}

/// ASCII uppercase of one character.
pub fn to_ascii_upper(c: char) -> (r: char)
    ensures
        r == ascii_upper(c),
{
    if 'a' <= c && c <= 'z' {
        let n: u8 = c as u8;
        assert(n == c as u32);
        let m: u8 = n - 32;
        m as char
    } else {
        c
    }
}

/// ASCII lowercase of one character.
pub fn to_ascii_lower(c: char) -> (r: char)
    ensures
        r == ascii_lower(c),
{
    if 'A' <= c && c <= 'Z' {
        let n: u8 = c as u8;
        assert(n == c as u32);
        let m: u8 = n + 32;
        m as char
    } else {
        c
    }
}


/// Hyphens replaced by underscores.
pub open spec fn hyphens_to_underscores(s: Seq<char>) -> Seq<char> {
    s.map_values(|c: char| if c == '-' { '_' } else { c })
}

/// snake_case: hyphens become underscores, then everything is lowercased.
pub open spec fn snake_case(s: Seq<char>) -> Seq<char> {
    lowercase(hyphens_to_underscores(s))
}

/// Whether a character is an ASCII capital letter.
pub open spec fn is_ascii_capital(c: char) -> bool {
    'A' <= c && c <= 'Z'
}

/// Whether a character is an ASCII small letter.
pub open spec fn is_ascii_small(c: char) -> bool {
    'a' <= c && c <= 'z'
}

/// Where the run of ASCII capitals starting at `i` ends.
pub open spec fn capital_run_end(s: Seq<char>, i: int) -> int
    decreases s.len() - i,
{
    if 0 <= i < s.len() && is_ascii_capital(s[i]) {
        capital_run_end(s, i + 1)
    } else {
        i
    }
}

/// How many leading characters form the first word's capitals, lowercased together: the
/// leading run of capitals, except that when two or more capitals are followed by a small
/// letter the last capital starts the next word (`HTTPRequest`: `HTTP`).
pub open spec fn leading_capitals(s: Seq<char>) -> int {
    let l = capital_run_end(s, 0);
    if l >= 2 && l < s.len() && is_ascii_small(s[l]) {
        l - 1
    } else {
        l
    }
}

/// What character `k` of `s` contributes to camelCase: delimiters are dropped, a
/// character right after a delimiter is uppercased, the first character and the leading
/// capitals (see `leading_capitals`) are lowercased, and any other character is kept.
pub open spec fn camel_piece(s: Seq<char>, k: int) -> Seq<char> {
    if is_delimiter(s[k]) {
        Seq::empty()
    } else if k > 0 && is_delimiter(s[k - 1]) {
        seq![ascii_upper(s[k])]
    } else if k == 0 || k < leading_capitals(s) {
        seq![ascii_lower(s[k])]
    } else {
        seq![s[k]]
    }
}

/// What character `k` of `s` contributes to PascalCase: delimiters are dropped, the first
/// character and a character right after a delimiter are uppercased, others are kept.
pub open spec fn pascal_piece(s: Seq<char>, k: int) -> Seq<char> {
    if is_delimiter(s[k]) {
        Seq::empty()
    } else if k == 0 || is_delimiter(s[k - 1]) {
        seq![ascii_upper(s[k])]
    } else {
        seq![s[k]]
    }
}

/// camelCase of the first `n` characters of `s`.
pub open spec fn camel_prefix(s: Seq<char>, n: int) -> Seq<char>
    decreases n,
{
    if n <= 0 {
        Seq::empty()
    } else {
        camel_prefix(s, n - 1) + camel_piece(s, n - 1)
    }
}

/// PascalCase of the first `n` characters of `s`.
pub open spec fn pascal_prefix(s: Seq<char>, n: int) -> Seq<char>
    decreases n,
{
    if n <= 0 {
        Seq::empty()
    } else {
        pascal_prefix(s, n - 1) + pascal_piece(s, n - 1)
    }
}

/// camelCase of `s`.
pub open spec fn camel_case(s: Seq<char>) -> Seq<char> {
    camel_prefix(s, s.len() as int)
}

/// PascalCase of `s`.
pub open spec fn pascal_case(s: Seq<char>) -> Seq<char> {
    pascal_prefix(s, s.len() as int)
}

/// Converts a name to snake_case.
pub fn to_snake_case(input: &str) -> (r: String)
    ensures
        r@ == snake_case(input@),
{
    let v = chars_of(input);
    let mut replaced = String::new();
    let mut i: usize = 0;
    while i < v.len()
        invariant
            i <= v.len(),
            v@ == input@,
            replaced@ == hyphens_to_underscores(v@.take(i as int)),
        decreases v.len() - i,
    {
        let c = v[i];
        push_char(&mut replaced, if c == '-' { '_' } else { c });
        assert(hyphens_to_underscores(v@.take(i + 1)) =~= hyphens_to_underscores(v@.take(i as int)).push(
            if c == '-' { '_' } else { c },
        ));
        i = i + 1;
    }
    assert(v@.take(v@.len() as int) == v@);
    to_lowercase(replaced.as_str())
}

/// Converts a kebab-case or snake_case name to camelCase; a leading run of capitals is
/// lowercased as one word (`HTTPRequest` gives `httpRequest`).
pub fn to_camel_case(input: &str) -> (r: String)
    ensures
        r@ == camel_case(input@),
{
    let v = chars_of(input);
    let mut l: usize = 0;
    while l < v.len() && 'A' <= v[l] && v[l] <= 'Z'
        invariant
            l <= v.len(),
            v@ == input@,
            capital_run_end(v@, 0) == capital_run_end(v@, l as int),
        decreases v.len() - l,
    {
        l = l + 1;
    }
    let lead: usize = if l >= 2 && l < v.len() && 'a' <= v[l] && v[l] <= 'z' { l - 1 } else { l };
    assert(lead == leading_capitals(v@));
    let mut result = String::new();
    let mut capitalize_next = false;
    let mut i: usize = 0;
    while i < v.len()
        invariant
            i <= v.len(),
            v@ == input@,
            lead == leading_capitals(v@),
            result@ == camel_prefix(v@, i as int),
            capitalize_next <==> (i > 0 && is_delimiter(v@[i - 1])),
        decreases v.len() - i,
    {
        let c = v[i];
        if c == '-' || c == '_' {
            capitalize_next = true;
        } else if capitalize_next {
            push_char(&mut result, to_ascii_upper(c));
            capitalize_next = false;
        } else if i == 0 || i < lead {
            push_char(&mut result, to_ascii_lower(c));
        } else {
            push_char(&mut result, c);
        }
        i = i + 1;
    }
    result
}


/// Converts a kebab-case or snake_case name to PascalCase.
pub fn to_pascal_case(input: &str) -> (r: String)
    ensures
        r@ == pascal_case(input@),
{
    let v = chars_of(input);
    let mut result = String::new();
    let mut capitalize_next = true;
    let mut i: usize = 0;
    while i < v.len()
        invariant
            i <= v.len(),
            v@ == input@,
            result@ == pascal_prefix(v@, i as int),
            capitalize_next <==> (i == 0 || is_delimiter(v@[i - 1])),
        decreases v.len() - i,
    {
        let c = v[i];
        if c == '-' || c == '_' {
            capitalize_next = true;
        } else if capitalize_next {
            push_char(&mut result, to_ascii_upper(c));
            capitalize_next = false;
        } else {
            push_char(&mut result, c);
        }
        i = i + 1;
    }
    result
}


/// Arguments of `devrs blueprint create`.
#[derive(Debug)]
pub struct CreateArgs {
    /// The blueprint to use (a subdirectory of the blueprints directory).
    pub lang: String,
    /// The name of the new project directory.
    pub project_name: String,
    /// The parent directory of the new project; the current directory when absent.
    pub output: Option<String>,
    /// Whether an existing target directory may be written into.
    pub force: bool,
    /// Template variables given with `--var KEY=VALUE`, in order.
    pub var: Vec<(String, String)>,
}

/// The map that a list of entries denotes, later entries overriding earlier ones.
pub open spec fn entries_map(s: Seq<(Seq<char>, Seq<char>)>) -> Map<Seq<char>, Seq<char>>
    decreases s.len(),
{
    if s.len() == 0 {
        Map::empty()
    } else {
        entries_map(s.drop_last()).insert(s.last().0, s.last().1)
    }
}

/// The text views of a list of string pairs.
pub open spec fn pair_views(s: Seq<(String, String)>) -> Seq<(Seq<char>, Seq<char>)> {
    s.map_values(|p: (String, String)| (p.0@, p.1@))
}

/// Entries past index `m` do not mention `k`: the map's entry for `k` is decided by the
/// first `m` entries.
pub proof fn lemma_entries_map_prefix(s: Seq<(Seq<char>, Seq<char>)>, m: int, k: Seq<char>)
    requires
        0 <= m <= s.len(),
        forall|j: int| m <= j < s.len() ==> (#[trigger] s[j]).0 != k,
    ensures
        entries_map(s).contains_key(k) == entries_map(s.take(m)).contains_key(k),
        entries_map(s).contains_key(k) ==> entries_map(s)[k] == entries_map(s.take(m))[k],
    decreases s.len() - m,
{
    if m < s.len() {
        assert(s.drop_last().take(m) == s.take(m));
        lemma_entries_map_prefix(s.drop_last(), m, k);
    } else {
        assert(s.take(m) == s);
    }
}

/// Template variables for rendering a blueprint; a later value for a key replaces an
/// earlier one.
pub struct TemplateContext {
    entries: Vec<(String, String)>,
}

impl View for TemplateContext {
    type V = Map<Seq<char>, Seq<char>>;

    closed spec fn view(&self) -> Map<Seq<char>, Seq<char>> {
        entries_map(pair_views(self.entries@))
    }
}

impl TemplateContext {
    /// An empty context.
    pub fn new() -> (r: TemplateContext)
        ensures
            r@ == Map::<Seq<char>, Seq<char>>::empty(),
    {
        let r = TemplateContext { entries: Vec::new() };
        assert(pair_views(r.entries@) =~= Seq::<(Seq<char>, Seq<char>)>::empty());
        r
    }

    /// Sets `key` to `value`.
    pub fn insert(&mut self, key: String, value: String)
        ensures
            final(self)@ == old(self)@.insert(key@, value@),
    {
        let ghost old_views = pair_views(self.entries@);
        let ghost kv = key@;
        let ghost vv = value@;
        self.entries.push((key, value));
        assert(pair_views(self.entries@).drop_last() =~= old_views);
        assert(pair_views(self.entries@).last() == (kv, vv));
    }

    /// The value of `key`, if set.
    pub fn get(&self, key: &str) -> (r: Option<String>)
        ensures
            match r {
                Some(v) => self@.contains_key(key@) && self@[key@] == v@,
                None => !self@.contains_key(key@),
            },
    {
        let ghost s = pair_views(self.entries@);
        let mut i = self.entries.len();
        while i > 0
            invariant
                i <= self.entries.len(),
                s == pair_views(self.entries@),
                forall|j: int| i <= j < s.len() ==> (#[trigger] s[j]).0 != key@,
            decreases i,
        {
            let e = &self.entries[i - 1];
            assert(s[i - 1] == (e.0@, e.1@));
            if crate::text::str_is(e.0.as_str(), key) {
                proof {
                    lemma_entries_map_prefix(s, i as int, key@);
                    assert(s.take(i as int).last() == s[i - 1]);
                    assert(s.take(i as int).drop_last() == s.take(i - 1));
                }
                return Some(e.1.clone());
            }
            i = i - 1;
        }
        proof {
            lemma_entries_map_prefix(s, 0, key@);
            assert(s.take(0) =~= Seq::<(Seq<char>, Seq<char>)>::empty());
        }
        None
    }

    /// All entries in the order they were set; later entries replace earlier ones.
    pub fn entries(&self) -> (r: Vec<(String, String)>)
        ensures
            entries_map(pair_views(r@)) == self@,
    {
        let mut r: Vec<(String, String)> = Vec::new();
        let mut i: usize = 0;
        while i < self.entries.len()
            invariant
                i <= self.entries.len(),
                r@.len() == i,
                pair_views(r@) == pair_views(self.entries@).take(i as int),
            decreases self.entries.len() - i,
        {
            let e = &self.entries[i];
            let p = (e.0.clone(), e.1.clone());
            assert(p.0@ == e.0@ && p.1@ == e.1@);
            r.push(p);
            assert(r@[i as int] == p);
            assert(pair_views(r@)[i as int] == pair_views(self.entries@)[i as int]);
            assert(pair_views(r@) =~= pair_views(self.entries@).take(i + 1));
            i = i + 1;
        }
        assert(pair_views(self.entries@).take(i as int) == pair_views(self.entries@));
        r
    }
}

/// The date, year and time at which a project is created.
pub struct LocalStamp {
    /// The date, `YYYY-MM-DD`.
    pub date: String,
    /// The year, `YYYY`.
    pub year: String,
    /// The time of day, `HH:MM:SS`.
    pub time: String,
}

/// Two ASCII digits.
pub open spec fn two_digits(s: Seq<char>) -> bool {
    s.len() == 2 && is_ascii_digit(s[0]) && is_ascii_digit(s[1])
}

/// Reads the local clock through `chrono::Local::now` and formats it with `%Y-%m-%d`,
/// `%Y` and `%H:%M:%S`. The three fields come from one reading, so the date begins with
/// the year; `chrono` writes the year in at least four characters and the month, day,
/// hour, minute and second in two digits each. The values themselves depend on the
/// clock and are not stated.
#[verifier::external_body]
pub fn local_stamp() -> (r: LocalStamp)
    ensures
        starts_with(r.date@, r.year@),
        r.year@.len() >= 4,
        r.date@.len() == r.year@.len() as int + 6,
        r.date@[r.year@.len() as int] == '-',
        two_digits(r.date@.subrange(r.year@.len() as int + 1, r.year@.len() as int + 3)),
        r.date@[r.year@.len() as int + 3] == '-',
        two_digits(r.date@.subrange(r.year@.len() as int + 4, r.year@.len() as int + 6)),
        r.time@.len() == 8,
        two_digits(r.time@.subrange(0, 2)),
        r.time@[2] == ':',
        two_digits(r.time@.subrange(3, 5)),
        r.time@[5] == ':',
        two_digits(r.time@.subrange(6, 8)),
{
    let now = chrono::Local::now();
    LocalStamp {
        date: now.format("%Y-%m-%d").to_string(),
        year: now.format("%Y").to_string(),
        time: now.format("%H:%M:%S").to_string(),
    }
}

/// The user name: `$USER`, else `$USERNAME`, else `user`.
pub open spec fn spec_pick_username(user: Option<Seq<char>>, username: Option<Seq<char>>) -> Seq<char> {
    match user {
        Some(u) => u,
        None => match username {
            Some(u) => u,
            None => "user"@,
        },
    }
}

/// Picks the user name from the values of `$USER` and `$USERNAME`.
pub fn pick_username(user: Option<String>, username: Option<String>) -> (r: String)
    ensures
        r@ == spec_pick_username(
            match user { Some(u) => Some(u@), None => None },
            match username { Some(u) => Some(u@), None => None },
        ),
{
    match user {
        Some(u) => u,
        None => match username {
            Some(u) => u,
            None => "user".to_string(),
        },
    }
}

/// The default variables of a project named `name`.
pub open spec fn default_variables(name: Seq<char>, stamp: (Seq<char>, Seq<char>, Seq<char>), user: Seq<char>) -> Map<Seq<char>, Seq<char>> {
    Map::empty()
        .insert("project_name"@, name)
        .insert("project_name_lowercase"@, lowercase(name))
        .insert("project_name_uppercase"@, uppercase(name))
        .insert("project_name_kebab"@, name)
        .insert("project_name_snake"@, snake_case(name))
        .insert("project_name_camel"@, camel_case(name))
        .insert("project_name_pascal"@, pascal_case(name))
        .insert("current_date"@, stamp.0)
        .insert("current_year"@, stamp.1)
        .insert("current_time"@, stamp.2)
        .insert("username"@, user)
}

/// The variables of a new project: the defaults, then each `--var` in order, a later one
/// replacing an earlier one or a default of the same key.
pub open spec fn template_variables(name: Seq<char>, vars: Seq<(Seq<char>, Seq<char>)>, stamp: (Seq<char>, Seq<char>, Seq<char>), user: Seq<char>) -> Map<Seq<char>, Seq<char>> {
    entries_map(default_entries(name, stamp, user) + vars)
}

/// The default variables as a list of entries.
pub open spec fn default_entries(name: Seq<char>, stamp: (Seq<char>, Seq<char>, Seq<char>), user: Seq<char>) -> Seq<(Seq<char>, Seq<char>)> {
    seq![
        ("project_name"@, name),
        ("project_name_lowercase"@, lowercase(name)),
        ("project_name_uppercase"@, uppercase(name)),
        ("project_name_kebab"@, name),
        ("project_name_snake"@, snake_case(name)),
        ("project_name_camel"@, camel_case(name)),
        ("project_name_pascal"@, pascal_case(name)),
        ("current_date"@, stamp.0),
        ("current_year"@, stamp.1),
        ("current_time"@, stamp.2),
        ("username"@, user),
    ]
}

/// Builds the template variables for `args`, with the given clock reading and user name.
pub fn build_template_context_at(args: &CreateArgs, stamp: &LocalStamp, username: &str) -> (r: TemplateContext)
    ensures
        r@ == template_variables(
            args.project_name@,
            pair_views(args.var@),
            (stamp.date@, stamp.year@, stamp.time@),
            username@,
        ),
{
    let name = args.project_name.as_str();
    let mut ctx = TemplateContext { entries: Vec::new() };
    ctx.entries.push(("project_name".to_string(), args.project_name.clone()));
    ctx.entries.push(("project_name_lowercase".to_string(), to_lowercase(name)));
    ctx.entries.push(("project_name_uppercase".to_string(), to_uppercase(name)));
    ctx.entries.push(("project_name_kebab".to_string(), args.project_name.clone()));
    ctx.entries.push(("project_name_snake".to_string(), to_snake_case(name)));
    ctx.entries.push(("project_name_camel".to_string(), to_camel_case(name)));
    ctx.entries.push(("project_name_pascal".to_string(), to_pascal_case(name)));
    ctx.entries.push(("current_date".to_string(), stamp.date.clone()));
    ctx.entries.push(("current_year".to_string(), stamp.year.clone()));
    ctx.entries.push(("current_time".to_string(), stamp.time.clone()));
    ctx.entries.push(("username".to_string(), username.to_string()));
    let ghost defaults = default_entries(
        args.project_name@,
        (stamp.date@, stamp.year@, stamp.time@),
        username@,
    );
    assert(pair_views(ctx.entries@) =~= defaults);
    let mut i: usize = 0;
    while i < args.var.len()
        invariant
            i <= args.var.len(),
            defaults.len() == 11,
            pair_views(ctx.entries@) == defaults + pair_views(args.var@).take(i as int),
        decreases args.var.len() - i,
    {
        let e = &args.var[i];
        let p = (e.0.clone(), e.1.clone());
        assert(p.0@ == e.0@ && p.1@ == e.1@);
        let ghost before = ctx.entries@;
        ctx.entries.push(p);
        assert(ctx.entries@ == before.push(p));
        assert(pair_views(ctx.entries@) =~= pair_views(before).push((e.0@, e.1@)));
        assert(pair_views(args.var@).take(i + 1) =~= pair_views(args.var@).take(i as int).push((e.0@, e.1@)));
        assert(pair_views(ctx.entries@) =~= defaults + pair_views(args.var@).take(i + 1));
        i = i + 1;
    }
    assert(pair_views(args.var@).take(i as int) == pair_views(args.var@));
    ctx
}

/// Builds the template variables for `args`: reads the local clock, then proceeds as
/// `build_template_context_at`.
pub fn build_template_context(args: &CreateArgs, username: &str) -> (r: TemplateContext)
    ensures
        exists|date: Seq<char>, year: Seq<char>, time: Seq<char>|
            starts_with(date, year) && r@ == template_variables(
                args.project_name@,
                pair_views(args.var@),
                (date, year, time),
                username@,
            ),
{
    let stamp = local_stamp();
    build_template_context_at(args, &stamp, username)
}


/// What a path names on disk.
#[derive(Clone, Copy, PartialEq, Eq, Structural, Debug)]
pub enum PathKind {
    /// Nothing exists there.
    Missing,
    /// A file (or anything that is not a directory).
    File,
    /// A directory.
    Directory,
}

/// Why a project cannot be created.
#[derive(Debug)]
pub enum CreateError {
    /// The blueprint directory does not exist.
    BlueprintNotFound { lang: String, root: String },
    /// The blueprint path exists but is not a directory.
    BlueprintNotDirectory { path: String },
    /// The target path exists and is a file.
    TargetIsFile { path: String },
    /// The target directory exists and `--force` was not given.
    TargetExists { path: String },
}

/// How the target directory is to be used.
#[derive(Clone, Copy, PartialEq, Eq, Structural, Debug)]
pub enum TargetPlan {
    /// Render into the existing directory (`--force`); files may be overwritten.
    Overwrite,
    /// Create the directory (and its parents as needed).
    CreateNew,
}

/// The outcome of checking the source blueprint and the target directory.
pub open spec fn spec_check_paths(source: PathKind, target: PathKind, force: bool) -> Result<TargetPlan, int> {
    if source == PathKind::Missing {
        Err(0)
    } else if source == PathKind::File {
        Err(1)
    } else if target == PathKind::File {
        Err(2)
    } else if target == PathKind::Directory {
        if force {
            Ok(TargetPlan::Overwrite)
        } else {
            Err(3)
        }
    } else {
        Ok(TargetPlan::CreateNew)
    }
}

/// The number that `spec_check_paths` gives each kind of error.
pub open spec fn error_code(e: CreateError) -> int {
    match e {
        CreateError::BlueprintNotFound { .. } => 0,
        CreateError::BlueprintNotDirectory { .. } => 1,
        CreateError::TargetIsFile { .. } => 2,
        CreateError::TargetExists { .. } => 3,
    }
}

/// Checks the blueprint source directory and the target project directory: the source
/// must be a directory; an existing target must be a directory, and is used only with
/// `--force`.
pub fn check_paths(
    lang: &str,
    root: &str,
    source_path: &str,
    source: PathKind,
    target_path: &str,
    target: PathKind,
    force: bool,
) -> (r: Result<TargetPlan, CreateError>)
    ensures
        match r {
            Ok(plan) => spec_check_paths(source, target, force) == Ok::<TargetPlan, int>(plan),
            Err(e) => spec_check_paths(source, target, force) == Err::<TargetPlan, int>(error_code(e))
                && match e {
                CreateError::BlueprintNotFound { lang: l, root: rt } => l@ == lang@ && rt@ == root@,
                CreateError::BlueprintNotDirectory { path } => path@ == source_path@,
                CreateError::TargetIsFile { path } => path@ == target_path@,
                CreateError::TargetExists { path } => path@ == target_path@,
            },
        },
{
    match source {
        PathKind::Missing => {
            return Err(CreateError::BlueprintNotFound { lang: lang.to_string(), root: root.to_string() });
        },
        PathKind::File => {
            return Err(CreateError::BlueprintNotDirectory { path: source_path.to_string() });
        },
        PathKind::Directory => {},
    }
    match target {
        PathKind::File => Err(CreateError::TargetIsFile { path: target_path.to_string() }),
        PathKind::Directory => {
            if force {
                Ok(TargetPlan::Overwrite)
            } else {
                Err(CreateError::TargetExists { path: target_path.to_string() })
            }
        },
        PathKind::Missing => Ok(TargetPlan::CreateNew),
    }
}

/// The message of a `CreateError`.
pub open spec fn create_error_message(e: CreateError) -> Seq<char> {
    match e {
        CreateError::BlueprintNotFound { lang, root } => "Blueprint '"@ + lang@ + "' not found in '"@ + root@
            + "'. Run 'devrs blueprint list' to see available blueprints."@,
        CreateError::BlueprintNotDirectory { path } => "Blueprint path '"@ + path@
            + "' exists but is not a directory."@,
        CreateError::TargetIsFile { path } => "Target path '"@ + path@
            + "' exists but is a file, cannot create project directory."@,
        CreateError::TargetExists { path } => "Target directory '"@ + path@
            + "' already exists. Use --force to overwrite or choose a different project name/output directory."@,
    }
}

impl CreateError {
    /// The message shown to the user.
    pub fn message(&self) -> (r: String)
        ensures
            r@ == create_error_message(*self),
    {
        match self {
            CreateError::BlueprintNotFound { lang, root } => {
                let mut m = "Blueprint '".to_string();
                m.append(lang.as_str());
                m.append("' not found in '");
                m.append(root.as_str());
                m.append("'. Run 'devrs blueprint list' to see available blueprints.");
                m
            },
            CreateError::BlueprintNotDirectory { path } => {
                let mut m = "Blueprint path '".to_string();
                m.append(path.as_str());
                m.append("' exists but is not a directory.");
                m
            },
            CreateError::TargetIsFile { path } => {
                let mut m = "Target path '".to_string();
                m.append(path.as_str());
                m.append("' exists but is a file, cannot create project directory.");
                m
            },
            CreateError::TargetExists { path } => {
                let mut m = "Target directory '".to_string();
                m.append(path.as_str());
                m.append(
                    "' already exists. Use --force to overwrite or choose a different project name/output directory.",
                );
                m
            },
        }
    }
}

/// The path from `base` to `path`, as `pathdiff::diff_paths` computes it (lexically).
pub uninterp spec fn relative_path(path: Seq<char>, base: Seq<char>) -> Option<Seq<char>>;

/// Calls `pathdiff::diff_paths`; its result is named `relative_path` of the two paths.
#[verifier::external_body]
fn diff_paths(path: &str, base: &str) -> (r: Option<String>)
    ensures
        match r {
            Some(p) => relative_path(path@, base@) == Some(p@),
            None => relative_path(path@, base@) is None,
        },
{
    match pathdiff::diff_paths(path, base) {
        Some(p) => Some(p.display().to_string()),
        None => None,
    }
}

/// The path to show in `cd <path>`: relative to the current directory where one can be
/// computed, else the target path as is.
pub open spec fn spec_navigation_path(target: Seq<char>, cwd: Option<Seq<char>>) -> Seq<char> {
    match cwd {
        Some(c) => match relative_path(target, c) {
            Some(p) => p,
            None => target,
        },
        None => target,
    }
}

/// The path to show in `cd <path>` after creating a project at `target`.
pub fn navigation_path(target: &str, cwd: Option<&str>) -> (r: String)
    ensures
        r@ == spec_navigation_path(target@, match cwd { Some(c) => Some(c@), None => None }),
{
    match cwd {
        Some(c) => match diff_paths(target, c) {
            Some(p) => p,
            None => target.to_string(),
        },
        None => target.to_string(),
    }
}

/// Marker files present in a newly created project.
pub struct ProjectMarkers {
    pub readme: bool,
    pub cargo_toml: bool,
    pub go_mod: bool,
    pub package_json: bool,
    pub requirements_txt: bool,
    pub pyproject_toml: bool,
    pub cmake_lists: bool,
}

/// The lines of the build step, numbered `n`.
pub open spec fn build_step_lines(m: ProjectMarkers, n: Seq<char>) -> Seq<Seq<char>> {
    if m.cargo_toml {
        seq!["  "@ + n + ". Build the Rust project: cargo build"@]
    } else if m.go_mod {
        seq!["  "@ + n + ". Tidy Go modules and build: go mod tidy && go build"@]
    } else if m.package_json {
        seq!["  "@ + n + ". Install Node.js dependencies: npm install (or yarn install)"@]
    } else if m.requirements_txt || m.pyproject_toml {
        seq![
            "  "@ + n + ". Install Python dependencies (consider using a virtual environment):"@,
            "     python -m venv .venv && source .venv/bin/activate"@,
            if m.pyproject_toml {
                "     pip install -e . (or use poetry/pdm install)"@
            } else {
                "     pip install -r requirements.txt"@
            },
        ]
    } else if m.cmake_lists {
        seq![
            "  "@ + n + ". Configure and build using CMake:"@,
            "     cmake --preset debug && cmake --build build --config Debug"@,
            "     # Or: cmake --preset release && cmake --build build --config Release"@,
        ]
    } else {
        Seq::empty()
    }
}

/// The lines printed after a project is created: a header with its location, then
/// numbered next steps (`cd`, reading the README if there is one, and the build step
/// of the first recognized project kind).
pub open spec fn completion_lines(name: Seq<char>, location: Seq<char>, cd_path: Seq<char>, m: ProjectMarkers) -> Seq<Seq<char>> {
    seq![
        "\n✅ Project '"@ + name + "' created successfully!"@,
        "   Location: "@ + location,
        "\nNext steps:"@,
        "  1. Navigate to your project: cd "@ + cd_path,
    ] + (if m.readme {
        seq!["  2. Review project instructions: cat README.md"@]
    } else {
        Seq::empty()
    }) + build_step_lines(m, if m.readme { "3"@ } else { "2"@ })
}

/// The lines to print after creating project `name` at `location`.
pub fn completion_message(name: &str, location: &str, cd_path: &str, m: &ProjectMarkers) -> (r: Vec<String>)
    ensures
        texts(r@) == completion_lines(name@, location@, cd_path@, *m),
{
    let mut out: Vec<String> = Vec::new();
    let mut l1 = "\n✅ Project '".to_string();
    l1.append(name);
    l1.append("' created successfully!");
    out.push(l1);
    let mut l2 = "   Location: ".to_string();
    l2.append(location);
    out.push(l2);
    out.push("\nNext steps:".to_string());
    let mut l4 = "  1. Navigate to your project: cd ".to_string();
    l4.append(cd_path);
    out.push(l4);
    let ghost head = texts(out@);
    if m.readme {
        out.push("  2. Review project instructions: cat README.md".to_string());
    }
    let ghost with_readme = texts(out@);
    let n = if m.readme { "3" } else { "2" };
    let mut step = "  ".to_string();
    step.append(n);
    if m.cargo_toml {
        step.append(". Build the Rust project: cargo build");
        out.push(step);
    } else if m.go_mod {
        step.append(". Tidy Go modules and build: go mod tidy && go build");
        out.push(step);
    } else if m.package_json {
        step.append(". Install Node.js dependencies: npm install (or yarn install)");
        out.push(step);
    } else if m.requirements_txt || m.pyproject_toml {
        step.append(". Install Python dependencies (consider using a virtual environment):");
        out.push(step);
        out.push("     python -m venv .venv && source .venv/bin/activate".to_string());
        if m.pyproject_toml {
            out.push("     pip install -e . (or use poetry/pdm install)".to_string());
        } else {
            out.push("     pip install -r requirements.txt".to_string());
        }
    } else if m.cmake_lists {
        step.append(". Configure and build using CMake:");
        out.push(step);
        out.push("     cmake --preset debug && cmake --build build --config Debug".to_string());
        out.push("     # Or: cmake --preset release && cmake --build build --config Release".to_string());
    }
    proof {
        let c = completion_lines(name@, location@, cd_path@, *m);
        assert(texts(out@) =~= c);
    }
    out
}


impl CreateArgs {
    /// The arguments, in order.
    pub open spec fn spec_args() -> Seq<ArgModel> {
        seq![
            arg_model("lang"@, ArgKind::Single).with_long("lang"@).with_short('l').with_required()
                .with_help("Specifies the blueprint language/template to use (e.g., \"rust\", \"go\"). This corresponds to a subdirectory name within the configured blueprints directory"@)
                .with_value_name("LANG"@),
            arg_model("project_name"@, ArgKind::Single).with_required()
                .with_help("The desired name for the new project directory. This name will also be available as a variable within the templates (e.g., `project_name`)"@)
                .with_value_name("PROJECT_NAME"@),
            arg_model("output"@, ArgKind::Single).with_long("output"@).with_short('o')
                .with_help("Optional: Specifies the parent directory where the new project directory should be created. If omitted, the current working directory is used"@)
                .with_value_name("OUTPUT"@),
            arg_model("force"@, ArgKind::Flag).with_long("force"@).with_short('f')
                .with_help("Optional: If set, allows overwriting an existing directory at the target path. Without this flag, the command will fail if the target directory already exists"@),
            arg_model("var"@, ArgKind::KeyValue).with_long("var"@)
                .with_help("Optional: Defines custom key-value pairs to be passed as variables to the template rendering engine. Can be specified multiple times. Example: `--var author=\"Your Name\" --var version=\"1.0\"` These variables can override default variables (like `project_name`)"@)
                .with_value_name("VAR"@),
        ]
    }

    /// The command.
    pub open spec fn spec_command() -> CommandModel {
        leaf_command("create"@, Some(ABOUT@), Self::spec_args())
    }

    /// The arguments, in order.
    pub fn args() -> (r: Vec<ArgSpec>)
        ensures
            arg_models(r@) == Self::spec_args(),
    {
        let r = vec![
            ArgSpec::new("lang", ArgKind::Single).long("lang").short('l').required()
                .help("Specifies the blueprint language/template to use (e.g., \"rust\", \"go\"). This corresponds to a subdirectory name within the configured blueprints directory")
                .value_name("LANG"),
            ArgSpec::new("project_name", ArgKind::Single).required()
                .help("The desired name for the new project directory. This name will also be available as a variable within the templates (e.g., `project_name`)")
                .value_name("PROJECT_NAME"),
            ArgSpec::new("output", ArgKind::Single).long("output").short('o')
                .help("Optional: Specifies the parent directory where the new project directory should be created. If omitted, the current working directory is used")
                .value_name("OUTPUT"),
            ArgSpec::new("force", ArgKind::Flag).long("force").short('f')
                .help("Optional: If set, allows overwriting an existing directory at the target path. Without this flag, the command will fail if the target directory already exists"),
            ArgSpec::new("var", ArgKind::KeyValue).long("var")
                .help("Optional: Defines custom key-value pairs to be passed as variables to the template rendering engine. Can be specified multiple times. Example: `--var author=\"Your Name\" --var version=\"1.0\"` These variables can override default variables (like `project_name`)")
                .value_name("VAR"),
        ];
        assert(arg_models(r@) =~= Self::spec_args());
        r
    }

    /// `clap` accepts the command.
    #[verifier::spinoff_prover]
    pub proof fn lemma_command_ok()
        ensures
            command_ok(Self::spec_command()),
    {
        reveal_strlit("lang");
        reveal_strlit("project_name");
        reveal_strlit("output");
        reveal_strlit("force");
        reveal_strlit("var");
        reveal_strlit("help");
        reveal_strlit("version");
        assert("lang"@[0] != "help"@[0]);
        let a = Self::spec_args();
        assert(arg_ok(a[0]));
        assert(arg_ok(a[1]));
        assert(arg_ok(a[2]));
        assert(arg_ok(a[3]));
        assert(arg_ok(a[4]));
        assert forall|i: int| 0 <= i < a.len() implies arg_ok(#[trigger] a[i]) by {
            assert(i == 0 || i == 1 || i == 2 || i == 3 || i == 4);
        }
        assert forall|i: int, j: int| 0 <= i < j < a.len() implies pair_ok(
            #[trigger] a[i],
            #[trigger] a[j],
        ) by {
            assert(i == 0 || i == 1 || i == 2 || i == 3 || i == 4);
            assert(j == 0 || j == 1 || j == 2 || j == 3 || j == 4);
        }
    }

    /// Whether the fields are the parsed values.
    pub open spec fn read_from(self, vals: Seq<ValuesModel>) -> bool {
        &&& self.lang@ == single_of(vals[0])
        &&& self.project_name@ == single_of(vals[1])
        &&& str_opt_of(self.output) == optional_of(vals[2])
        &&& self.force == flag_of(vals[3])
        &&& pair_views(self.var@) == pairs_of(vals[4])
    }

    /// The fields from parsed values.
    pub fn from_values(vals: &Vec<ArgValues>) -> (r: CreateArgs)
        requires
            values_fit(Self::spec_args(), values_models(vals@)),
        ensures
            r.read_from(values_models(vals@)),
    {
        let ghost v = values_models(vals@);
        assert(value_fits(Self::spec_args()[0], v[0]));
        assert(value_fits(Self::spec_args()[1], v[1]));
        assert(value_fits(Self::spec_args()[2], v[2]));
        assert(value_fits(Self::spec_args()[3], v[3]));
        assert(value_fits(Self::spec_args()[4], v[4]));
        CreateArgs {
            lang: read_single(&vals[0]),
            project_name: read_single(&vals[1]),
            output: read_optional(&vals[2]),
            force: read_flag(&vals[3]),
            var: read_pairs(&vals[4]),
        }
    }

    /// Parses a command line (the command's name first) as `clap` would for these
    /// arguments.
    pub fn try_parse_from(argv: &[&str]) -> (r: Result<CreateArgs, ArgsError>)
        ensures
            match clap_outcome(Self::spec_command(), argv_texts(argv@)) {
                Ok(p) => r matches Ok(a) && a.read_from(p.values),
                Err((m, answered)) => r matches Err(e) && args_error_message(e) == m && (e is Answered
                    <==> answered),
            },
    {
        let spec = leaf_command_spec("create", ABOUT, Self::args());
        proof {
            Self::lemma_command_ok();
        }
        match clap_parse(&spec, argv) {
            Ok(p) => Ok(Self::from_values(&p.values)),
            Err((m, answered)) => Err(
                if answered {
                    ArgsError::Answered(m)
                } else {
                    ArgsError::Rejected(m)
                },
            ),
        }
    }
}

/// The map of two lists of entries in turn: the second's entries override the first's.
pub proof fn lemma_entries_map_concat(a: Seq<(Seq<char>, Seq<char>)>, b: Seq<(Seq<char>, Seq<char>)>)
    ensures
        entries_map(a + b) == entries_map(a).union_prefer_right(entries_map(b)),
    decreases b.len(),
{
    if b.len() == 0 {
        assert(a + b =~= a);
        assert(entries_map(a).union_prefer_right(Map::empty()) =~= entries_map(a));
    } else {
        lemma_entries_map_concat(a, b.drop_last());
        assert((a + b).drop_last() =~= a + b.drop_last());
        assert((a + b).last() == b.last());
        assert(entries_map(a + b) =~= entries_map(a).union_prefer_right(entries_map(b)));
    }
}

/// A new project's variables are the defaults with every `--var` laid over them: a key
/// given with `--var` takes the last value given for it, every other key keeps its
/// default.
pub proof fn lemma_vars_override_defaults(
    name: Seq<char>,
    vars: Seq<(Seq<char>, Seq<char>)>,
    stamp: (Seq<char>, Seq<char>, Seq<char>),
    user: Seq<char>,
)
    ensures
        template_variables(name, vars, stamp, user) == default_variables(name, stamp, user).union_prefer_right(
            entries_map(vars),
        ),
{
    lemma_entries_map_concat(default_entries(name, stamp, user), vars);
    reveal_with_fuel(entries_map, 12);
    assert(entries_map(default_entries(name, stamp, user)) =~= default_variables(name, stamp, user));
}

/// How many characters of `s` are not delimiters.
pub open spec fn non_delimiters(s: Seq<char>) -> nat
    decreases s.len(),
{
    if s.len() == 0 {
        0
    } else {
        non_delimiters(s.drop_last()) + if is_delimiter(s.last()) {
            0nat
        } else {
            1nat
        }
    }
}

/// ASCII uppercasing never makes a delimiter of a non-delimiter, and doing it twice is
/// doing it once.
pub proof fn lemma_ascii_upper(c: char)
    ensures
        !is_delimiter(c) ==> !is_delimiter(ascii_upper(c)),
        ascii_upper(ascii_upper(c)) == ascii_upper(c),
{
    if 'a' <= c && c <= 'z' {
        let u = ((c as u32) - 32) as char;
        assert(65 <= (c as u32) - 32 <= 90);
        assert(u as u32 == (c as u32) - 32);
        assert(!('a' <= u && u <= 'z'));
    }
}

/// PascalCase of a prefix holds no delimiter and one character per non-delimiter.
proof fn lemma_pascal_prefix_shape(s: Seq<char>, n: int)
    requires
        0 <= n <= s.len(),
    ensures
        pascal_prefix(s, n).len() == non_delimiters(s.take(n)),
        forall|i: int| 0 <= i < pascal_prefix(s, n).len() ==> !is_delimiter(
            #[trigger] pascal_prefix(s, n)[i],
        ),
    decreases n,
{
    if n > 0 {
        lemma_pascal_prefix_shape(s, n - 1);
        assert(s.take(n).drop_last() == s.take(n - 1));
        assert(s.take(n).last() == s[n - 1]);
        lemma_ascii_upper(s[n - 1]);
        let p = pascal_prefix(s, n - 1);
        let q = pascal_piece(s, n - 1);
        assert forall|i: int| 0 <= i < (p + q).len() implies !is_delimiter(#[trigger] (p + q)[i]) by {
            if i >= p.len() {
                assert((p + q)[i] == q[i - p.len()]);
            } else {
                assert((p + q)[i] == p[i]);
            }
        }
    }
}

/// PascalCase of a prefix of a text without delimiters: the prefix with its first
/// character uppercased.
proof fn lemma_pascal_prefix_plain(t: Seq<char>, n: int)
    requires
        0 <= n <= t.len(),
        forall|i: int| 0 <= i < t.len() ==> !is_delimiter(#[trigger] t[i]),
    ensures
        n > 0 ==> pascal_prefix(t, n) == t.take(n).update(0, ascii_upper(t[0])),
        n == 0 ==> pascal_prefix(t, n) == Seq::<char>::empty(),
    decreases n,
{
    if n > 0 {
        lemma_pascal_prefix_plain(t, n - 1);
        if n > 1 {
            assert(!is_delimiter(t[n - 2]));
            assert(t.take(n).update(0, ascii_upper(t[0])) =~= t.take(n - 1).update(
                0,
                ascii_upper(t[0]),
            ) + seq![t[n - 1]]);
        } else {
            assert(t.take(1).update(0, ascii_upper(t[0])) =~= seq![ascii_upper(t[0])]);
        }
    }
}

/// PascalCase leaves no `-` or `_`, keeps one character per other character of its input,
/// and changes nothing when applied again.
pub proof fn lemma_pascal_case_laws(s: Seq<char>)
    ensures
        forall|i: int| 0 <= i < pascal_case(s).len() ==> !is_delimiter(#[trigger] pascal_case(s)[i]),
        pascal_case(s).len() == non_delimiters(s),
        pascal_case(pascal_case(s)) == pascal_case(s),
{
    lemma_pascal_prefix_shape(s, s.len() as int);
    assert(s.take(s.len() as int) == s);
    let t = pascal_case(s);
    lemma_pascal_prefix_plain(t, t.len() as int);
    if t.len() > 0 {
        lemma_first_pascal_char(s, s.len() as int);
        lemma_ascii_upper(t[0]);
        assert(t.take(t.len() as int) == t);
        assert(t.update(0, ascii_upper(t[0])) =~= t);
    }
}

/// The first character of a nonempty PascalCase prefix is already uppercase; an empty one
/// comes from delimiters only.
proof fn lemma_first_pascal_char(s: Seq<char>, n: int)
    requires
        0 <= n <= s.len(),
    ensures
        pascal_prefix(s, n).len() == 0 ==> forall|j: int| 0 <= j < n ==> is_delimiter(#[trigger] s[j]),
        pascal_prefix(s, n).len() > 0 ==> ascii_upper(pascal_prefix(s, n)[0]) == pascal_prefix(s, n)[0],
    decreases n,
{
    if n > 0 {
        lemma_first_pascal_char(s, n - 1);
        let p = pascal_prefix(s, n - 1);
        let q = pascal_piece(s, n - 1);
        if p.len() > 0 {
            assert((p + q)[0] == p[0]);
        } else if q.len() > 0 {
            assert((p + q)[0] == q[0]);
            lemma_ascii_upper(s[n - 1]);
            if n > 1 {
                assert(is_delimiter(s[n - 2]));
            }
        }
    }
}

/// `KEY=VALUE` is split at its first `=`: the key is the text before it and the value the
/// text after it, both trimmed; a text without `=` is refused, with a message naming it.
pub proof fn lemma_parse_key_val_split(s: Seq<char>, k: int)
    requires
        0 <= k <= s.len(),
        forall|j: int| 0 <= j < k ==> s[j] != '=',
        k < s.len() ==> s[k] == '=',
    ensures
        k < s.len() ==> spec_parse_key_val(s) == Ok::<(Seq<char>, Seq<char>), Seq<char>>(
            (trim(s.take(k)), trim(s.skip(k + 1))),
        ),
        k == s.len() ==> spec_parse_key_val(s) == Err::<(Seq<char>, Seq<char>), Seq<char>>(
            "Invalid variable format: '"@ + s + "'. Expected format: KEY=VALUE"@,
        ),
{
    lemma_index_of_from(s, 0, '=');
    let i = index_of_from(s, 0, '=');
    if i < k {
        assert(s[i] == '=');
    }
    if k < i {
        assert(s[k] != '=');
    }
}

} // verus!
