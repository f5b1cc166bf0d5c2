//! `devrs setup deps`: checking that the host tools are installed.

use crate::cli::{
    arg_model, arg_models, args_error_message, argv_texts, clap_outcome, clap_parse, command_ok,
    leaf_command, leaf_command_spec, values_fit, values_models, ArgKind, ArgModel, ArgSpec,
    ArgValues, ArgsError, CommandModel, ValuesModel,
};
use crate::text::{chars_of, join, join_parts, push_text, texts};
use vstd::prelude::*;

verus! {

/// The line describing the command in its help.
pub const ABOUT: &'static str = "Check if required host dependencies (Docker, Git, Nvim) are installed";

/// Arguments of `devrs setup deps`.
#[derive(Debug)]
pub struct DepsArgs {}

impl Default for DepsArgs {
    /// Every switch off.
    fn default() -> (r: DepsArgs)
        ensures
            r == (DepsArgs {}),
    {
        DepsArgs {}
    }
}

impl DepsArgs {
    /// The arguments, in order.
    pub open spec fn spec_args() -> Seq<ArgModel> {
        Seq::empty()
    }

    /// The command.
    pub open spec fn spec_command() -> CommandModel {
        leaf_command("deps"@, Some(ABOUT@), Self::spec_args())
    }

    /// The arguments, in order.
    pub fn args() -> (r: Vec<ArgSpec>)
        ensures
            arg_models(r@) == Self::spec_args(),
    {
        let r: Vec<ArgSpec> = Vec::new();
        assert(arg_models(r@) =~= Self::spec_args());
        r
    }

    /// `clap` accepts the command.
    #[verifier::spinoff_prover]
    pub proof fn lemma_command_ok()
        ensures
            command_ok(Self::spec_command()),
    {
        reveal_strlit("help");
        reveal_strlit("version");
        let a = Self::spec_args();
    }

    /// Whether the fields are the parsed values.
    pub open spec fn read_from(self, vals: Seq<ValuesModel>) -> bool {
        true
    }

    /// The fields from parsed values.
    pub fn from_values(vals: &Vec<ArgValues>) -> (r: DepsArgs)
        requires
            values_fit(Self::spec_args(), values_models(vals@)),
        ensures
            r.read_from(values_models(vals@)),
    {
        DepsArgs {}
    }

    /// Parses a command line (the command's name first) as `clap` would for these
    /// arguments.
    pub fn try_parse_from(argv: &[&str]) -> (r: Result<DepsArgs, ArgsError>)
        ensures
            match clap_outcome(Self::spec_command(), argv_texts(argv@)) {
                Ok(p) => r matches Ok(a) && a.read_from(p.values),
                Err((m, answered)) => r matches Err(e) && args_error_message(e) == m && (e is Answered
                    <==> answered),
            },
    {
        let spec = leaf_command_spec("deps", ABOUT, Self::args());
        proof {
            Self::lemma_command_ok();
        }
        match clap_parse(&spec, argv) {
            Ok(p) => Ok(Self::from_values(&p.values)),
            Err((m, answered)) => Err(
                if answered {
                    ArgsError::Answered(m)
                } else {
                    ArgsError::Rejected(m)
                },
            ),
        }
    }
}

/// The tools that `devrs setup deps` looks for, in order.
pub fn required_deps() -> (r: Vec<&'static str>)
    ensures
        strs(r@) == seq!["docker"@, "git"@, "nvim"@],
{
    let r = vec!["docker", "git", "nvim"];
    assert(strs(r@) =~= seq!["docker"@, "git"@, "nvim"@]);
    r
}

/// The texts of a sequence of string slices.
pub open spec fn strs(v: Seq<&str>) -> Seq<Seq<char>> {
    v.map_values(|s: &str| s@)
}

/// What looking for one tool on the host found.
#[derive(Debug)]
pub enum DepCheck {
    /// The tool ran.
    Found,
    /// The system reports no such program.
    Missing,
    /// Running it failed otherwise; the message says why.
    Failed(String),
}

/// The verdict printed after `  - Checking for '<tool>'... `.
pub open spec fn check_verdict(c: DepCheck) -> Seq<char> {
    match c {
        DepCheck::Found => "Found."@,
        DepCheck::Missing => "Missing."@,
        DepCheck::Failed(m) => "Error checking ("@ + m@ + ")"@,
    }
}

/// The line reporting one check.
pub open spec fn check_line(dep: Seq<char>, c: DepCheck) -> Seq<char> {
    "  - Checking for '"@ + dep + "'... "@ + check_verdict(c)
}

/// The line reporting one check.
pub fn checking_line(dep: &str, c: &DepCheck) -> (r: String)
    ensures
        r@ == check_line(dep@, *c),
{
    let mut s = "  - Checking for '".to_string();
    s.append(dep);
    s.append("'... ");
    match c {
        DepCheck::Found => s.append("Found."),
        DepCheck::Missing => s.append("Missing."),
        DepCheck::Failed(m) => {
            s.append("Error checking (");
            s.append(m.as_str());
            s.append(")");
        },
    }
    s
}

/// The tools, in order, whose check did not find them (a failed check counts as missing).
pub open spec fn missing_deps(deps: Seq<Seq<char>>, checks: Seq<DepCheck>) -> Seq<Seq<char>>
    decreases deps.len(),
{
    if deps.len() == 0 || checks.len() == 0 {
        Seq::empty()
    } else {
        let rest = missing_deps(deps.drop_last(), checks.drop_last());
        if checks.last() is Found {
            rest
        } else {
            rest.push(deps.last())
        }
    }
}

/// The tools, in order, whose check did not find them.
pub fn missing_names(deps: &Vec<&str>, checks: &Vec<DepCheck>) -> (r: Vec<Vec<char>>)
    requires
        deps.len() == checks.len(),
    ensures
        r@.map_values(|p: Vec<char>| p@) == missing_deps(strs(deps@), checks@),
{
    let mut r: Vec<Vec<char>> = Vec::new();
    let mut i: usize = 0;
    while i < deps.len()
        invariant
            deps.len() == checks.len(),
            i <= deps.len(),
            r@.map_values(|p: Vec<char>| p@) == missing_deps(
                strs(deps@).take(i as int),
                checks@.take(i as int),
            ),
        decreases deps.len() - i,
    {
        let ghost before = r@.map_values(|p: Vec<char>| p@);
        proof {
            assert(strs(deps@).take(i + 1).drop_last() =~= strs(deps@).take(i as int));
            assert(checks@.take(i + 1).drop_last() =~= checks@.take(i as int));
            assert(strs(deps@).take(i + 1).last() == deps@[i as int]@);
            assert(checks@.take(i + 1).last() == checks@[i as int]);
        }
        match &checks[i] {
            DepCheck::Found => {},
            _ => {
                r.push(chars_of(deps[i]));
                assert(r@.map_values(|p: Vec<char>| p@) =~= before.push(deps@[i as int]@));
            },
        }
        i = i + 1;
    }
    assert(strs(deps@).take(deps.len() as int) =~= strs(deps@));
    assert(checks@.take(deps.len() as int) =~= checks@);
    r
}

/// The lines printed while checking: a heading, then one line per tool.
pub open spec fn check_lines(deps: Seq<Seq<char>>, checks: Seq<DepCheck>) -> Seq<Seq<char>> {
    seq!["Checking required host dependencies..."@] + Seq::new(
        deps.len(),
        |i: int| check_line(deps[i], checks[i]),
    )
}

/// The lines printed while checking.
pub fn checking_lines(deps: &Vec<&str>, checks: &Vec<DepCheck>) -> (r: Vec<String>)
    requires
        deps.len() == checks.len(),
    ensures
        texts(r@) == check_lines(strs(deps@), checks@),
{
    let mut r: Vec<String> = Vec::new();
    push_text(&mut r, "Checking required host dependencies...".to_string());
    let mut i: usize = 0;
    while i < deps.len()
        invariant
            deps.len() == checks.len(),
            i <= deps.len(),
            texts(r@) == seq!["Checking required host dependencies..."@] + Seq::new(
                i as nat,
                |k: int| check_line(deps@[k]@, checks@[k]),
            ),
        decreases deps.len() - i,
    {
        let line = checking_line(deps[i], &checks[i]);
        let ghost before = texts(r@);
        push_text(&mut r, line);
        assert(texts(r@) =~= seq!["Checking required host dependencies..."@] + Seq::new(
            (i + 1) as nat,
            |k: int| check_line(deps@[k]@, checks@[k]),
        ));
        i = i + 1;
    }
    assert(check_lines(strs(deps@), checks@) =~= seq!["Checking required host dependencies..."@]
        + Seq::new(deps.len() as nat, |k: int| check_line(deps@[k]@, checks@[k])));
    r
}

/// What `devrs setup deps` prints after the checks, and its result: success when
/// nothing is missing, else an error naming the missing tools.
pub open spec fn deps_verdict(missing: Seq<Seq<char>>) -> (Seq<Seq<char>>, Result<(), Seq<char>>) {
    if missing.len() == 0 {
        (seq!["✅ All required dependencies found."@], Ok(()))
    } else {
        (
            Seq::empty(),
            Err(
                "Missing required dependencies: "@ + join(missing, ", "@)
                    + ". Please install them manually."@,
            ),
        )
    }
}

/// The report of `devrs setup deps` on the tools `deps` and what checking each found:
/// the lines to print and the command's result.
pub fn deps_report(deps: &Vec<&str>, checks: &Vec<DepCheck>) -> (r: (Vec<String>, Result<(), String>))
    requires
        deps.len() == checks.len(),
    ensures
        ({
            let missing = missing_deps(strs(deps@), checks@);
            &&& texts(r.0@) == check_lines(strs(deps@), checks@) + deps_verdict(missing).0
            &&& match (r.1, deps_verdict(missing).1) {
                (Ok(_), Ok(_)) => true,
                (Err(e), Err(m)) => e@ == m,
                _ => false,
            }
        }),
{
    let mut lines = checking_lines(deps, checks);
    let missing = missing_names(deps, checks);
    if missing.len() == 0 {
        push_text(&mut lines, "✅ All required dependencies found.".to_string());
        (lines, Ok(()))
    } else {
        let list = join_parts(&missing, ", ");
        let mut e = "Missing required dependencies: ".to_string();
        e.append(list.as_str());
        e.append(". Please install them manually.");
        let ghost l = texts(lines@);
        assert(texts(lines@) =~= l + Seq::<Seq<char>>::empty());
        (lines, Err(e))
    }
}

/// `devrs setup deps` succeeds exactly when every tool was found; otherwise the error
/// names each tool that was not, in order.
pub proof fn lemma_deps_ok_iff_all_found(deps: Seq<Seq<char>>, checks: Seq<DepCheck>)
    requires
        deps.len() == checks.len(),
    ensures
        deps_verdict(missing_deps(deps, checks)).1 is Ok <==> forall|i: int|
            0 <= i < checks.len() ==> #[trigger] checks[i] is Found,
        forall|k: int|
            0 <= k < missing_deps(deps, checks).len() ==> exists|i: int|
                0 <= i < deps.len() && !(checks[i] is Found) && #[trigger] missing_deps(
                    deps,
                    checks,
                )[k] == deps[i],
    decreases deps.len(),
{
    if deps.len() > 0 {
        let d = deps.drop_last();
        let c = checks.drop_last();
        lemma_deps_ok_iff_all_found(d, c);
        let m = missing_deps(d, c);
        if !(checks.last() is Found) {
            assert(!(checks[checks.len() - 1] is Found));
        } else {
            assert forall|i: int| 0 <= i < c.len() && c[i] is Found implies #[trigger] checks[i] is Found by {
                assert(checks[i] == c[i]);
            }
        }
        assert forall|k: int| 0 <= k < missing_deps(deps, checks).len() implies exists|i: int|
            0 <= i < deps.len() && !(checks[i] is Found) && #[trigger] missing_deps(deps, checks)[k]
                == deps[i] by {
            if k < m.len() {
                let i = choose|i: int|
                    0 <= i < d.len() && !(c[i] is Found) && #[trigger] m[k] == d[i];
                assert(deps[i] == d[i] && checks[i] == c[i]);
            } else {
                assert(missing_deps(deps, checks)[k] == deps[deps.len() - 1]);
            }
        }
    }
}

} // verus!
