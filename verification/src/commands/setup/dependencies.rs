//! `devrs setup dependencies`: checking the host tools.

use crate::cli::{
    arg_model, arg_models, arg_ok, args_error_message, argv_texts, clap_outcome, clap_parse,
    command_ok, flag_of, leaf_command, leaf_command_spec, read_flag, value_fits, values_fit,
    values_models, ArgKind, ArgModel, ArgSpec, ArgValues, ArgsError, CommandModel, ValuesModel,
};
use crate::commands::setup::deps::{check_lines, checking_lines, missing_deps, missing_names, strs, DepCheck};
use crate::text::{join, join_parts, push_text, texts};
use vstd::prelude::*;

verus! {

/// The line describing the command in its help.
pub const ABOUT: &'static str = "Arguments for the 'setup dependencies' subcommand";

/// Arguments of `devrs setup dependencies`.
#[derive(Debug)]
pub struct DependenciesArgs {
    /// Whether to try installing what is missing.
    pub install: bool,
}

impl DependenciesArgs {
    /// The arguments, in order.
    pub open spec fn spec_args() -> Seq<ArgModel> {
        seq![
            arg_model("install"@, ArgKind::Flag).with_long("install"@)
                .with_help("Optional: Attempt to automatically install missing dependencies (use with caution, platform-specific)"@),
        ]
    }

    /// The command.
    pub open spec fn spec_command() -> CommandModel {
        leaf_command("dependencies"@, Some(ABOUT@), Self::spec_args())
    }

    /// The arguments, in order.
    pub fn args() -> (r: Vec<ArgSpec>)
        ensures
            arg_models(r@) == Self::spec_args(),
    {
        let r = vec![
            ArgSpec::new("install", ArgKind::Flag).long("install")
                .help("Optional: Attempt to automatically install missing dependencies (use with caution, platform-specific)"),
        ];
        assert(arg_models(r@) =~= Self::spec_args());
        r
    }

    /// `clap` accepts the command.
    #[verifier::spinoff_prover]
    pub proof fn lemma_command_ok()
        ensures
            command_ok(Self::spec_command()),
    {
        reveal_strlit("install");
        reveal_strlit("help");
        reveal_strlit("version");
        assert("install"@[0] != "version"@[0]);
        let a = Self::spec_args();
        assert forall|i: int| 0 <= i < a.len() implies arg_ok(#[trigger] a[i]) by {
            assert(i == 0);
        }
    }

    /// Whether the fields are the parsed values.
    pub open spec fn read_from(self, vals: Seq<ValuesModel>) -> bool {
        &&& self.install == flag_of(vals[0])
    }

    /// The fields from parsed values.
    pub fn from_values(vals: &Vec<ArgValues>) -> (r: DependenciesArgs)
        requires
            values_fit(Self::spec_args(), values_models(vals@)),
        ensures
            r.read_from(values_models(vals@)),
    {
        let ghost v = values_models(vals@);
        assert(value_fits(Self::spec_args()[0], v[0]));
        DependenciesArgs { install: read_flag(&vals[0]) }
    }

    /// Parses a command line (the command's name first) as `clap` would for these
    /// arguments.
    pub fn try_parse_from(argv: &[&str]) -> (r: Result<DependenciesArgs, ArgsError>)
        ensures
            match clap_outcome(Self::spec_command(), argv_texts(argv@)) {
                Ok(p) => r matches Ok(a) && a.read_from(p.values),
                Err((m, answered)) => r matches Err(e) && args_error_message(e) == m && (e is Answered
                    <==> answered),
            },
    {
        let spec = leaf_command_spec("dependencies", ABOUT, Self::args());
        proof {
            Self::lemma_command_ok();
        }
        match clap_parse(&spec, argv) {
            Ok(p) => Ok(Self::from_values(&p.values)),
            Err((m, answered)) => Err(
                if answered {
                    ArgsError::Answered(m)
                } else {
                    ArgsError::Rejected(m)
                },
            ),
        }
    }
}

/// The tools that `devrs setup dependencies` looks for, in order.
pub fn dependency_list() -> (r: Vec<&'static str>)
    ensures
        strs(r@) == seq!["docker"@, "git"@, "cargo"@],
{
    let r = vec!["docker", "git", "cargo"];
    assert(strs(r@) =~= seq!["docker"@, "git"@, "cargo"@]);
    r
}

/// What `devrs setup dependencies` prints after the checks, and its result: success when
/// nothing is missing; else the missing tools are listed and the error depends on
/// whether installing was asked for (it is not offered).
pub open spec fn dependencies_verdict(missing: Seq<Seq<char>>, install: bool) -> (
    Seq<Seq<char>>,
    Result<(), Seq<char>>,
) {
    if missing.len() == 0 {
        (seq!["✅ All required dependencies found."@], Ok(()))
    } else {
        (
            seq!["⚠️ Missing dependencies: "@ + join(missing, ", "@)],
            Err(
                if install {
                    "Automatic installation not yet implemented. Please install missing dependencies manually."@
                } else {
                    "Missing required dependencies. Please install them manually. See documentation for details."@
                },
            ),
        )
    }
}

impl DependenciesArgs {
    /// The report of `devrs setup dependencies` on the tools `deps` and what checking
    /// each found: the lines to print and the command's result.
    pub fn report(&self, deps: &Vec<&str>, checks: &Vec<DepCheck>) -> (r: (
        Vec<String>,
        Result<(), String>,
    ))
        requires
            deps.len() == checks.len(),
        ensures
            ({
                let v = dependencies_verdict(missing_deps(strs(deps@), checks@), self.install);
                &&& texts(r.0@) == check_lines(strs(deps@), checks@) + v.0
                &&& match (r.1, v.1) {
                    (Ok(_), Ok(_)) => true,
                    (Err(e), Err(m)) => e@ == m,
                    _ => false,
                }
            }),
    {
        let mut lines = checking_lines(deps, checks);
        let missing = missing_names(deps, checks);
        if missing.len() == 0 {
            push_text(&mut lines, "✅ All required dependencies found.".to_string());
            (lines, Ok(()))
        } else {
            let list = join_parts(&missing, ", ");
            let mut l = "⚠️ Missing dependencies: ".to_string();
            l.append(list.as_str());
            push_text(&mut lines, l);
            let e = if self.install {
                "Automatic installation not yet implemented. Please install missing dependencies manually.".to_string()
            } else {
                "Missing required dependencies. Please install them manually. See documentation for details.".to_string()
            };
            (lines, Err(e))
        }
    }
}

} // verus!
