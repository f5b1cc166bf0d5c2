//! `devrs setup shell`: shell configuration.

use crate::cli::{
    arg_model, arg_models, arg_ok, args_error_message, argv_texts, clap_outcome, clap_parse,
    command_ok, flag_of, leaf_command, leaf_command_spec, read_flag, value_fits, values_fit,
    values_models, ArgKind, ArgModel, ArgSpec, ArgValues, ArgsError, CommandModel, ValuesModel,
};
use crate::cli::str_opt_of;
use crate::text::{chars_of, ends_with, has_suffix, str_is};
use vstd::prelude::*;

verus! {

/// The line describing the command in its help.
pub const ABOUT: &'static str = "Arguments for the 'setup shell' subcommand";

/// Arguments of `devrs setup shell`.
#[derive(Debug)]
pub struct ShellArgs {
    /// Whether to rewrite existing configuration.
    pub force: bool,
}

impl ShellArgs {
    /// The arguments, in order.
    pub open spec fn spec_args() -> Seq<ArgModel> {
        seq![
            arg_model("force"@, ArgKind::Flag).with_long("force"@)
                .with_help("Force setup even if configuration seems up-to-date (re-add lines)"@),
        ]
    }

    /// The command.
    pub open spec fn spec_command() -> CommandModel {
        leaf_command("shell"@, Some(ABOUT@), Self::spec_args())
    }

    /// The arguments, in order.
    pub fn args() -> (r: Vec<ArgSpec>)
        ensures
            arg_models(r@) == Self::spec_args(),
    {
        let r = vec![
            ArgSpec::new("force", ArgKind::Flag).long("force")
                .help("Force setup even if configuration seems up-to-date (re-add lines)"),
        ];
        assert(arg_models(r@) =~= Self::spec_args());
        r
    }

    /// `clap` accepts the command.
    #[verifier::spinoff_prover]
    pub proof fn lemma_command_ok()
        ensures
            command_ok(Self::spec_command()),
    {
        reveal_strlit("force");
        reveal_strlit("help");
        reveal_strlit("version");
        let a = Self::spec_args();
        assert forall|i: int| 0 <= i < a.len() implies arg_ok(#[trigger] a[i]) by {
            assert(i == 0);
        }
    }

    /// Whether the fields are the parsed values.
    pub open spec fn read_from(self, vals: Seq<ValuesModel>) -> bool {
        &&& self.force == flag_of(vals[0])
    }

    /// The fields from parsed values.
    pub fn from_values(vals: &Vec<ArgValues>) -> (r: ShellArgs)
        requires
            values_fit(Self::spec_args(), values_models(vals@)),
        ensures
            r.read_from(values_models(vals@)),
    {
        let ghost v = values_models(vals@);
        assert(value_fits(Self::spec_args()[0], v[0]));
        ShellArgs { force: read_flag(&vals[0]) }
    }

    /// Parses a command line (the command's name first) as `clap` would for these
    /// arguments.
    pub fn try_parse_from(argv: &[&str]) -> (r: Result<ShellArgs, ArgsError>)
        ensures
            match clap_outcome(Self::spec_command(), argv_texts(argv@)) {
                Ok(p) => r matches Ok(a) && a.read_from(p.values),
                Err((m, answered)) => r matches Err(e) && args_error_message(e) == m && (e is Answered
                    <==> answered),
            },
    {
        let spec = leaf_command_spec("shell", ABOUT, Self::args());
        proof {
            Self::lemma_command_ok();
        }
        match clap_parse(&spec, argv) {
            Ok(p) => Ok(Self::from_values(&p.values)),
            Err((m, answered)) => Err(
                if answered {
                    ArgsError::Answered(m)
                } else {
                    ArgsError::Rejected(m)
                },
            ),
        }
    }
}

/// The shell named by `$SHELL` (`None` when unset): `zsh` when the path ends with
/// `zsh`, else `bash` (also for a shell this command does not support).
pub open spec fn setup_shell_kind(shell_var: Option<Seq<char>>) -> Seq<char> {
    match shell_var {
        Some(p) => if ends_with(p, "zsh"@) {
            "zsh"@
        } else {
            "bash"@
        },
        None => "bash"@,
    }
}

/// The shell named by `$SHELL`.
pub fn detect_shell(shell_var: &Option<String>) -> (r: String)
    ensures
        r@ == setup_shell_kind(str_opt_of(*shell_var)),
{
    match shell_var {
        Some(p) => {
            let c = chars_of(p.as_str());
            if has_suffix(&c, "zsh") {
                "zsh".to_string()
            } else {
                "bash".to_string()
            }
        },
        None => "bash".to_string(),
    }
}

/// The configuration file, in the home directory, of a shell: `.zshrc` for `zsh`,
/// `.bashrc` for `bash`; any other shell is refused.
pub open spec fn rc_name(shell: Seq<char>) -> Result<Seq<char>, Seq<char>> {
    if shell == "zsh"@ {
        Ok(".zshrc"@)
    } else if shell == "bash"@ {
        Ok(".bashrc"@)
    } else {
        Err("Unsupported shell type for setup: "@ + shell)
    }
}

/// The configuration file, in the home directory, of a shell.
pub fn rc_file_name(shell: &str) -> (r: Result<&'static str, String>)
    ensures
        match (r, rc_name(shell@)) {
            (Ok(a), Ok(b)) => a@ == b,
            (Err(a), Err(b)) => a@ == b,
            _ => false,
        },
{
    if str_is(shell, "zsh") {
        Ok(".zshrc")
    } else if str_is(shell, "bash") {
        Ok(".bashrc")
    } else {
        let mut m = "Unsupported shell type for setup: ".to_string();
        m.append(shell);
        Err(m)
    }
}

} // verus!
