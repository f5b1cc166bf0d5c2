//! `devrs setup integrate`: shell integration instructions.

use crate::cli::{
    arg_model, arg_models, args_error_message, argv_texts, clap_outcome, clap_parse, command_ok,
    leaf_command, leaf_command_spec, str_opt_of, values_fit, values_models, ArgKind, ArgModel,
    ArgSpec, ArgValues, ArgsError, CommandModel, ValuesModel,
};
use crate::text::{chars_of, ends_with, has_suffix, push_text, str_is, texts};
use vstd::prelude::*;

verus! {

/// The line describing the command in its help.
pub const ABOUT: &'static str = "Show instructions to integrate DevRS functions into your shell";

/// Arguments of `devrs setup integrate`.
#[derive(Debug)]
pub struct IntegrateArgs {}

impl Default for IntegrateArgs {
    /// Every switch off.
    fn default() -> (r: IntegrateArgs)
        ensures
            r == (IntegrateArgs {}),
    {
        IntegrateArgs {}
    }
}

impl IntegrateArgs {
    /// The arguments, in order.
    pub open spec fn spec_args() -> Seq<ArgModel> {
        Seq::empty()
    }

    /// The command.
    pub open spec fn spec_command() -> CommandModel {
        leaf_command("integrate"@, Some(ABOUT@), Self::spec_args())
    }

    /// The arguments, in order.
    pub fn args() -> (r: Vec<ArgSpec>)
        ensures
            arg_models(r@) == Self::spec_args(),
    {
        let r: Vec<ArgSpec> = Vec::new();
        assert(arg_models(r@) =~= Self::spec_args());
        r
    }

    /// `clap` accepts the command.
    #[verifier::spinoff_prover]
    pub proof fn lemma_command_ok()
        ensures
            command_ok(Self::spec_command()),
    {
        reveal_strlit("help");
        reveal_strlit("version");
        let a = Self::spec_args();
    }

    /// Whether the fields are the parsed values.
    pub open spec fn read_from(self, vals: Seq<ValuesModel>) -> bool {
        true
    }

    /// The fields from parsed values.
    pub fn from_values(vals: &Vec<ArgValues>) -> (r: IntegrateArgs)
        requires
            values_fit(Self::spec_args(), values_models(vals@)),
        ensures
            r.read_from(values_models(vals@)),
    {
        IntegrateArgs {}
    }

    /// Parses a command line (the command's name first) as `clap` would for these
    /// arguments.
    pub fn try_parse_from(argv: &[&str]) -> (r: Result<IntegrateArgs, ArgsError>)
        ensures
            match clap_outcome(Self::spec_command(), argv_texts(argv@)) {
                Ok(p) => r matches Ok(a) && a.read_from(p.values),
                Err((m, answered)) => r matches Err(e) && args_error_message(e) == m && (e is Answered
                    <==> answered),
            },
    {
        let spec = leaf_command_spec("integrate", ABOUT, Self::args());
        proof {
            Self::lemma_command_ok();
        }
        match clap_parse(&spec, argv) {
            Ok(p) => Ok(Self::from_values(&p.values)),
            Err((m, answered)) => Err(
                if answered {
                    ArgsError::Answered(m)
                } else {
                    ArgsError::Rejected(m)
                },
            ),
        }
    }
}

/// The shell named by `$SHELL` (`None` when unset): `zsh` or `bash` by the path's end,
/// else `unknown`; `bash` when unset.
pub open spec fn shell_kind(shell_var: Option<Seq<char>>) -> Seq<char> {
    match shell_var {
        Some(p) => if ends_with(p, "zsh"@) {
            "zsh"@
        } else if ends_with(p, "bash"@) {
            "bash"@
        } else {
            "unknown"@
        },
        None => "bash"@,
    }
}

/// The shell named by `$SHELL`.
pub fn detect_shell(shell_var: &Option<String>) -> (r: String)
    ensures
        r@ == shell_kind(str_opt_of(*shell_var)),
{
    match shell_var {
        Some(p) => {
            let c = chars_of(p.as_str());
            if has_suffix(&c, "zsh") {
                "zsh".to_string()
            } else if has_suffix(&c, "bash") {
                "bash".to_string()
            } else {
                "unknown".to_string()
            }
        },
        None => "bash".to_string(),
    }
}

/// The file the user should edit for a shell.
pub open spec fn rc_file(shell: Seq<char>) -> Seq<char> {
    if shell == "bash"@ {
        "~/.bashrc"@
    } else if shell == "zsh"@ {
        "~/.zshrc"@
    } else {
        "~/.[your_shell_rc_file]"@
    }
}

/// The file the user should edit for a shell.
pub fn rc_filename(shell: &str) -> (r: &'static str)
    ensures
        r@ == rc_file(shell@),
{
    if str_is(shell, "bash") {
        "~/.bashrc"
    } else if str_is(shell, "zsh") {
        "~/.zshrc"
    } else {
        "~/.[your_shell_rc_file]"
    }
}

/// The instructions for sourcing the shell functions at `functions` from `rc`.
pub open spec fn instructions(rc: Seq<char>, functions: Seq<char>) -> Seq<Seq<char>> {
    seq![
        Seq::empty(),
        "--- DevRS Integration Instructions ---"@,
        Seq::empty(),
        "To make DevRS shell functions available, please **manually add** the following"@,
        "line to your shell configuration file ("@ + rc + ")"@,
        "and then reload your shell or open a new terminal:"@,
        Seq::empty(),
        "# --- Start: Add this line to "@ + rc + " ---"@,
        "source \""@ + functions + "\""@,
        "# --- End: Add this line ---"@,
        Seq::empty(),
        "After adding the line, reload your configuration by running:"@,
        "  source "@ + rc,
        "Or simply open a new terminal window."@,
        "------------------------------------------"@,
    ]
}

/// The instructions for sourcing the shell functions at `functions` from `rc`.
pub fn instruction_lines(rc: &str, functions: &str) -> (r: Vec<String>)
    ensures
        texts(r@) == instructions(rc@, functions@),
{
    let mut lines: Vec<String> = Vec::new();
    push_text(&mut lines, String::new());
    push_text(&mut lines, "--- DevRS Integration Instructions ---".to_string());
    push_text(&mut lines, String::new());
    push_text(
        &mut lines,
        "To make DevRS shell functions available, please **manually add** the following".to_string(),
    );
    let mut a = "line to your shell configuration file (".to_string();
    a.append(rc);
    a.append(")");
    push_text(&mut lines, a);
    push_text(&mut lines, "and then reload your shell or open a new terminal:".to_string());
    push_text(&mut lines, String::new());
    let mut b = "# --- Start: Add this line to ".to_string();
    b.append(rc);
    b.append(" ---");
    push_text(&mut lines, b);
    let mut c = "source \"".to_string();
    c.append(functions);
    c.append("\"");
    push_text(&mut lines, c);
    push_text(&mut lines, "# --- End: Add this line ---".to_string());
    push_text(&mut lines, String::new());
    push_text(&mut lines, "After adding the line, reload your configuration by running:".to_string());
    let mut d = "  source ".to_string();
    d.append(rc);
    push_text(&mut lines, d);
    push_text(&mut lines, "Or simply open a new terminal window.".to_string());
    push_text(&mut lines, "------------------------------------------".to_string());
    assert(texts(lines@) =~= instructions(rc@, functions@));
    lines
}

/// The error when the shell functions file is missing.
pub fn missing_functions_error(path: &str) -> (r: String)
    ensures
        r@ == "DevRS shell functions file not found at expected location: "@ + path@
            + ". Cannot provide setup instructions."@,
{
    let mut m = "DevRS shell functions file not found at expected location: ".to_string();
    m.append(path);
    m.append(". Cannot provide setup instructions.");
    m
}

} // verus!
