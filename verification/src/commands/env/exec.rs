//! `devrs env exec`: running a command in the core environment container.

use crate::cli::{
    all_of, arg_model, arg_models, arg_ok, args_error_message, argv_texts, clap_outcome, clap_parse,
    command_ok, flag_of, leaf_command, leaf_command_spec, optional_of, pair_ok, read_all, read_flag,
    read_optional, str_opt_of, value_fits, values_fit, values_models, ArgKind, ArgModel, ArgSpec,
    ArgValues, ArgsError, CommandModel, ValuesModel,
};
use crate::commands::blueprint::readme::views;
use crate::text::{chars_of, join, join_parts, signed_decimal, signed_decimal_string, texts};
use vstd::prelude::*;

verus! {

/// The line describing the command in its help.
pub const ABOUT: &'static str = "Execute a command in the core development environment container";

/// Arguments of `devrs env exec`.
#[derive(Debug)]
pub struct ExecArgs {
    /// Whether to keep standard input open.
    pub interactive: bool,
    /// Whether to allocate a terminal.
    pub tty: bool,
    /// The container; the configured one when absent.
    pub name: Option<String>,
    /// The user to run as.
    pub user: Option<String>,
    /// The working directory inside the container.
    pub workdir: Option<String>,
    /// The command and its arguments (after `--`).
    pub command: Vec<String>,
}

impl ExecArgs {
    /// The arguments, in order.
    pub open spec fn spec_args() -> Seq<ArgModel> {
        seq![
            arg_model("interactive"@, ArgKind::Flag).with_long("interactive"@).with_short('i')
                .with_help("Optional: Runs the command interactively by allocating a pseudo-TTY (pseudo-terminal). Often used with `-t`/`--tty`. Mimics `docker exec -i`"@),
            arg_model("tty"@, ArgKind::Flag).with_long("tty"@).with_short('t')
                .with_help("Optional: Keeps STDIN open even if not attaching to a TTY. Typically used in conjunction with `-i`/`--interactive` for interactive commands. Mimics `docker exec -t`"@),
            arg_model("name"@, ArgKind::Single).with_long("name"@)
                .with_help("Optional: Specifies the exact name of the core environment container to execute the command in. If omitted, the default name (`<core_env.image_name>-instance`) derived from the configuration is used"@)
                .with_value_name("NAME"@),
            arg_model("user"@, ArgKind::Single).with_long("user"@).with_short('u')
                .with_help("Optional: Specifies the username or UID to run the command as inside the container (e.g., 'root', '1000', 'vscode'). If omitted, the command runs as the container's default configured user"@)
                .with_value_name("USER"@),
            arg_model("workdir"@, ArgKind::Single).with_long("workdir"@).with_short('w')
                .with_help("Optional: Sets the working directory inside the container for the executed command. If omitted, uses the container's default working directory (often configured via `core_env.default_workdir` or the image's `WORKDIR` instruction)"@)
                .with_value_name("WORKDIR"@),
            arg_model("command"@, ArgKind::Multiple).with_required().with_last().with_many()
                .with_help("The command and its arguments to execute inside the core environment container. All arguments provided after the options (or after `--`) are captured into this vector. Example: `devrs env exec ls -la /tmp` -> `command` will be `vec![\"ls\", \"-la\", \"/tmp\"]`"@)
                .with_value_name("COMMAND"@),
        ]
    }

    /// The command.
    pub open spec fn spec_command() -> CommandModel {
        leaf_command("exec"@, Some(ABOUT@), Self::spec_args())
    }

    /// The arguments, in order.
    pub fn args() -> (r: Vec<ArgSpec>)
        ensures
            arg_models(r@) == Self::spec_args(),
    {
        let r = vec![
            ArgSpec::new("interactive", ArgKind::Flag).long("interactive").short('i')
                .help("Optional: Runs the command interactively by allocating a pseudo-TTY (pseudo-terminal). Often used with `-t`/`--tty`. Mimics `docker exec -i`"),
            ArgSpec::new("tty", ArgKind::Flag).long("tty").short('t')
                .help("Optional: Keeps STDIN open even if not attaching to a TTY. Typically used in conjunction with `-i`/`--interactive` for interactive commands. Mimics `docker exec -t`"),
            ArgSpec::new("name", ArgKind::Single).long("name")
                .help("Optional: Specifies the exact name of the core environment container to execute the command in. If omitted, the default name (`<core_env.image_name>-instance`) derived from the configuration is used")
                .value_name("NAME"),
            ArgSpec::new("user", ArgKind::Single).long("user").short('u')
                .help("Optional: Specifies the username or UID to run the command as inside the container (e.g., 'root', '1000', 'vscode'). If omitted, the command runs as the container's default configured user")
                .value_name("USER"),
            ArgSpec::new("workdir", ArgKind::Single).long("workdir").short('w')
                .help("Optional: Sets the working directory inside the container for the executed command. If omitted, uses the container's default working directory (often configured via `core_env.default_workdir` or the image's `WORKDIR` instruction)")
                .value_name("WORKDIR"),
            ArgSpec::new("command", ArgKind::Multiple).required().last().many()
                .help("The command and its arguments to execute inside the core environment container. All arguments provided after the options (or after `--`) are captured into this vector. Example: `devrs env exec ls -la /tmp` -> `command` will be `vec![\"ls\", \"-la\", \"/tmp\"]`")
                .value_name("COMMAND"),
        ];
        assert(arg_models(r@) =~= Self::spec_args());
        r
    }

    /// `clap` accepts the command.
    #[verifier::spinoff_prover]
    pub proof fn lemma_command_ok()
        ensures
            command_ok(Self::spec_command()),
    {
        reveal_strlit("interactive");
        reveal_strlit("tty");
        reveal_strlit("name");
        reveal_strlit("user");
        reveal_strlit("workdir");
        reveal_strlit("command");
        reveal_strlit("help");
        reveal_strlit("version");
        assert("name"@[0] != "user"@[0]);
        assert("name"@[0] != "help"@[0]);
        assert("user"@[0] != "help"@[0]);
        assert("workdir"@[0] != "command"@[0]);
        assert("workdir"@[0] != "version"@[0]);
        assert("command"@[0] != "version"@[0]);
        let a = Self::spec_args();
        assert forall|i: int| 0 <= i < a.len() implies arg_ok(#[trigger] a[i]) by {
            assert(i == 0 || i == 1 || i == 2 || i == 3 || i == 4 || i == 5);
        }
        assert forall|i: int, j: int| 0 <= i < j < a.len() implies pair_ok(
            #[trigger] a[i],
            #[trigger] a[j],
        ) by {
            assert(i == 0 || i == 1 || i == 2 || i == 3 || i == 4 || i == 5);
            assert(j == 0 || j == 1 || j == 2 || j == 3 || j == 4 || j == 5);
        }
    }

    /// Whether the fields are the parsed values.
    pub open spec fn read_from(self, vals: Seq<ValuesModel>) -> bool {
        &&& self.interactive == flag_of(vals[0])
        &&& self.tty == flag_of(vals[1])
        &&& str_opt_of(self.name) == optional_of(vals[2])
        &&& str_opt_of(self.user) == optional_of(vals[3])
        &&& str_opt_of(self.workdir) == optional_of(vals[4])
        &&& texts(self.command@) == all_of(vals[5])
    }

    /// The fields from parsed values.
    pub fn from_values(vals: &Vec<ArgValues>) -> (r: ExecArgs)
        requires
            values_fit(Self::spec_args(), values_models(vals@)),
        ensures
            r.read_from(values_models(vals@)),
    {
        let ghost v = values_models(vals@);
        assert(value_fits(Self::spec_args()[0], v[0]));
        assert(value_fits(Self::spec_args()[1], v[1]));
        assert(value_fits(Self::spec_args()[2], v[2]));
        assert(value_fits(Self::spec_args()[3], v[3]));
        assert(value_fits(Self::spec_args()[4], v[4]));
        assert(value_fits(Self::spec_args()[5], v[5]));
        ExecArgs { interactive: read_flag(&vals[0]), tty: read_flag(&vals[1]), name: read_optional(&vals[2]), user: read_optional(&vals[3]), workdir: read_optional(&vals[4]), command: read_all(&vals[5]) }
    }

    /// Parses a command line (the command's name first) as `clap` would for these
    /// arguments.
    pub fn try_parse_from(argv: &[&str]) -> (r: Result<ExecArgs, ArgsError>)
        ensures
            match clap_outcome(Self::spec_command(), argv_texts(argv@)) {
                Ok(p) => r matches Ok(a) && a.read_from(p.values),
                Err((m, answered)) => r matches Err(e) && args_error_message(e) == m && (e is Answered
                    <==> answered),
            },
    {
        let spec = leaf_command_spec("exec", ABOUT, Self::args());
        proof {
            Self::lemma_command_ok();
        }
        match clap_parse(&spec, argv) {
            Ok(p) => Ok(Self::from_values(&p.values)),
            Err((m, answered)) => Err(
                if answered {
                    ArgsError::Answered(m)
                } else {
                    ArgsError::Rejected(m)
                },
            ),
        }
    }
}

/// The error for a command that exited with a non-zero code: the command joined with
/// spaces, the code, and a sentence naming the container and the code.
pub struct ExecFailure {
    pub cmd: String,
    pub status: String,
    pub output: String,
}

/// The outcome of running a command in a container with the given exit code: success on
/// zero, else the failure.
pub open spec fn exec_outcome(command: Seq<Seq<char>>, container: Seq<char>, code: i64) -> Option<
    (Seq<char>, Seq<char>, Seq<char>),
> {
    if code == 0 {
        None
    } else {
        Some(
            (
                join(command, " "@),
                signed_decimal(code as int),
                "Command executed in container '"@ + container + "' exited with code "@
                    + signed_decimal(code as int),
            ),
        )
    }
}

/// The outcome of running a command in a container with the given exit code.
pub fn exec_result(command: &Vec<String>, container: &str, code: i64) -> (r: Option<ExecFailure>)
    ensures
        match r {
            None => exec_outcome(texts(command@), container@, code) is None,
            Some(f) => exec_outcome(texts(command@), container@, code) == Some(
                (f.cmd@, f.status@, f.output@),
            ),
        },
{
    if code == 0 {
        return None;
    }
    let mut parts: Vec<Vec<char>> = Vec::new();
    let mut i: usize = 0;
    while i < command.len()
        invariant
            i <= command.len(),
            views(parts@) == texts(command@).take(i as int),
        decreases command.len() - i,
    {
        parts.push(chars_of(command[i].as_str()));
        assert(texts(command@).take(i + 1) == texts(command@).take(i as int).push(command@[i as int]@));
        i = i + 1;
    }
    assert(texts(command@).take(command@.len() as int) == texts(command@));
    let cmd = join_parts(&parts, " ");
    let status = signed_decimal_string(code);
    let mut output = String::new();
    output.append("Command executed in container '");
    output.append(container);
    output.append("' exited with code ");
    output.append(status.as_str());
    Some(ExecFailure { cmd, status, output })
}

} // verus!
