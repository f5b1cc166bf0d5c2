//! `devrs env shell`: an interactive shell in the core environment container.

use crate::cli::{
    arg_model, arg_models, arg_ok, args_error_message, argv_texts, clap_outcome, clap_parse,
    command_ok, leaf_command, leaf_command_spec, optional_of, read_optional, str_opt_of, value_fits,
    values_fit, values_models, ArgKind, ArgModel, ArgSpec, ArgValues, ArgsError, CommandModel,
    ValuesModel,
};
use crate::text::{texts, trim, trim_str};
use vstd::prelude::*;

verus! {

/// The line describing the command in its help.
pub const ABOUT: &'static str = "Start an interactive shell in the core development environment";

/// Arguments of `devrs env shell`.
#[derive(Debug)]
pub struct ShellArgs {
    /// The container; the configured one when absent.
    pub name: Option<String>,
}

impl ShellArgs {
    /// The arguments, in order.
    pub open spec fn spec_args() -> Seq<ArgModel> {
        seq![
            arg_model("name"@, ArgKind::Single).with_long("name"@)
                .with_help("Optional: Specifies the exact name of the core environment container to connect to. If omitted, the default name (derived from the `core_env.image_name` in the configuration, typically `<image_name>-instance`) is used. This allows managing multiple named core environment instances if needed, although typically only one is used"@)
                .with_value_name("NAME"@),
        ]
    }

    /// The command.
    pub open spec fn spec_command() -> CommandModel {
        leaf_command("shell"@, Some(ABOUT@), Self::spec_args())
    }

    /// The arguments, in order.
    pub fn args() -> (r: Vec<ArgSpec>)
        ensures
            arg_models(r@) == Self::spec_args(),
    {
        let r = vec![
            ArgSpec::new("name", ArgKind::Single).long("name")
                .help("Optional: Specifies the exact name of the core environment container to connect to. If omitted, the default name (derived from the `core_env.image_name` in the configuration, typically `<image_name>-instance`) is used. This allows managing multiple named core environment instances if needed, although typically only one is used")
                .value_name("NAME"),
        ];
        assert(arg_models(r@) =~= Self::spec_args());
        r
    }

    /// `clap` accepts the command.
    #[verifier::spinoff_prover]
    pub proof fn lemma_command_ok()
        ensures
            command_ok(Self::spec_command()),
    {
        reveal_strlit("name");
        reveal_strlit("help");
        reveal_strlit("version");
        assert("name"@[0] != "help"@[0]);
        let a = Self::spec_args();
        assert forall|i: int| 0 <= i < a.len() implies arg_ok(#[trigger] a[i]) by {
            assert(i == 0);
        }
    }

    /// Whether the fields are the parsed values.
    pub open spec fn read_from(self, vals: Seq<ValuesModel>) -> bool {
        &&& str_opt_of(self.name) == optional_of(vals[0])
    }

    /// The fields from parsed values.
    pub fn from_values(vals: &Vec<ArgValues>) -> (r: ShellArgs)
        requires
            values_fit(Self::spec_args(), values_models(vals@)),
        ensures
            r.read_from(values_models(vals@)),
    {
        let ghost v = values_models(vals@);
        assert(value_fits(Self::spec_args()[0], v[0]));
        ShellArgs { name: read_optional(&vals[0]) }
    }

    /// Parses a command line (the command's name first) as `clap` would for these
    /// arguments.
    pub fn try_parse_from(argv: &[&str]) -> (r: Result<ShellArgs, ArgsError>)
        ensures
            match clap_outcome(Self::spec_command(), argv_texts(argv@)) {
                Ok(p) => r matches Ok(a) && a.read_from(p.values),
                Err((m, answered)) => r matches Err(e) && args_error_message(e) == m && (e is Answered
                    <==> answered),
            },
    {
        let spec = leaf_command_spec("shell", ABOUT, Self::args());
        proof {
            Self::lemma_command_ok();
        }
        match clap_parse(&spec, argv) {
            Ok(p) => Ok(Self::from_values(&p.values)),
            Err((m, answered)) => Err(
                if answered {
                    ArgsError::Answered(m)
                } else {
                    ArgsError::Rejected(m)
                },
            ),
        }
    }
}

/// The image, tag and working directory the shell's container uses, whether they are the
/// defaults, and the note shown about it.
pub struct ShellEnv {
    pub image_name: String,
    pub image_tag: String,
    pub workdir: String,
    pub using_defaults: bool,
    pub note: Option<String>,
}

/// The settings the shell uses, from the loaded configuration's image name, tag and
/// working directory (`None` when it could not be loaded): those, unless the name or tag
/// is blank; otherwise the defaults (`devrs-env:latest`, the current directory mounted and
/// used at `/code`) with a note saying why.
pub open spec fn shell_env(loaded: Option<(Seq<char>, Seq<char>, Seq<char>)>) -> (
    Seq<char>,
    Seq<char>,
    Seq<char>,
    bool,
    Option<Seq<char>>,
) {
    match loaded {
        Some((n, t, w)) => if trim(n).len() == 0 || trim(t).len() == 0 {
            (
                "devrs-env"@,
                "latest"@,
                "/code"@,
                true,
                Some("Warning: Loaded configuration missing core image details. Using defaults."@),
            )
        } else {
            (n, t, w, false, None)
        },
        None => (
            "devrs-env"@,
            "latest"@,
            "/code"@,
            true,
            Some(
                "Note: Configuration file not found or invalid. Using default settings (image: devrs-env:latest, mounting current directory to /code, workdir /code)."@,
            ),
        ),
    }
}

/// The settings the shell uses.
pub fn shell_environment(loaded: &Option<(String, String, String)>) -> (r: ShellEnv)
    ensures
        shell_env(
            match loaded {
                Some(c) => Some((c.0@, c.1@, c.2@)),
                None => None,
            },
        ) == (r.image_name@, r.image_tag@, r.workdir@, r.using_defaults, str_opt_of(r.note)),
{
    match loaded {
        Some(c) => {
            if trim_str(c.0.as_str()).as_str().unicode_len() == 0 || trim_str(c.1.as_str()).as_str().unicode_len() == 0 {
                ShellEnv {
                    image_name: "devrs-env".to_string(),
                    image_tag: "latest".to_string(),
                    workdir: "/code".to_string(),
                    using_defaults: true,
                    note: Some(
                        "Warning: Loaded configuration missing core image details. Using defaults.".to_string(),
                    ),
                }
            } else {
                ShellEnv {
                    image_name: c.0.clone(),
                    image_tag: c.1.clone(),
                    workdir: c.2.clone(),
                    using_defaults: false,
                    note: None,
                }
            }
        },
        None => ShellEnv {
            image_name: "devrs-env".to_string(),
            image_tag: "latest".to_string(),
            workdir: "/code".to_string(),
            using_defaults: true,
            note: Some(
                "Note: Configuration file not found or invalid. Using default settings (image: devrs-env:latest, mounting current directory to /code, workdir /code).".to_string(),
            ),
        },
    }
}

/// The lines shown before the shell starts: how a container created from the defaults was
/// set up, then the start.
pub open spec fn shell_intro(container: Seq<char>, created_from_defaults: bool, image: Seq<char>) -> Seq<Seq<char>> {
    (if created_from_defaults {
        seq![
            "Created container '"@ + container + "' using default image '"@ + image + "'."@,
            "Current host directory mounted to /code inside the container."@,
            "Default working directory set to /code."@,
        ]
    } else {
        Seq::empty()
    }) + seq![
        "Starting interactive shell in core environment container '"@ + container + "'..."@,
        "(Type 'exit' or press Ctrl+D to leave the shell)"@,
    ]
}

/// The lines shown before the shell starts. `image` is `NAME:TAG`.
pub fn shell_intro_lines(container: &str, created: bool, env: &ShellEnv, image: &str) -> (r: Vec<String>)
    ensures
        texts(r@) == shell_intro(container@, created && env.using_defaults, image@),
{
    let mut lines: Vec<String> = Vec::new();
    if created && env.using_defaults {
        let mut a = "Created container '".to_string();
        a.append(container);
        a.append("' using default image '");
        a.append(image);
        a.append("'.");
        lines.push(a);
        lines.push("Current host directory mounted to /code inside the container.".to_string());
        lines.push("Default working directory set to /code.".to_string());
    }
    let mut s = "Starting interactive shell in core environment container '".to_string();
    s.append(container);
    s.append("'...");
    lines.push(s);
    lines.push("(Type 'exit' or press Ctrl+D to leave the shell)".to_string());
    assert(texts(lines@) =~= shell_intro(container@, created && env.using_defaults, image@));
    lines
}

/// The shell started in the container.
pub const SHELL_COMMAND: &'static str = "/bin/bash";

} // verus!
