//! `devrs container shell`: a temporary interactive container for debugging an image.

use crate::cli::{
    all_of, arg_model, arg_models, arg_ok, args_error_message, argv_texts, clap_outcome, clap_parse,
    command_ok, leaf_command, leaf_command_spec, pair_ok, read_all, read_single, single_of,
    value_fits, values_fit, values_models, ArgKind, ArgModel, ArgSpec, ArgValues, ArgsError,
    CommandModel, ValuesModel,
};
use crate::text::texts;
use crate::text::{chars_of, push_char};
use vstd::prelude::*;

verus! {

/// The line describing the command in its help.
pub const ABOUT: &'static str = "Start an interactive shell in a container built from a specified image (for debugging)";

/// Arguments of `devrs container shell`.
#[derive(Debug)]
pub struct ShellArgs {
    /// The image to start.
    pub image_name: String,
    /// The command to run instead of a shell (after `--`).
    pub command: Vec<String>,
}

impl ShellArgs {
    /// The arguments, in order.
    pub open spec fn spec_args() -> Seq<ArgModel> {
        seq![
            arg_model("image_name"@, ArgKind::Single).with_required()
                .with_help("The name (and optionally tag) of the Docker image to create the temporary container from (e.g., \"my-app:latest\", \"ubuntu:22.04\"). This argument is required"@)
                .with_value_name("IMAGE_NAME"@),
            arg_model("command"@, ArgKind::Multiple).with_last().with_many()
                .with_help("Optional: Specifies the shell or command to run inside the container. If omitted, it defaults to \"/bin/sh\". If provided, the first word is treated as the command, and subsequent words are passed as arguments to that command. Example: `bash -l` would run `/bin/bash` with the `-l` argument. Example: `python` would run the python interpreter"@)
                .with_value_name("COMMAND"@),
        ]
    }

    /// The command.
    pub open spec fn spec_command() -> CommandModel {
        leaf_command("shell"@, Some(ABOUT@), Self::spec_args())
    }

    /// The arguments, in order.
    pub fn args() -> (r: Vec<ArgSpec>)
        ensures
            arg_models(r@) == Self::spec_args(),
    {
        let r = vec![
            ArgSpec::new("image_name", ArgKind::Single).required()
                .help("The name (and optionally tag) of the Docker image to create the temporary container from (e.g., \"my-app:latest\", \"ubuntu:22.04\"). This argument is required")
                .value_name("IMAGE_NAME"),
            ArgSpec::new("command", ArgKind::Multiple).last().many()
                .help("Optional: Specifies the shell or command to run inside the container. If omitted, it defaults to \"/bin/sh\". If provided, the first word is treated as the command, and subsequent words are passed as arguments to that command. Example: `bash -l` would run `/bin/bash` with the `-l` argument. Example: `python` would run the python interpreter")
                .value_name("COMMAND"),
        ];
        assert(arg_models(r@) =~= Self::spec_args());
        r
    }

    /// `clap` accepts the command.
    #[verifier::spinoff_prover]
    pub proof fn lemma_command_ok()
        ensures
            command_ok(Self::spec_command()),
    {
        reveal_strlit("image_name");
        reveal_strlit("command");
        reveal_strlit("help");
        reveal_strlit("version");
        assert("command"@[0] != "version"@[0]);
        let a = Self::spec_args();
        assert forall|i: int| 0 <= i < a.len() implies arg_ok(#[trigger] a[i]) by {
            assert(i == 0 || i == 1);
        }
        assert forall|i: int, j: int| 0 <= i < j < a.len() implies pair_ok(
            #[trigger] a[i],
            #[trigger] a[j],
        ) by {
            assert(i == 0 || i == 1);
            assert(j == 0 || j == 1);
        }
    }

    /// Whether the fields are the parsed values.
    pub open spec fn read_from(self, vals: Seq<ValuesModel>) -> bool {
        &&& self.image_name@ == single_of(vals[0])
        &&& texts(self.command@) == all_of(vals[1])
    }

    /// The fields from parsed values.
    pub fn from_values(vals: &Vec<ArgValues>) -> (r: ShellArgs)
        requires
            values_fit(Self::spec_args(), values_models(vals@)),
        ensures
            r.read_from(values_models(vals@)),
    {
        let ghost v = values_models(vals@);
        assert(value_fits(Self::spec_args()[0], v[0]));
        assert(value_fits(Self::spec_args()[1], v[1]));
        ShellArgs { image_name: read_single(&vals[0]), command: read_all(&vals[1]) }
    }

    /// Parses a command line (the command's name first) as `clap` would for these
    /// arguments.
    pub fn try_parse_from(argv: &[&str]) -> (r: Result<ShellArgs, ArgsError>)
        ensures
            match clap_outcome(Self::spec_command(), argv_texts(argv@)) {
                Ok(p) => r matches Ok(a) && a.read_from(p.values),
                Err((m, answered)) => r matches Err(e) && args_error_message(e) == m && (e is Answered
                    <==> answered),
            },
    {
        let spec = leaf_command_spec("shell", ABOUT, Self::args());
        proof {
            Self::lemma_command_ok();
        }
        match clap_parse(&spec, argv) {
            Ok(p) => Ok(Self::from_values(&p.values)),
            Err((m, answered)) => Err(
                if answered {
                    ArgsError::Answered(m)
                } else {
                    ArgsError::Rejected(m)
                },
            ),
        }
    }
}

/// A text with every `:` and `/` replaced by `-`.
pub open spec fn dashed(s: Seq<char>) -> Seq<char> {
    s.map_values(|c: char| if c == ':' || c == '/' {
        '-'
    } else {
        c
    })
}

/// The name of the temporary container for an image: `devrs-shell-tmp-` and the image with
/// `:` and `/` replaced by `-`.
pub open spec fn temp_container_name(image: Seq<char>) -> Seq<char> {
    "devrs-shell-tmp-"@ + dashed(image)
}

/// The name of the temporary container for an image.
pub fn shell_container_name(image: &str) -> (r: String)
    ensures
        r@ == temp_container_name(image@),
{
    let c = chars_of(image);
    let mut r = "devrs-shell-tmp-".to_string();
    let ghost start = r@;
    let mut i: usize = 0;
    while i < c.len()
        invariant
            i <= c.len(),
            c@ == image@,
            start == "devrs-shell-tmp-"@,
            r@ == start + dashed(c@.take(i as int)),
        decreases c.len() - i,
    {
        let x = c[i];
        let y = if x == ':' || x == '/' { '-' } else { x };
        push_char(&mut r, y);
        assert(dashed(c@.take(i + 1)) =~= dashed(c@.take(i as int)).push(y));
        i = i + 1;
    }
    assert(c@.take(c@.len() as int) == c@);
    r
}

/// The command run in the temporary container: the one given, else `/bin/sh`.
pub fn shell_command(args: &ShellArgs) -> (r: Vec<String>)
    ensures
        texts(r@) == (if args.command@.len() == 0 {
            seq!["/bin/sh"@]
        } else {
            texts(args.command@)
        }),
{
    if args.command.len() == 0 {
        let r = vec!["/bin/sh".to_string()];
        assert(texts(r@) =~= seq!["/bin/sh"@]);
        r
    } else {
        let mut c: Vec<String> = Vec::new();
        let mut i: usize = 0;
        while i < args.command.len()
            invariant
                i <= args.command.len(),
                texts(c@) == texts(args.command@).take(i as int),
            decreases args.command.len() - i,
        {
            c.push(args.command[i].clone());
            assert(texts(args.command@).take(i + 1) == texts(args.command@).take(i as int).push(
                args.command@[i as int]@,
            ));
            i = i + 1;
        }
        assert(texts(args.command@).take(args.command@.len() as int) == texts(args.command@));
        c
    }
}

/// The working directory of the temporary container.
pub const DEFAULT_WORKDIR: &'static str = "/";

/// The line shown before the shell starts.
pub fn shell_start_line(image: &str, container: &str) -> (r: String)
    ensures
        r@ == "Starting interactive shell in image '"@ + image@ + "' (container: "@ + container@
            + ")..."@,
{
    let mut l = "Starting interactive shell in image '".to_string();
    l.append(image);
    l.append("' (container: ");
    l.append(container);
    l.append(")...");
    l
}

/// The lines shown after the shell exits.
pub fn shell_exit_lines(image: &str, container: &str) -> (r: Vec<String>)
    ensures
        texts(r@) == seq![
            Seq::<char>::empty(),
            "Shell exited from image '"@ + image@ + "' (container '"@ + container@ + "' removed)."@,
        ],
{
    let mut l = "Shell exited from image '".to_string();
    l.append(image);
    l.append("' (container '");
    l.append(container);
    l.append("' removed).");
    let r = vec![String::new(), l];
    assert(texts(r@) =~= seq![
        Seq::<char>::empty(),
        "Shell exited from image '"@ + image@ + "' (container '"@ + container@ + "' removed)."@,
    ]);
    r
}

/// Why `devrs container shell` refuses to start.
#[derive(Debug)]
pub enum ShellError {
    /// The image is not present locally.
    ImageNotFound { name: String },
}

impl ShellError {
    /// The error's message.
    pub fn message(&self) -> (r: String)
        ensures
            match self {
                ShellError::ImageNotFound { name } => r@ == "Image '"@ + name@ + "' not found locally."@,
            },
    {
        match self {
            ShellError::ImageNotFound { name } => {
                let mut m = "Image '".to_string();
                m.append(name.as_str());
                m.append("' not found locally.");
                m
            },
        }
    }
}

/// The check before the shell starts: the image must be present locally (`exists`);
/// otherwise the error names it.
pub fn shell_precheck(image: &str, exists: bool) -> (r: Result<(), ShellError>)
    ensures
        r is Err <==> !exists,
        r matches Err(ShellError::ImageNotFound { name }) ==> name@ == image@,
{
    if exists {
        Ok(())
    } else {
        Err(ShellError::ImageNotFound { name: image.to_string() })
    }
}

} // verus!
