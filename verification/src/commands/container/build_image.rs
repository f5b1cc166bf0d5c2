//! `devrs container build`: building an application image.

use crate::cli::{
    arg_model, arg_models, arg_ok, args_error_message, argv_texts, clap_outcome, clap_parse,
    command_ok, flag_of, leaf_command, leaf_command_spec, long_ok, optional_of, pair_ok, read_flag,
    read_optional, read_single, single_of, str_opt_of, value_fits, values_fit, values_models,
    ArgKind, ArgModel, ArgSpec, ArgValues, ArgsError, CommandModel, ValuesModel,
};
use crate::text::{lowercase, starts_with, to_lowercase};
use vstd::prelude::*;

verus! {

/// The line describing the command in its help.
pub const ABOUT: &'static str = "# Container Build Arguments (`BuildArgs`)";

/// Arguments of `devrs container build`.
#[derive(Debug)]
pub struct BuildArgs {
    /// The image tag; derived from the directory name when absent.
    pub tag: Option<String>,
    /// The Dockerfile to build from.
    pub file: String,
    /// Whether to build without the layer cache.
    pub no_cache: bool,
}

impl BuildArgs {
    /// The arguments, in order.
    pub open spec fn spec_args() -> Seq<ArgModel> {
        seq![
            arg_model("tag"@, ArgKind::Single).with_long("tag"@).with_short('t')
                .with_help("Optional: Specifies the name and tag for the image being built (e.g., \"my-app:1.0\", \"repo/image:latest\"). If omitted, a default tag is generated based on the current directory name and an optional prefix defined in the DevRS configuration (`application_defaults.default_image_prefix`). The default format is `<prefix>-<directory_name>:latest` or `<directory_name>:latest` if no prefix is set"@)
                .with_value_name("TAG"@),
            arg_model("file"@, ArgKind::Single).with_long("file"@).with_short('f').with_default("Dockerfile"@)
                .with_help("Optional: Specifies the path to the Dockerfile, relative to the current working directory (build context). Defaults to \"Dockerfile\" if not provided"@)
                .with_value_name("FILE"@),
            arg_model("no_cache"@, ArgKind::Flag).with_long("no-cache"@)
                .with_help("Optional: If set, instructs Docker to build the image without using its layer cache. This ensures all build steps are re-executed"@),
        ]
    }

    /// The command.
    pub open spec fn spec_command() -> CommandModel {
        leaf_command("build"@, Some(ABOUT@), Self::spec_args())
    }

    /// The arguments, in order.
    pub fn args() -> (r: Vec<ArgSpec>)
        ensures
            arg_models(r@) == Self::spec_args(),
    {
        let r = vec![
            ArgSpec::new("tag", ArgKind::Single).long("tag").short('t')
                .help("Optional: Specifies the name and tag for the image being built (e.g., \"my-app:1.0\", \"repo/image:latest\"). If omitted, a default tag is generated based on the current directory name and an optional prefix defined in the DevRS configuration (`application_defaults.default_image_prefix`). The default format is `<prefix>-<directory_name>:latest` or `<directory_name>:latest` if no prefix is set")
                .value_name("TAG"),
            ArgSpec::new("file", ArgKind::Single).long("file").short('f').default_value("Dockerfile")
                .help("Optional: Specifies the path to the Dockerfile, relative to the current working directory (build context). Defaults to \"Dockerfile\" if not provided")
                .value_name("FILE"),
            ArgSpec::new("no_cache", ArgKind::Flag).long("no-cache")
                .help("Optional: If set, instructs Docker to build the image without using its layer cache. This ensures all build steps are re-executed"),
        ];
        assert(arg_models(r@) =~= Self::spec_args());
        r
    }

    /// `clap` accepts the command.
    #[verifier::spinoff_prover]
    pub proof fn lemma_command_ok()
        ensures
            command_ok(Self::spec_command()),
    {
        reveal_strlit("tag");
        reveal_strlit("file");
        reveal_strlit("no_cache");
        reveal_strlit("no-cache");
        reveal_strlit("help");
        reveal_strlit("version");
        assert("file"@[0] != "help"@[0]);
        let a = Self::spec_args();
        assert(a[0].kind == ArgKind::Single && !a[0].last && !a[0].many);
        assert(a[0].id.len() > 0);
        assert(arg_ok(a[0]));
        assert(!a[1].last && !a[1].many && a[1].id.len() > 0);
        assert(a[1].long is Some ==> long_ok(a[1].long->0));
        assert(arg_ok(a[1]));
        assert(!a[2].last && !a[2].many && a[2].id.len() > 0);
        assert(a[2].long is Some ==> long_ok(a[2].long->0));
        assert(arg_ok(a[2]));
        assert forall|i: int| 0 <= i < a.len() implies arg_ok(#[trigger] a[i]) by {
            assert(i == 0 || i == 1 || i == 2);
        }
        assert forall|i: int, j: int| 0 <= i < j < a.len() implies pair_ok(
            #[trigger] a[i],
            #[trigger] a[j],
        ) by {
            assert(i == 0 || i == 1 || i == 2);
            assert(j == 0 || j == 1 || j == 2);
        }
    }

    /// Whether the fields are the parsed values.
    pub open spec fn read_from(self, vals: Seq<ValuesModel>) -> bool {
        &&& str_opt_of(self.tag) == optional_of(vals[0])
        &&& self.file@ == single_of(vals[1])
        &&& self.no_cache == flag_of(vals[2])
    }

    /// The fields from parsed values.
    pub fn from_values(vals: &Vec<ArgValues>) -> (r: BuildArgs)
        requires
            values_fit(Self::spec_args(), values_models(vals@)),
        ensures
            r.read_from(values_models(vals@)),
    {
        let ghost v = values_models(vals@);
        assert(value_fits(Self::spec_args()[0], v[0]));
        assert(value_fits(Self::spec_args()[1], v[1]));
        assert(value_fits(Self::spec_args()[2], v[2]));
        BuildArgs { tag: read_optional(&vals[0]), file: read_single(&vals[1]), no_cache: read_flag(&vals[2]) }
    }

    /// Parses a command line (the command's name first) as `clap` would for these
    /// arguments.
    pub fn try_parse_from(argv: &[&str]) -> (r: Result<BuildArgs, ArgsError>)
        ensures
            match clap_outcome(Self::spec_command(), argv_texts(argv@)) {
                Ok(p) => r matches Ok(a) && a.read_from(p.values),
                Err((m, answered)) => r matches Err(e) && args_error_message(e) == m && (e is Answered
                    <==> answered),
            },
    {
        let spec = leaf_command_spec("build", ABOUT, Self::args());
        proof {
            Self::lemma_command_ok();
        }
        match clap_parse(&spec, argv) {
            Ok(p) => Ok(Self::from_values(&p.values)),
            Err((m, answered)) => Err(
                if answered {
                    ArgsError::Answered(m)
                } else {
                    ArgsError::Rejected(m)
                },
            ),
        }
    }
}

/// The directory name used in default names: the current directory's name in lowercase,
/// or `fallback` when it has none.
pub open spec fn dir_part(dir_name: Option<Seq<char>>, fallback: Seq<char>) -> Seq<char> {
    match dir_name {
        Some(d) => lowercase(d),
        None => fallback,
    }
}

/// The image tag used when none is given: `PREFIX-DIR:latest`, or `DIR:latest` without a
/// (non-empty) configured prefix, where DIR is the current directory's name in lowercase
/// (`unknown-dir` when it has none).
pub open spec fn spec_default_image_tag(dir_name: Option<Seq<char>>, prefix: Option<Seq<char>>) -> Seq<char> {
    (match prefix {
        Some(p) => if p.len() > 0 {
            p + "-"@
        } else {
            ""@
        },
        None => ""@,
    }) + dir_part(dir_name, "unknown-dir"@) + ":latest"@
}

/// A directory name in lowercase, or the fallback.
pub fn dir_part_string(dir_name: &Option<String>, fallback: &str) -> (r: String)
    ensures
        r@ == dir_part(str_opt_of(*dir_name), fallback@),
{
    match dir_name {
        Some(d) => to_lowercase(d.as_str()),
        None => fallback.to_string(),
    }
}

/// The image tag used when none is given.
pub fn default_image_tag(dir_name: &Option<String>, prefix: &Option<String>) -> (r: String)
    ensures
        r@ == spec_default_image_tag(str_opt_of(*dir_name), str_opt_of(*prefix)),
{
    let mut r = String::new();
    match prefix {
        Some(p) => {
            if p.as_str().unicode_len() > 0 {
                r.append(p.as_str());
                r.append("-");
            } else {
                r.append("");
            }
        },
        None => r.append(""),
    }
    r.append(dir_part_string(dir_name, "unknown-dir").as_str());
    r.append(":latest");
    r
}

/// The image to build: the given tag, else the default one.
pub fn image_tag(args: &BuildArgs, dir_name: &Option<String>, prefix: &Option<String>) -> (r: String)
    ensures
        r@ == match str_opt_of(args.tag) {
            Some(t) => t,
            None => spec_default_image_tag(str_opt_of(*dir_name), str_opt_of(*prefix)),
        },
{
    match &args.tag {
        Some(t) => t.clone(),
        None => default_image_tag(dir_name, prefix),
    }
}

/// Why the Dockerfile at `path` cannot be used: it does not exist, or it is not a file.
pub open spec fn dockerfile_problem(path: Seq<char>, exists: bool, is_file: bool) -> Option<Seq<char>> {
    if !exists {
        Some("Dockerfile not found at expected path: "@ + path)
    } else if !is_file {
        Some("Specified Dockerfile path is not a file: "@ + path)
    } else {
        None
    }
}

/// Checks the Dockerfile at `path`.
pub fn check_dockerfile(path: &str, exists: bool, is_file: bool) -> (r: Result<(), String>)
    ensures
        match r {
            Ok(()) => dockerfile_problem(path@, exists, is_file) is None,
            Err(m) => dockerfile_problem(path@, exists, is_file) == Some(m@),
        },
{
    if !exists {
        let mut m = "Dockerfile not found at expected path: ".to_string();
        m.append(path);
        Err(m)
    } else if !is_file {
        let mut m = "Specified Dockerfile path is not a file: ".to_string();
        m.append(path);
        Err(m)
    } else {
        Ok(())
    }
}

/// The line shown after a successful build.
pub fn built_line(image: &str) -> (r: String)
    ensures
        r@ == "✅ Successfully built image: "@ + image@,
{
    let mut l = "✅ Successfully built image: ".to_string();
    l.append(image);
    l
}

/// The default image tag: with a non-empty configured prefix `P`, `P-` then the current
/// directory's name in lowercase then `:latest`; without one (or with an empty one), the
/// lowercased directory name and `:latest`; a directory without a name counts as
/// `unknown-dir`. So a tag made with a prefix always begins with the prefix and a hyphen.
pub proof fn lemma_default_image_tag(dir_name: Option<Seq<char>>, prefix: Option<Seq<char>>)
    ensures
        ({
            let d = match dir_name {
                Some(n) => lowercase(n),
                None => "unknown-dir"@,
            };
            &&& (prefix is Some && prefix->0.len() > 0) ==> spec_default_image_tag(dir_name, prefix)
                == prefix->0 + "-"@ + d + ":latest"@
            &&& (prefix is None || prefix->0.len() == 0) ==> spec_default_image_tag(dir_name, prefix)
                == d + ":latest"@
        }),
        (prefix is Some && prefix->0.len() > 0) ==> starts_with(
            spec_default_image_tag(dir_name, prefix),
            prefix->0 + "-"@,
        ),
{
    let d = match dir_name {
        Some(n) => lowercase(n),
        None => "unknown-dir"@,
    };
    assert(dir_part(dir_name, "unknown-dir"@) == d);
    if prefix is Some && prefix->0.len() > 0 {
        assert(spec_default_image_tag(dir_name, prefix) =~= prefix->0 + "-"@ + d + ":latest"@);
    } else {
        assert(spec_default_image_tag(dir_name, prefix) =~= ""@ + d + ":latest"@);
        reveal_strlit("");
        assert(""@.len() == 0);
        assert(""@ + d =~= d);
    }
    if prefix is Some && prefix->0.len() > 0 {
        let p = prefix->0;
        let t = spec_default_image_tag(dir_name, prefix);
        let d = match dir_name {
            Some(n) => lowercase(n),
            None => "unknown-dir"@,
        };
        assert(t == (p + "-"@) + (d + ":latest"@));
        assert(t.take((p + "-"@).len() as int) =~= p + "-"@);
    }
}

} // verus!
