//! `devrs env build`: building the core environment image.

use crate::cli::{
    arg_model, arg_models, arg_ok, args_error_message, argv_texts, clap_outcome, clap_parse,
    command_ok, flag_of, leaf_command, leaf_command_spec, optional_of, pair_ok, read_flag,
    read_optional, str_opt_of, value_fits, values_fit, values_models, ArgKind, ArgModel, ArgSpec,
    ArgValues, ArgsError, CommandModel, ValuesModel,
};
use crate::text::{trim, trim_str};
use vstd::prelude::*;

verus! {

/// The line describing the command in its help.
pub const ABOUT: &'static str = "Build the core DevRS development environment Docker image";

/// Arguments of `devrs env build`.
#[derive(Debug)]
pub struct BuildArgs {
    /// Whether to build without the layer cache.
    pub no_cache: bool,
    /// The Dockerfile stage to build.
    pub stage: Option<String>,
}

impl BuildArgs {
    /// The arguments, in order.
    pub open spec fn spec_args() -> Seq<ArgModel> {
        seq![
            arg_model("no_cache"@, ArgKind::Flag).with_long("no-cache"@)
                .with_help("Optional: If set, instructs Docker to build the image without using its layer cache. This forces all steps in the Dockerfile to be re-executed, which can be useful for ensuring updates or debugging build issues, but is generally slower"@),
            arg_model("stage"@, ArgKind::Single).with_long("stage"@)
                .with_help("Optional: Specifies a target stage to build up to within a multi-stage Dockerfile. Example: `--stage base-tools`. **Note:** While the argument is parsed, the underlying build logic in `common::docker::build_image` does not currently pass the `--target` flag to Docker. This option is currently informational"@)
                .with_value_name("STAGE"@),
        ]
    }

    /// The command.
    pub open spec fn spec_command() -> CommandModel {
        leaf_command("build"@, Some(ABOUT@), Self::spec_args())
    }

    /// The arguments, in order.
    pub fn args() -> (r: Vec<ArgSpec>)
        ensures
            arg_models(r@) == Self::spec_args(),
    {
        let r = vec![
            ArgSpec::new("no_cache", ArgKind::Flag).long("no-cache")
                .help("Optional: If set, instructs Docker to build the image without using its layer cache. This forces all steps in the Dockerfile to be re-executed, which can be useful for ensuring updates or debugging build issues, but is generally slower"),
            ArgSpec::new("stage", ArgKind::Single).long("stage")
                .help("Optional: Specifies a target stage to build up to within a multi-stage Dockerfile. Example: `--stage base-tools`. **Note:** While the argument is parsed, the underlying build logic in `common::docker::build_image` does not currently pass the `--target` flag to Docker. This option is currently informational")
                .value_name("STAGE"),
        ];
        assert(arg_models(r@) =~= Self::spec_args());
        r
    }

    /// `clap` accepts the command.
    #[verifier::spinoff_prover]
    pub proof fn lemma_command_ok()
        ensures
            command_ok(Self::spec_command()),
    {
        reveal_strlit("no_cache");
        reveal_strlit("no-cache");
        reveal_strlit("stage");
        reveal_strlit("help");
        reveal_strlit("version");
        let a = Self::spec_args();
        assert forall|i: int| 0 <= i < a.len() implies arg_ok(#[trigger] a[i]) by {
            assert(i == 0 || i == 1);
        }
        assert forall|i: int, j: int| 0 <= i < j < a.len() implies pair_ok(
            #[trigger] a[i],
            #[trigger] a[j],
        ) by {
            assert(i == 0 || i == 1);
            assert(j == 0 || j == 1);
        }
    }

    /// Whether the fields are the parsed values.
    pub open spec fn read_from(self, vals: Seq<ValuesModel>) -> bool {
        &&& self.no_cache == flag_of(vals[0])
        &&& str_opt_of(self.stage) == optional_of(vals[1])
    }

    /// The fields from parsed values.
    pub fn from_values(vals: &Vec<ArgValues>) -> (r: BuildArgs)
        requires
            values_fit(Self::spec_args(), values_models(vals@)),
        ensures
            r.read_from(values_models(vals@)),
    {
        let ghost v = values_models(vals@);
        assert(value_fits(Self::spec_args()[0], v[0]));
        assert(value_fits(Self::spec_args()[1], v[1]));
        BuildArgs { no_cache: read_flag(&vals[0]), stage: read_optional(&vals[1]) }
    }

    /// Parses a command line (the command's name first) as `clap` would for these
    /// arguments.
    pub fn try_parse_from(argv: &[&str]) -> (r: Result<BuildArgs, ArgsError>)
        ensures
            match clap_outcome(Self::spec_command(), argv_texts(argv@)) {
                Ok(p) => r matches Ok(a) && a.read_from(p.values),
                Err((m, answered)) => r matches Err(e) && args_error_message(e) == m && (e is Answered
                    <==> answered),
            },
    {
        let spec = leaf_command_spec("build", ABOUT, Self::args());
        proof {
            Self::lemma_command_ok();
        }
        match clap_parse(&spec, argv) {
            Ok(p) => Ok(Self::from_values(&p.values)),
            Err((m, answered)) => Err(
                if answered {
                    ArgsError::Answered(m)
                } else {
                    ArgsError::Rejected(m)
                },
            ),
        }
    }
}

/// The Dockerfile of the core environment, relative to the repository root.
pub const CORE_DOCKERFILE_PATH: &'static str = "presets/Dockerfile.devrs";

/// The core environment image's name when the configuration gives none.
pub const DEFAULT_CORE_IMAGE_NAME: &'static str = "devrs-core-env";

/// The core environment image's tag when the configuration gives none.
pub const DEFAULT_CORE_IMAGE_TAG: &'static str = "latest";

/// A configured value, unless it is blank.
pub open spec fn configured_or(value: Option<Seq<char>>, default: Seq<char>) -> Seq<char> {
    match value {
        Some(v) => if trim(v).len() > 0 {
            v
        } else {
            default
        },
        None => default,
    }
}

/// The image name and tag to build: the configured ones (`None` when the configuration
/// could not be loaded) unless blank, else the defaults.
pub fn core_image(name: &Option<String>, tag: &Option<String>) -> (r: (String, String))
    ensures
        r.0@ == configured_or(str_opt_of(*name), DEFAULT_CORE_IMAGE_NAME@),
        r.1@ == configured_or(str_opt_of(*tag), DEFAULT_CORE_IMAGE_TAG@),
        trim(r.0@).len() > 0,
        trim(r.1@).len() > 0,
{
    proof {
        reveal_strlit("devrs-core-env");
        reveal_strlit("latest");
    }
    assert(trim("devrs-core-env"@) == "devrs-core-env"@);
    assert(trim("latest"@) == "latest"@);
    let n = match name {
        Some(v) => if trim_str(v.as_str()).as_str().unicode_len() > 0 {
            v.clone()
        } else {
            DEFAULT_CORE_IMAGE_NAME.to_string()
        },
        None => DEFAULT_CORE_IMAGE_NAME.to_string(),
    };
    let t = match tag {
        Some(v) => if trim_str(v.as_str()).as_str().unicode_len() > 0 {
            v.clone()
        } else {
            DEFAULT_CORE_IMAGE_TAG.to_string()
        },
        None => DEFAULT_CORE_IMAGE_TAG.to_string(),
    };
    (n, t)
}

/// The line announcing the build.
pub fn building_line(image: &str, dockerfile: &str, no_cache: bool) -> (r: String)
    ensures
        r@ == "Building core environment image: "@ + image@ + " (Using "@ + dockerfile@
            + ") (No Cache: "@ + (if no_cache {
            "true"@
        } else {
            "false"@
        }) + ")..."@,
{
    let mut l = "Building core environment image: ".to_string();
    l.append(image);
    l.append(" (Using ");
    l.append(dockerfile);
    l.append(") (No Cache: ");
    if no_cache {
        l.append("true");
    } else {
        l.append("false");
    }
    l.append(")...");
    l
}

/// The line shown after a successful build.
pub fn built_line(image: &str) -> (r: String)
    ensures
        r@ == "✅ Successfully built core environment image: "@ + image@,
{
    let mut l = "✅ Successfully built core environment image: ".to_string();
    l.append(image);
    l
}

} // verus!
