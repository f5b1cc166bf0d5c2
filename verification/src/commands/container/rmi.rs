//! `devrs container rmi`: removing application images.

use crate::cli::{
    all_of, arg_model, arg_models, arg_ok, args_error_message, argv_texts, clap_outcome, clap_parse,
    command_ok, flag_of, leaf_command, leaf_command_spec, pair_ok, read_all, read_flag, value_fits,
    values_fit, values_models, ArgKind, ArgModel, ArgSpec, ArgValues, ArgsError, CommandModel,
    ValuesModel,
};
use crate::text::texts;
use vstd::prelude::*;

verus! {

/// The line describing the command in its help.
pub const ABOUT: &'static str = "Remove one or more application Docker images";

/// Arguments of `devrs container rmi`.
#[derive(Debug)]
pub struct RmiArgs {
    /// The images to remove.
    pub image_names_or_ids: Vec<String>,
    /// Whether to remove images in use too.
    pub force: bool,
}

impl RmiArgs {
    /// The arguments, in order.
    pub open spec fn spec_args() -> Seq<ArgModel> {
        seq![
            arg_model("image_names_or_ids"@, ArgKind::Multiple).with_required().with_many()
                .with_help("One or more names (e.g., \"my-app:latest\", \"repo/img:v1\") or IDs (full or prefix) of the application Docker images to remove from the local cache. At least one image name or ID must be provided"@)
                .with_value_name("IMAGE_NAMES_OR_IDS"@),
            arg_model("force"@, ArgKind::Flag).with_long("force"@).with_short('f')
                .with_help("Optional: Force the removal of the image(s). This may be necessary if the image is tagged multiple times or is used as a parent layer for other images, or if it's associated with stopped containers. It typically does *not* force removal if the image is currently used by a *running* container unless specific Docker daemon configurations are set"@),
        ]
    }

    /// The command.
    pub open spec fn spec_command() -> CommandModel {
        leaf_command("rmi"@, Some(ABOUT@), Self::spec_args())
    }

    /// The arguments, in order.
    pub fn args() -> (r: Vec<ArgSpec>)
        ensures
            arg_models(r@) == Self::spec_args(),
    {
        let r = vec![
            ArgSpec::new("image_names_or_ids", ArgKind::Multiple).required().many()
                .help("One or more names (e.g., \"my-app:latest\", \"repo/img:v1\") or IDs (full or prefix) of the application Docker images to remove from the local cache. At least one image name or ID must be provided")
                .value_name("IMAGE_NAMES_OR_IDS"),
            ArgSpec::new("force", ArgKind::Flag).long("force").short('f')
                .help("Optional: Force the removal of the image(s). This may be necessary if the image is tagged multiple times or is used as a parent layer for other images, or if it's associated with stopped containers. It typically does *not* force removal if the image is currently used by a *running* container unless specific Docker daemon configurations are set"),
        ];
        assert(arg_models(r@) =~= Self::spec_args());
        r
    }

    /// `clap` accepts the command.
    #[verifier::spinoff_prover]
    pub proof fn lemma_command_ok()
        ensures
            command_ok(Self::spec_command()),
    {
        reveal_strlit("image_names_or_ids");
        reveal_strlit("force");
        reveal_strlit("help");
        reveal_strlit("version");
        let a = Self::spec_args();
        assert forall|i: int| 0 <= i < a.len() implies arg_ok(#[trigger] a[i]) by {
            assert(i == 0 || i == 1);
        }
        assert forall|i: int, j: int| 0 <= i < j < a.len() implies pair_ok(
            #[trigger] a[i],
            #[trigger] a[j],
        ) by {
            assert(i == 0 || i == 1);
            assert(j == 0 || j == 1);
        }
    }

    /// Whether the fields are the parsed values.
    pub open spec fn read_from(self, vals: Seq<ValuesModel>) -> bool {
        &&& texts(self.image_names_or_ids@) == all_of(vals[0])
        &&& self.force == flag_of(vals[1])
    }

    /// The fields from parsed values.
    pub fn from_values(vals: &Vec<ArgValues>) -> (r: RmiArgs)
        requires
            values_fit(Self::spec_args(), values_models(vals@)),
        ensures
            r.read_from(values_models(vals@)),
    {
        let ghost v = values_models(vals@);
        assert(value_fits(Self::spec_args()[0], v[0]));
        assert(value_fits(Self::spec_args()[1], v[1]));
        RmiArgs { image_names_or_ids: read_all(&vals[0]), force: read_flag(&vals[1]) }
    }

    /// Parses a command line (the command's name first) as `clap` would for these
    /// arguments.
    pub fn try_parse_from(argv: &[&str]) -> (r: Result<RmiArgs, ArgsError>)
        ensures
            match clap_outcome(Self::spec_command(), argv_texts(argv@)) {
                Ok(p) => r matches Ok(a) && a.read_from(p.values),
                Err((m, answered)) => r matches Err(e) && args_error_message(e) == m && (e is Answered
                    <==> answered),
            },
    {
        let spec = leaf_command_spec("rmi", ABOUT, Self::args());
        proof {
            Self::lemma_command_ok();
        }
        match clap_parse(&spec, argv) {
            Ok(p) => Ok(Self::from_values(&p.values)),
            Err((m, answered)) => Err(
                if answered {
                    ArgsError::Answered(m)
                } else {
                    ArgsError::Rejected(m)
                },
            ),
        }
    }
}

} // verus!
