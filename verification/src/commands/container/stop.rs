//! `devrs container stop`: stopping application containers.

use crate::cli::{
    all_of, arg_model, arg_models, arg_ok, args_error_message, argv_texts, clap_outcome, clap_parse,
    command_ok, leaf_command, leaf_command_spec, number_of, pair_ok, read_all, read_number,
    value_fits, values_fit, values_models, ArgKind, ArgModel, ArgSpec, ArgValues, ArgsError,
    CommandModel, ValuesModel,
};
use crate::text::texts;
use vstd::prelude::*;

verus! {

/// The line describing the command in its help.
pub const ABOUT: &'static str = "Stop one or more running application containers";

/// Arguments of `devrs container stop`.
#[derive(Debug)]
pub struct StopArgs {
    /// The containers to stop.
    pub container_names_or_ids: Vec<String>,
    /// Seconds to wait before killing a container.
    pub time: u32,
}

impl StopArgs {
    /// The arguments, in order.
    pub open spec fn spec_args() -> Seq<ArgModel> {
        seq![
            arg_model("container_names_or_ids"@, ArgKind::Multiple).with_required().with_many()
                .with_help("One or more names or IDs of the running application containers to stop. At least one container name or ID must be provided"@)
                .with_value_name("CONTAINER_NAMES_OR_IDS"@),
            arg_model("time"@, ArgKind::Number).with_long("time"@).with_short('t').with_default("10"@)
                .with_help("Optional: Specifies the duration (in seconds) to wait for the container(s) to stop gracefully before Docker forcibly kills them (e.g., with SIGKILL). Defaults to 10 seconds if not provided"@)
                .with_value_name("TIME"@),
        ]
    }

    /// The command.
    pub open spec fn spec_command() -> CommandModel {
        leaf_command("stop"@, Some(ABOUT@), Self::spec_args())
    }

    /// The arguments, in order.
    pub fn args() -> (r: Vec<ArgSpec>)
        ensures
            arg_models(r@) == Self::spec_args(),
    {
        let r = vec![
            ArgSpec::new("container_names_or_ids", ArgKind::Multiple).required().many()
                .help("One or more names or IDs of the running application containers to stop. At least one container name or ID must be provided")
                .value_name("CONTAINER_NAMES_OR_IDS"),
            ArgSpec::new("time", ArgKind::Number).long("time").short('t').default_value("10")
                .help("Optional: Specifies the duration (in seconds) to wait for the container(s) to stop gracefully before Docker forcibly kills them (e.g., with SIGKILL). Defaults to 10 seconds if not provided")
                .value_name("TIME"),
        ];
        assert(arg_models(r@) =~= Self::spec_args());
        r
    }

    /// `clap` accepts the command.
    #[verifier::spinoff_prover]
    pub proof fn lemma_command_ok()
        ensures
            command_ok(Self::spec_command()),
    {
        reveal_strlit("container_names_or_ids");
        reveal_strlit("time");
        reveal_strlit("help");
        reveal_strlit("version");
        assert("time"@[0] != "help"@[0]);
        let a = Self::spec_args();
        assert forall|i: int| 0 <= i < a.len() implies arg_ok(#[trigger] a[i]) by {
            assert(i == 0 || i == 1);
        }
        assert forall|i: int, j: int| 0 <= i < j < a.len() implies pair_ok(
            #[trigger] a[i],
            #[trigger] a[j],
        ) by {
            assert(i == 0 || i == 1);
            assert(j == 0 || j == 1);
        }
    }

    /// Whether the fields are the parsed values.
    pub open spec fn read_from(self, vals: Seq<ValuesModel>) -> bool {
        &&& texts(self.container_names_or_ids@) == all_of(vals[0])
        &&& self.time == number_of(vals[1])
    }


    /// The fields from parsed values.
    pub fn from_values(vals: &Vec<ArgValues>) -> (r: StopArgs)
        requires
            values_fit(Self::spec_args(), values_models(vals@)),
        ensures
            r.read_from(values_models(vals@)),
    {
        let ghost v = values_models(vals@);
        assert(value_fits(Self::spec_args()[0], v[0]));
        assert(value_fits(Self::spec_args()[1], v[1]));
        StopArgs { container_names_or_ids: read_all(&vals[0]), time: read_number(&vals[1]) }
    }

    /// Parses a command line (the command's name first) as `clap` would for these
    /// arguments.
    pub fn try_parse_from(argv: &[&str]) -> (r: Result<StopArgs, ArgsError>)
        ensures
            match clap_outcome(Self::spec_command(), argv_texts(argv@)) {
                Ok(p) => r matches Ok(a) && a.read_from(p.values),
                Err((m, answered)) => r matches Err(e) && args_error_message(e) == m && (e is Answered
                    <==> answered),
            },
    {
        let spec = leaf_command_spec("stop", ABOUT, Self::args());
        proof {
            Self::lemma_command_ok();
        }
        match clap_parse(&spec, argv) {
            Ok(p) => Ok(Self::from_values(&p.values)),
            Err((m, answered)) => Err(
                if answered {
                    ArgsError::Answered(m)
                } else {
                    ArgsError::Rejected(m)
                },
            ),
        }
    }
}

} // verus!
