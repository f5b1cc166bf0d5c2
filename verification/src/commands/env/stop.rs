//! `devrs env stop`: stopping the core environment container.

use crate::cli::{
    arg_model, arg_models, arg_ok, args_error_message, argv_texts, clap_outcome, clap_parse,
    command_ok, leaf_command, leaf_command_spec, number_of, optional_of, pair_ok, read_number,
    read_optional, str_opt_of, value_fits, values_fit, values_models, ArgKind, ArgModel, ArgSpec,
    ArgValues, ArgsError, CommandModel, ValuesModel,
};
use vstd::prelude::*;

verus! {

/// The line describing the command in its help.
pub const ABOUT: &'static str = "Stop the core development environment container";

/// Arguments of `devrs env stop`.
#[derive(Debug)]
pub struct StopArgs {
    /// The container; the configured one when absent.
    pub name: Option<String>,
    /// Seconds to wait before killing the container.
    pub time: u32,
}

impl StopArgs {
    /// The arguments, in order.
    pub open spec fn spec_args() -> Seq<ArgModel> {
        seq![
            arg_model("name"@, ArgKind::Single).with_long("name"@)
                .with_help("Optional: Specifies the exact name of the core environment container to stop. If omitted, the default name (derived from the `core_env.image_name` in the configuration, typically `<image_name>-instance`) is used"@)
                .with_value_name("NAME"@),
            arg_model("time"@, ArgKind::Number).with_long("time"@).with_short('t').with_default("10"@)
                .with_help("Optional: Specifies the duration (in seconds) to wait for the container to stop gracefully after receiving the stop signal, before Docker forcibly kills it (e.g., with SIGKILL). Defaults to 10 seconds if not provided"@)
                .with_value_name("TIME"@),
        ]
    }

    /// The command.
    pub open spec fn spec_command() -> CommandModel {
        leaf_command("stop"@, Some(ABOUT@), Self::spec_args())
    }

    /// The arguments, in order.
    pub fn args() -> (r: Vec<ArgSpec>)
        ensures
            arg_models(r@) == Self::spec_args(),
    {
        let r = vec![
            ArgSpec::new("name", ArgKind::Single).long("name")
                .help("Optional: Specifies the exact name of the core environment container to stop. If omitted, the default name (derived from the `core_env.image_name` in the configuration, typically `<image_name>-instance`) is used")
                .value_name("NAME"),
            ArgSpec::new("time", ArgKind::Number).long("time").short('t').default_value("10")
                .help("Optional: Specifies the duration (in seconds) to wait for the container to stop gracefully after receiving the stop signal, before Docker forcibly kills it (e.g., with SIGKILL). Defaults to 10 seconds if not provided")
                .value_name("TIME"),
        ];
        assert(arg_models(r@) =~= Self::spec_args());
        r
    }

    /// `clap` accepts the command.
    #[verifier::spinoff_prover]
    pub proof fn lemma_command_ok()
        ensures
            command_ok(Self::spec_command()),
    {
        reveal_strlit("name");
        reveal_strlit("time");
        reveal_strlit("help");
        reveal_strlit("version");
        assert("name"@[0] != "time"@[0]);
        assert("name"@[0] != "help"@[0]);
        assert("time"@[0] != "help"@[0]);
        let a = Self::spec_args();
        assert forall|i: int| 0 <= i < a.len() implies arg_ok(#[trigger] a[i]) by {
            assert(i == 0 || i == 1);
        }
        assert forall|i: int, j: int| 0 <= i < j < a.len() implies pair_ok(
            #[trigger] a[i],
            #[trigger] a[j],
        ) by {
            assert(i == 0 || i == 1);
            assert(j == 0 || j == 1);
        }
    }

    /// Whether the fields are the parsed values.
    pub open spec fn read_from(self, vals: Seq<ValuesModel>) -> bool {
        &&& str_opt_of(self.name) == optional_of(vals[0])
        &&& self.time == number_of(vals[1])
    }


    /// The fields from parsed values.
    pub fn from_values(vals: &Vec<ArgValues>) -> (r: StopArgs)
        requires
            values_fit(Self::spec_args(), values_models(vals@)),
        ensures
            r.read_from(values_models(vals@)),
    {
        let ghost v = values_models(vals@);
        assert(value_fits(Self::spec_args()[0], v[0]));
        assert(value_fits(Self::spec_args()[1], v[1]));
        StopArgs { name: read_optional(&vals[0]), time: read_number(&vals[1]) }
    }

    /// Parses a command line (the command's name first) as `clap` would for these
    /// arguments.
    pub fn try_parse_from(argv: &[&str]) -> (r: Result<StopArgs, ArgsError>)
        ensures
            match clap_outcome(Self::spec_command(), argv_texts(argv@)) {
                Ok(p) => r matches Ok(a) && a.read_from(p.values),
                Err((m, answered)) => r matches Err(e) && args_error_message(e) == m && (e is Answered
                    <==> answered),
            },
    {
        let spec = leaf_command_spec("stop", ABOUT, Self::args());
        proof {
            Self::lemma_command_ok();
        }
        match clap_parse(&spec, argv) {
            Ok(p) => Ok(Self::from_values(&p.values)),
            Err((m, answered)) => Err(
                if answered {
                    ArgsError::Answered(m)
                } else {
                    ArgsError::Rejected(m)
                },
            ),
        }
    }
}

/// The line announcing the stop.
pub fn stopping_line(container: &str) -> (r: String)
    ensures
        r@ == "Attempting to stop core env container '"@ + container@ + "'..."@,
{
    let mut l = "Attempting to stop core env container '".to_string();
    l.append(container);
    l.append("'...");
    l
}

/// What a stop of the core environment container ends in.
pub enum StopResult {
    /// Stopped, or already stopped: this line is shown.
    Stopped(String),
    /// There is no such container: this line is shown, and the command succeeds.
    Missing(String),
    /// The stop failed: the error's summary.
    Failed(String),
}

/// What a stop ends in: success, a missing container (which is fine), or a failure.
pub fn stop_result(container: &str, succeeded: bool, not_found: bool) -> (r: StopResult)
    ensures
        succeeded ==> (r matches StopResult::Stopped(l) && l@ == "✅ Container '"@ + container@
            + "' stopped successfully or was already stopped."@),
        !succeeded && not_found ==> (r matches StopResult::Missing(l) && l@ == "Container '"@
            + container@ + "' not found."@),
        !succeeded && !not_found ==> (r matches StopResult::Failed(l) && l@
            == "Failed to stop container '"@ + container@ + "'"@),
{
    if succeeded {
        let mut l = "✅ Container '".to_string();
        l.append(container);
        l.append("' stopped successfully or was already stopped.");
        StopResult::Stopped(l)
    } else if not_found {
        let mut l = "Container '".to_string();
        l.append(container);
        l.append("' not found.");
        StopResult::Missing(l)
    } else {
        let mut l = "Failed to stop container '".to_string();
        l.append(container);
        l.append("'");
        StopResult::Failed(l)
    }
}

} // verus!
