//! `devrs env logs`: the logs of the core environment container.

use crate::cli::{long_ok, 
    arg_model, arg_models, arg_ok, args_error_message, argv_texts, clap_outcome, clap_parse,
    command_ok, flag_of, leaf_command, leaf_command_spec, optional_of, pair_ok, read_flag,
    read_optional, read_single, single_of, str_opt_of, value_fits, values_fit, values_models,
    ArgKind, ArgModel, ArgSpec, ArgValues, ArgsError, CommandModel, ValuesModel,
};
use vstd::prelude::*;

verus! {

/// The line describing the command in its help.
pub const ABOUT: &'static str = "View logs from the core development environment container";

/// Arguments of `devrs env logs`.
#[derive(Debug)]
pub struct LogsArgs {
    /// Whether to keep streaming new output.
    pub follow: bool,
    /// How many lines to show from the end: a number or `all`.
    pub lines: String,
    /// The container; the configured one when absent.
    pub name: Option<String>,
}

impl LogsArgs {
    /// The arguments, in order.
    pub open spec fn spec_args() -> Seq<ArgModel> {
        seq![
            arg_model("follow"@, ArgKind::Flag).with_long("follow"@).with_short('f')
                .with_help("Optional: If set, continuously stream new log output after displaying existing logs. Equivalent to `docker logs -f`"@),
            arg_model("lines"@, ArgKind::Single).with_long("lines"@).with_short('n').with_default("100"@)
                .with_help("Optional: Specifies the number of lines to show from the end of the logs. Accepts a specific number (e.g., \"500\") or the literal string \"all\". Defaults to \"100\" lines if omitted or if an invalid numeric value is provided"@)
                .with_value_name("LINES"@),
            arg_model("name"@, ArgKind::Single).with_long("name"@)
                .with_help("Optional: Specifies the exact name of the core environment container to fetch logs from. If omitted, the default name (derived from the `core_env.image_name` in the configuration, typically `<image_name>-instance`) is used"@)
                .with_value_name("NAME"@),
        ]
    }

    /// The command.
    pub open spec fn spec_command() -> CommandModel {
        leaf_command("logs"@, Some(ABOUT@), Self::spec_args())
    }

    /// The arguments, in order.
    pub fn args() -> (r: Vec<ArgSpec>)
        ensures
            arg_models(r@) == Self::spec_args(),
    {
        let r = vec![
            ArgSpec::new("follow", ArgKind::Flag).long("follow").short('f')
                .help("Optional: If set, continuously stream new log output after displaying existing logs. Equivalent to `docker logs -f`"),
            ArgSpec::new("lines", ArgKind::Single).long("lines").short('n').default_value("100")
                .help("Optional: Specifies the number of lines to show from the end of the logs. Accepts a specific number (e.g., \"500\") or the literal string \"all\". Defaults to \"100\" lines if omitted or if an invalid numeric value is provided")
                .value_name("LINES"),
            ArgSpec::new("name", ArgKind::Single).long("name")
                .help("Optional: Specifies the exact name of the core environment container to fetch logs from. If omitted, the default name (derived from the `core_env.image_name` in the configuration, typically `<image_name>-instance`) is used")
                .value_name("NAME"),
        ];
        assert(arg_models(r@) =~= Self::spec_args());
        r
    }

    /// `clap` accepts the command.
    #[verifier::spinoff_prover]
    pub proof fn lemma_command_ok()
        ensures
            command_ok(Self::spec_command()),
    {
        reveal_strlit("follow");
        reveal_strlit("lines");
        reveal_strlit("name");
        reveal_strlit("help");
        reveal_strlit("version");
        assert("name"@[0] != "help"@[0]);
        let a = Self::spec_args();
        assert(!a[0].last && !a[0].many && a[0].id.len() > 0);
        assert(a[0].long is Some ==> long_ok(a[0].long->0));
        assert(arg_ok(a[0]));
        assert(!a[1].last && !a[1].many && a[1].id.len() > 0);
        assert(a[1].long is Some ==> long_ok(a[1].long->0));
        assert(arg_ok(a[1]));
        assert(!a[2].last && !a[2].many && a[2].id.len() > 0);
        assert(a[2].long is Some ==> long_ok(a[2].long->0));
        assert(arg_ok(a[2]));
        assert forall|i: int| 0 <= i < a.len() implies arg_ok(#[trigger] a[i]) by {
            assert(i == 0 || i == 1 || i == 2);
        }
        assert forall|i: int, j: int| 0 <= i < j < a.len() implies pair_ok(
            #[trigger] a[i],
            #[trigger] a[j],
        ) by {
            assert(i == 0 || i == 1 || i == 2);
            assert(j == 0 || j == 1 || j == 2);
        }
    }

    /// Whether the fields are the parsed values.
    pub open spec fn read_from(self, vals: Seq<ValuesModel>) -> bool {
        &&& self.follow == flag_of(vals[0])
        &&& self.lines@ == single_of(vals[1])
        &&& str_opt_of(self.name) == optional_of(vals[2])
    }

    /// The fields from parsed values.
    pub fn from_values(vals: &Vec<ArgValues>) -> (r: LogsArgs)
        requires
            values_fit(Self::spec_args(), values_models(vals@)),
        ensures
            r.read_from(values_models(vals@)),
    {
        let ghost v = values_models(vals@);
        assert(value_fits(Self::spec_args()[0], v[0]));
        assert(value_fits(Self::spec_args()[1], v[1]));
        assert(value_fits(Self::spec_args()[2], v[2]));
        LogsArgs { follow: read_flag(&vals[0]), lines: read_single(&vals[1]), name: read_optional(&vals[2]) }
    }

    /// Parses a command line (the command's name first) as `clap` would for these
    /// arguments.
    pub fn try_parse_from(argv: &[&str]) -> (r: Result<LogsArgs, ArgsError>)
        ensures
            match clap_outcome(Self::spec_command(), argv_texts(argv@)) {
                Ok(p) => r matches Ok(a) && a.read_from(p.values),
                Err((m, answered)) => r matches Err(e) && args_error_message(e) == m && (e is Answered
                    <==> answered),
            },
    {
        let spec = leaf_command_spec("logs", ABOUT, Self::args());
        proof {
            Self::lemma_command_ok();
        }
        match clap_parse(&spec, argv) {
            Ok(p) => Ok(Self::from_values(&p.values)),
            Err((m, answered)) => Err(
                if answered {
                    ArgsError::Answered(m)
                } else {
                    ArgsError::Rejected(m)
                },
            ),
        }
    }
}

/// The line announcing the logs of the core environment container.
pub open spec fn fetching_message(container: Seq<char>, follow: bool) -> Seq<char> {
    "Fetching logs for core env container '"@ + container + "'"@ + (if follow {
        " (following)"@
    } else {
        ""@
    }) + "..."@
}

/// The line announcing the logs of the core environment container.
pub fn logs_fetching_message(container: &str, follow: bool) -> (r: String)
    ensures
        r@ == fetching_message(container@, follow),
{
    let mut m = String::new();
    m.append("Fetching logs for core env container '");
    m.append(container);
    m.append("'");
    if follow {
        m.append(" (following)");
    } else {
        m.append("");
    }
    m.append("...");
    m
}

} // verus!
