//! `devrs container logs`: fetching the logs of an application container.

use crate::cli::{
    arg_model, arg_models, arg_ok, args_error_message, argv_texts, clap_outcome, clap_parse,
    command_ok, flag_of, leaf_command, leaf_command_spec, long_ok, pair_ok, read_flag, read_single,
    single_of, str_opt_of, value_fits, values_fit, values_models, ArgKind, ArgModel, ArgSpec,
    ArgValues, ArgsError, CommandModel, ValuesModel,
};
use crate::text::{chars_of, eq_ignore_ascii_case, is_u32_text, parses_as_u32, text_eq_ignore_ascii_case, trim, trim_str};
use vstd::prelude::*;

verus! {

/// The line describing the command in its help.
pub const ABOUT: &'static str = "Fetch logs from a specified application container";

/// Arguments of `devrs container logs`.
#[derive(Debug)]
pub struct LogsArgs {
    /// The container to read from.
    pub container_name_or_id: String,
    /// Whether to keep streaming new output.
    pub follow: bool,
    /// How many lines to show from the end: a number or `all`.
    pub lines: String,
}

impl LogsArgs {
    /// The arguments, in order.
    pub open spec fn spec_args() -> Seq<ArgModel> {
        seq![
            arg_model("container_name_or_id"@, ArgKind::Single).with_required()
                .with_help("The name or ID of the target application container from which to fetch logs. This argument is required"@)
                .with_value_name("CONTAINER_NAME_OR_ID"@),
            arg_model("follow"@, ArgKind::Flag).with_long("follow"@).with_short('f')
                .with_help("Optional: If set, continuously stream new log output after displaying existing logs. Equivalent to `docker logs -f`"@),
            arg_model("lines"@, ArgKind::Single).with_long("lines"@).with_short('n').with_default("100"@)
                .with_help("Optional: Number of lines to show from the end of the logs. Accepts a specific number (e.g., \"500\") or the string \"all\". Defaults to \"100\" if not specified or if an invalid numeric value is given"@)
                .with_value_name("LINES"@),
        ]
    }

    /// The command.
    pub open spec fn spec_command() -> CommandModel {
        leaf_command("logs"@, Some(ABOUT@), Self::spec_args())
    }

    /// The arguments, in order.
    pub fn args() -> (r: Vec<ArgSpec>)
        ensures
            arg_models(r@) == Self::spec_args(),
    {
        let r = vec![
            ArgSpec::new("container_name_or_id", ArgKind::Single).required()
                .help("The name or ID of the target application container from which to fetch logs. This argument is required")
                .value_name("CONTAINER_NAME_OR_ID"),
            ArgSpec::new("follow", ArgKind::Flag).long("follow").short('f')
                .help("Optional: If set, continuously stream new log output after displaying existing logs. Equivalent to `docker logs -f`"),
            ArgSpec::new("lines", ArgKind::Single).long("lines").short('n').default_value("100")
                .help("Optional: Number of lines to show from the end of the logs. Accepts a specific number (e.g., \"500\") or the string \"all\". Defaults to \"100\" if not specified or if an invalid numeric value is given")
                .value_name("LINES"),
        ];
        assert(arg_models(r@) =~= Self::spec_args());
        r
    }

    /// `clap` accepts the command.
    #[verifier::spinoff_prover]
    pub proof fn lemma_command_ok()
        ensures
            command_ok(Self::spec_command()),
    {
        reveal_strlit("container_name_or_id");
        reveal_strlit("follow");
        reveal_strlit("lines");
        reveal_strlit("help");
        reveal_strlit("version");
        let a = Self::spec_args();
        assert(a[0].kind == ArgKind::Single && !a[0].last && !a[0].many);
        assert(a[0].id.len() > 0);
        assert(arg_ok(a[0]));
        assert(!a[1].last && !a[1].many && a[1].id.len() > 0);
        assert(a[1].long is Some ==> long_ok(a[1].long->0));
        assert(arg_ok(a[1]));
        assert(!a[2].last && !a[2].many && a[2].id.len() > 0);
        assert(a[2].long is Some ==> long_ok(a[2].long->0));
        assert(arg_ok(a[2]));
        assert forall|i: int| 0 <= i < a.len() implies arg_ok(#[trigger] a[i]) by {
            assert(i == 0 || i == 1 || i == 2);
        }
        assert forall|i: int, j: int| 0 <= i < j < a.len() implies pair_ok(
            #[trigger] a[i],
            #[trigger] a[j],
        ) by {
            assert(i == 0 || i == 1 || i == 2);
            assert(j == 0 || j == 1 || j == 2);
        }
    }

    /// Whether the fields are the parsed values.
    pub open spec fn read_from(self, vals: Seq<ValuesModel>) -> bool {
        &&& self.container_name_or_id@ == single_of(vals[0])
        &&& self.follow == flag_of(vals[1])
        &&& self.lines@ == single_of(vals[2])
    }

    /// The fields from parsed values.
    pub fn from_values(vals: &Vec<ArgValues>) -> (r: LogsArgs)
        requires
            values_fit(Self::spec_args(), values_models(vals@)),
        ensures
            r.read_from(values_models(vals@)),
    {
        let ghost v = values_models(vals@);
        assert(value_fits(Self::spec_args()[0], v[0]));
        assert(value_fits(Self::spec_args()[1], v[1]));
        assert(value_fits(Self::spec_args()[2], v[2]));
        LogsArgs { container_name_or_id: read_single(&vals[0]), follow: read_flag(&vals[1]), lines: read_single(&vals[2]) }
    }

    /// Parses a command line (the command's name first) as `clap` would for these
    /// arguments.
    pub fn try_parse_from(argv: &[&str]) -> (r: Result<LogsArgs, ArgsError>)
        ensures
            match clap_outcome(Self::spec_command(), argv_texts(argv@)) {
                Ok(p) => r matches Ok(a) && a.read_from(p.values),
                Err((m, answered)) => r matches Err(e) && args_error_message(e) == m && (e is Answered
                    <==> answered),
            },
    {
        let spec = leaf_command_spec("logs", ABOUT, Self::args());
        proof {
            Self::lemma_command_ok();
        }
        match clap_parse(&spec, argv) {
            Ok(p) => Ok(Self::from_values(&p.values)),
            Err((m, answered)) => Err(
                if answered {
                    ArgsError::Answered(m)
                } else {
                    ArgsError::Rejected(m)
                },
            ),
        }
    }
}

/// The `tail` passed to Docker for a `--lines` value: `all` in any ASCII case, the value
/// itself when (trimmed) it is a `u32`, else `100`.
pub open spec fn spec_log_tail(lines: Seq<char>) -> Seq<char> {
    if eq_ignore_ascii_case(trim(lines), "all"@) {
        "all"@
    } else if is_u32_text(trim(lines)) {
        lines
    } else {
        "100"@
    }
}

/// The `tail` passed to Docker for a `--lines` value.
pub fn log_tail(lines: &str) -> (r: String)
    ensures
        r@ == spec_log_tail(lines@),
{
    let t = trim_str(lines);
    let c = chars_of(t.as_str());
    if text_eq_ignore_ascii_case(&c, "all") {
        "all".to_string()
    } else if parses_as_u32(&c) {
        lines.to_string()
    } else {
        "100".to_string()
    }
}

/// The line announcing the logs of a container.
pub open spec fn fetching_message(container: Seq<char>, follow: bool) -> Seq<char> {
    "Fetching logs for container '"@ + container + "'"@ + (if follow {
        " (following)"@
    } else {
        ""@
    }) + "..."@
}

/// The line shown after the logs, unless they are followed.
pub open spec fn finished_message(container: Seq<char>, follow: bool) -> Option<Seq<char>> {
    if follow {
        None
    } else {
        Some("\nFinished displaying logs for container '"@ + container + "'."@)
    }
}

/// The line announcing the logs of a container.
pub fn logs_fetching_message(container: &str, follow: bool) -> (r: String)
    ensures
        r@ == fetching_message(container@, follow),
{
    let mut m = String::new();
    m.append("Fetching logs for container '");
    m.append(container);
    m.append("'");
    if follow {
        m.append(" (following)");
    } else {
        m.append("");
    }
    m.append("...");
    m
}

/// The line shown after the logs, unless they are followed.
pub fn logs_finished_message(container: &str, follow: bool) -> (r: Option<String>)
    ensures
        str_opt_of(r) == finished_message(container@, follow),
{
    if follow {
        None
    } else {
        let mut m = String::new();
        m.append("\nFinished displaying logs for container '");
        m.append(container);
        m.append("'.");
        Some(m)
    }
}

/// The `tail` value: `all` when the trimmed value is `all` in any ASCII case; the value
/// exactly as given when, trimmed, it is a decimal `u32` (an optional `+`, then digits of
/// a value that fits); otherwise the default `100`. A non-negative number that fits in a
/// `u32` is therefore always passed through unchanged.
pub proof fn lemma_log_tail(lines: Seq<char>)
    ensures
        eq_ignore_ascii_case(trim(lines), "all"@) ==> spec_log_tail(lines) == "all"@,
        !eq_ignore_ascii_case(trim(lines), "all"@) && is_u32_text(trim(lines)) ==> spec_log_tail(
            lines,
        ) == lines,
        !eq_ignore_ascii_case(trim(lines), "all"@) && !is_u32_text(trim(lines)) ==> spec_log_tail(
            lines,
        ) == "100"@,
        spec_log_tail(lines) == "all"@ || spec_log_tail(lines) == lines || spec_log_tail(lines)
            == "100"@,
{
}

} // verus!
