//! `devrs env status`: the state of the core environment container.

use crate::cli::{
    arg_model, arg_models, arg_ok, args_error_message, argv_texts, clap_outcome, clap_parse,
    command_ok, leaf_command, leaf_command_spec, optional_of, read_optional, str_opt_of, value_fits,
    values_fit, values_models, ArgKind, ArgModel, ArgSpec, ArgValues, ArgsError, CommandModel,
    ValuesModel,
};
use crate::text::{index_of_from, seq_lt, signed_decimal, starts_with, u16_or_zero};
use crate::text::{chars_of, find_char, parse_u16_or_zero};
use crate::text::{lemma_seq_lt_total, lemma_seq_lt_transitive, text_lt};
use crate::text::{push_text, push_texts, texts};
use crate::text::{has_prefix, signed_decimal_string};
use crate::commands::blueprint::create::two_digits;
use crate::order::{insert_stable, lemma_insert_stable_split, lemma_stable_sort_sorted, stable_sort};
use vstd::prelude::*;

verus! {

/// The line describing the command in its help.
pub const ABOUT: &'static str = "Show status of the core development environment container";

/// Arguments of `devrs env status`.
#[derive(Debug)]
pub struct StatusArgs {
    /// The container; the configured one when absent.
    pub name: Option<String>,
}

impl StatusArgs {
    /// The arguments, in order.
    pub open spec fn spec_args() -> Seq<ArgModel> {
        seq![
            arg_model("name"@, ArgKind::Single).with_long("name"@)
                .with_help("Optional: Specifies the exact name of the core environment container to check the status of. If omitted, the default name (derived from the `core_env.image_name` in the configuration, typically `<image_name>-instance`) is used"@)
                .with_value_name("NAME"@),
        ]
    }

    /// The command.
    pub open spec fn spec_command() -> CommandModel {
        leaf_command("status"@, Some(ABOUT@), Self::spec_args())
    }

    /// The arguments, in order.
    pub fn args() -> (r: Vec<ArgSpec>)
        ensures
            arg_models(r@) == Self::spec_args(),
    {
        let r = vec![
            ArgSpec::new("name", ArgKind::Single).long("name")
                .help("Optional: Specifies the exact name of the core environment container to check the status of. If omitted, the default name (derived from the `core_env.image_name` in the configuration, typically `<image_name>-instance`) is used")
                .value_name("NAME"),
        ];
        assert(arg_models(r@) =~= Self::spec_args());
        r
    }

    /// `clap` accepts the command.
    #[verifier::spinoff_prover]
    pub proof fn lemma_command_ok()
        ensures
            command_ok(Self::spec_command()),
    {
        reveal_strlit("name");
        reveal_strlit("help");
        reveal_strlit("version");
        assert("name"@[0] != "help"@[0]);
        let a = Self::spec_args();
        assert forall|i: int| 0 <= i < a.len() implies arg_ok(#[trigger] a[i]) by {
            assert(i == 0);
        }
    }

    /// Whether the fields are the parsed values.
    pub open spec fn read_from(self, vals: Seq<ValuesModel>) -> bool {
        &&& str_opt_of(self.name) == optional_of(vals[0])
    }

    /// The fields from parsed values.
    pub fn from_values(vals: &Vec<ArgValues>) -> (r: StatusArgs)
        requires
            values_fit(Self::spec_args(), values_models(vals@)),
        ensures
            r.read_from(values_models(vals@)),
    {
        let ghost v = values_models(vals@);
        assert(value_fits(Self::spec_args()[0], v[0]));
        StatusArgs { name: read_optional(&vals[0]) }
    }

    /// Parses a command line (the command's name first) as `clap` would for these
    /// arguments.
    pub fn try_parse_from(argv: &[&str]) -> (r: Result<StatusArgs, ArgsError>)
        ensures
            match clap_outcome(Self::spec_command(), argv_texts(argv@)) {
                Ok(p) => r matches Ok(a) && a.read_from(p.values),
                Err((m, answered)) => r matches Err(e) && args_error_message(e) == m && (e is Answered
                    <==> answered),
            },
    {
        let spec = leaf_command_spec("status", ABOUT, Self::args());
        proof {
            Self::lemma_command_ok();
        }
        match clap_parse(&spec, argv) {
            Ok(p) => Ok(Self::from_values(&p.values)),
            Err((m, answered)) => Err(
                if answered {
                    ArgsError::Answered(m)
                } else {
                    ArgsError::Rejected(m)
                },
            ),
        }
    }
}

/// A host binding of a container port.
pub struct HostBinding {
    pub host_ip: Option<String>,
    pub host_port: Option<String>,
}

/// One mount of a container.
pub struct MountInfo {
    /// The path inside the container.
    pub destination: Option<String>,
    /// The host path or volume name.
    pub source: Option<String>,
    /// Whether it is writable.
    pub rw: Option<bool>,
    /// The mount type's name, as `{:?}` writes it (`BIND`, `VOLUME`).
    pub kind: Option<String>,
}

/// What `docker inspect` tells of a container, as far as the status report reads it.
pub struct ContainerDetails {
    pub id: Option<String>,
    /// The image, from the container's configuration.
    pub image: Option<String>,
    /// The state's name, as `{:?}` writes it (`RUNNING`, `EXITED`).
    pub status: Option<String>,
    pub running: Option<bool>,
    /// When the container started, in RFC 3339.
    pub started_at: Option<String>,
    /// When the container finished, in RFC 3339 (`0001-01-01...` when it has not).
    pub finished_at: Option<String>,
    pub exit_code: Option<i64>,
    /// The address in the network settings.
    pub ip_address: Option<String>,
    /// The address on the first network the engine lists.
    pub first_network_ip: Option<String>,
    /// Container ports (`80/tcp`) with their host bindings, in the engine's order.
    pub ports: Option<Vec<(String, Option<Vec<HostBinding>>)>>,
    pub mounts: Option<Vec<MountInfo>>,
}

/// A port entry's value: the container port and, when present, its bindings'
/// `(host_ip, host_port)`.
pub type PortModel = (Seq<char>, Option<Seq<(Option<Seq<char>>, Option<Seq<char>>)>>);

/// A mount's value: destination, source, writable, kind.
pub type MountModel = (Option<Seq<char>>, Option<Seq<char>>, Option<bool>, Option<Seq<char>>);

/// The value of a port entry.
pub open spec fn port_model(p: (String, Option<Vec<HostBinding>>)) -> PortModel {
    (
        p.0@,
        match p.1 {
            Some(bs) => Some(
                bs@.map_values(|b: HostBinding| (str_opt_of(b.host_ip), str_opt_of(b.host_port))),
            ),
            None => None,
        },
    )
}

/// The value of a mount.
pub open spec fn mount_model(m: MountInfo) -> MountModel {
    (str_opt_of(m.destination), str_opt_of(m.source), m.rw, str_opt_of(m.kind))
}

/// The number a port entry sorts by: its port before `/`, read as a `u16`, else 0.
pub open spec fn port_key(k: Seq<char>) -> int {
    u16_or_zero(k.take(index_of_from(k, 0, '/')))
}

/// Port entries in display order: by port number, ties in the engine's order.
pub open spec fn port_le(a: PortModel, b: PortModel) -> bool {
    port_key(a.0) <= port_key(b.0)
}

/// The order of optional texts: absent first, then by text.
pub open spec fn opt_text_le(a: Option<Seq<char>>, b: Option<Seq<char>>) -> bool {
    match (a, b) {
        (None, _) => true,
        (Some(_), None) => false,
        (Some(x), Some(y)) => !seq_lt(y, x),
    }
}

/// Mounts in display order: by destination.
pub open spec fn mount_le(a: MountModel, b: MountModel) -> bool {
    opt_text_le(a.0, b.0)
}

/// A text, or a placeholder when absent.
pub open spec fn or_text(o: Option<Seq<char>>, d: Seq<char>) -> Seq<char> {
    match o {
        Some(s) => s,
        None => d,
    }
}

/// The report lines of one port entry.
pub open spec fn port_lines(p: PortModel) -> Seq<Seq<char>> {
    match p.1 {
        Some(bs) => if bs.len() == 0 {
            seq!["      - "@ + p.0 + " -> <not mapped>"@]
        } else {
            bs.map_values(
                |b: (Option<Seq<char>>, Option<Seq<char>>)|
                    "      - "@ + p.0 + " -> "@ + or_text(b.0, "0.0.0.0"@) + ":"@ + or_text(
                        b.1,
                        "<none>"@,
                    ),
            )
        },
        None => seq!["      - "@ + p.0 + " -> <not mapped>"@],
    }
}

/// The report lines of port entries, in order.
pub open spec fn ports_lines(ps: Seq<PortModel>) -> Seq<Seq<char>>
    decreases ps.len(),
{
    if ps.len() == 0 {
        Seq::empty()
    } else {
        ports_lines(ps.drop_last()) + port_lines(ps.last())
    }
}

/// The report line of one mount.
pub open spec fn mount_line(m: MountModel) -> Seq<char> {
    "    - "@ + or_text(m.1, "N/A"@) + " -> "@ + or_text(m.0, "N/A"@) + " ("@ + (match m.2 {
        Some(true) => "rw"@,
        Some(false) => "ro"@,
        None => "?"@,
    }) + ", "@ + or_text(m.3, "?"@) + ")"@
}

/// A non-empty text, or nothing.
pub open spec fn nonempty(o: Option<Seq<char>>) -> Option<Seq<char>> {
    match o {
        Some(s) => if s.len() > 0 {
            Some(s)
        } else {
            None
        },
        None => None,
    }
}

/// The line of a time, formatted (`None` when it could not be parsed).
pub open spec fn time_line(label: Seq<char>, raw: Seq<char>, formatted: Option<Seq<char>>) -> Seq<char> {
    match formatted {
        Some(f) => label + f,
        None => label + raw + " (Could not parse)"@,
    }
}

/// The opening lines of the report: a blank line, the heading, identity and state.
pub open spec fn head_section(
    name: Seq<char>,
    id: Option<Seq<char>>,
    image: Option<Seq<char>>,
    status: Option<Seq<char>>,
    running: Option<bool>,
) -> Seq<Seq<char>> {
    seq![
        Seq::empty(),
        "--- Core Environment Status: "@ + name + " ---"@,
        "  ID:          "@ + or_text(id, "N/A"@),
        "  Image:       "@ + or_text(image, "N/A"@),
        "  Status:      "@ + or_text(status, "Unknown"@),
        "  Running:     "@ + match running {
            Some(true) => "Yes"@,
            Some(false) => "No"@,
            None => "Unknown"@,
        },
    ]
}

/// The line of the start time, when there is one.
pub open spec fn started_section(started: Option<(Seq<char>, Option<Seq<char>>)>) -> Seq<Seq<char>> {
    match started {
        Some((raw, f)) => seq![time_line("  Started At:  "@, raw, f)],
        None => Seq::empty(),
    }
}

/// The line of the finish time, when there is one that is not the zero date.
pub open spec fn finished_section(finished: Option<(Seq<char>, Option<Seq<char>>)>) -> Seq<
    Seq<char>,
> {
    match finished {
        Some((raw, f)) => if starts_with(raw, "0001-01-01"@) {
            Seq::empty()
        } else {
            seq![time_line("  Finished At: "@, raw, f)]
        },
        None => Seq::empty(),
    }
}

/// The line of the exit code, when there is one.
pub open spec fn exit_section(exit_code: Option<i64>) -> Seq<Seq<char>> {
    match exit_code {
        Some(c) => seq!["  Exit Code:   "@ + signed_decimal(c as int)],
        None => Seq::empty(),
    }
}

/// The network lines: the address, else the first network's, else a note.
pub open spec fn network_section(ip: Option<Seq<char>>, first_ip: Option<Seq<char>>) -> Seq<
    Seq<char>,
> {
    seq![
        "  Network:"@,
        match nonempty(ip) {
            Some(a) => "    IP Address:  "@ + a,
            None => match nonempty(first_ip) {
                Some(a) => "    IP Address:  "@ + a + " (from bridge network)"@,
                None => "    IP Address:  N/A (Container might be stopped or network not ready)"@,
            },
        },
    ]
}

/// The port lines, by port number.
pub open spec fn ports_section(ports: Option<Seq<PortModel>>) -> Seq<Seq<char>> {
    match ports {
        Some(ps) => if ps.len() == 0 {
            seq!["    Ports:       <none exposed/mapped>"@]
        } else {
            seq!["    Ports:"@] + ports_lines(
                stable_sort(ps, |a: PortModel, b: PortModel| port_le(a, b)),
            )
        },
        None => seq!["    Ports:       <none exposed/mapped>"@],
    }
}

/// The mount lines, by destination.
pub open spec fn mounts_section(mounts: Option<Seq<MountModel>>) -> Seq<Seq<char>> {
    match mounts {
        Some(ms) => if ms.len() == 0 {
            seq!["  Mounts:      <none>"@]
        } else {
            seq!["  Mounts:"@] + stable_sort(ms, |a: MountModel, b: MountModel| mount_le(a, b)).map_values(
                |m: MountModel| mount_line(m),
            )
        },
        None => seq!["  Mounts:      <none>"@],
    }
}

/// The status report of the core environment container `name`, given how its start and
/// finish times format (`None` for a time that does not parse).
pub open spec fn details_report(
    name: Seq<char>,
    id: Option<Seq<char>>,
    image: Option<Seq<char>>,
    status: Option<Seq<char>>,
    running: Option<bool>,
    started: Option<(Seq<char>, Option<Seq<char>>)>,
    finished: Option<(Seq<char>, Option<Seq<char>>)>,
    exit_code: Option<i64>,
    ip: Option<Seq<char>>,
    first_ip: Option<Seq<char>>,
    ports: Option<Seq<PortModel>>,
    mounts: Option<Seq<MountModel>>,
) -> Seq<Seq<char>> {
    head_section(name, id, image, status, running) + started_section(started) + finished_section(
        finished,
    ) + exit_section(exit_code) + network_section(ip, first_ip) + ports_section(ports)
        + mounts_section(mounts) + seq!["-----------------------------------"@]
}

/// The values of the elements at the given indices.
pub open spec fn at_indices<T>(m: Seq<T>, idx: Seq<usize>) -> Seq<T> {
    idx.map_values(|i: usize| m[i as int])
}

/// The number a port entry sorts by.
fn port_number(k: &String) -> (r: u16)
    ensures
        r == port_key(k@),
{
    let c = chars_of(k.as_str());
    let slash = find_char(&c, 0, '/');
    let prefix = chars_prefix(&c, slash);
    parse_u16_or_zero(&prefix)
}

/// The first `n` characters.
fn chars_prefix(c: &Vec<char>, n: usize) -> (r: Vec<char>)
    requires
        n <= c.len(),
    ensures
        r@ == c@.take(n as int),
{
    let mut r: Vec<char> = Vec::new();
    let mut i: usize = 0;
    while i < n
        invariant
            i <= n <= c.len(),
            r@ == c@.take(i as int),
        decreases n - i,
    {
        r.push(c[i]);
        assert(c@.take(i + 1) == c@.take(i as int).push(c@[i as int]));
        i = i + 1;
    }
    r
}

/// The order in which port entries are reported: the indices of
/// `stable_sort(ports, port_le)`.
pub fn port_order(ports: &Vec<(String, Option<Vec<HostBinding>>)>) -> (r: Vec<usize>)
    ensures
        forall|k: int| 0 <= k < r.len() ==> r@[k] < ports.len(),
        at_indices(ports@.map_values(|p: (String, Option<Vec<HostBinding>>)| port_model(p)), r@)
            == stable_sort(
            ports@.map_values(|p: (String, Option<Vec<HostBinding>>)| port_model(p)),
            |a: PortModel, b: PortModel| port_le(a, b),
        ),
{
    let ghost m = ports@.map_values(|p: (String, Option<Vec<HostBinding>>)| port_model(p));
    let ghost le = |a: PortModel, b: PortModel| port_le(a, b);
    let mut out: Vec<usize> = Vec::new();
    let mut keys: Vec<u16> = Vec::new();
    let mut k: usize = 0;
    assert(m.take(0) =~= Seq::<PortModel>::empty());
    assert(at_indices(m, out@) =~= Seq::<PortModel>::empty());
    while k < ports.len()
        invariant
            k <= ports.len(),
            m == ports@.map_values(|p: (String, Option<Vec<HostBinding>>)| port_model(p)),
            le == (|a: PortModel, b: PortModel| port_le(a, b)),
            out.len() == keys.len(),
            forall|t: int| 0 <= t < out.len() ==> out@[t] < k,
            forall|t: int| 0 <= t < out.len() ==> keys@[t] == port_key(m[out@[t] as int].0),
            at_indices(m, out@) == stable_sort(m.take(k as int), le),
        decreases ports.len() - k,
    {
        let key = port_number(&ports[k].0);
        assert(m[k as int].0 == ports@[k as int].0@);
        let ghost x = m[k as int];
        let ghost s = at_indices(m, out@);
        let mut j = out.len();
        while j > 0 && keys[j - 1] > key
            invariant
                j <= out.len(),
                out.len() == keys.len(),
                s == at_indices(m, out@),
                forall|t: int| 0 <= t < out.len() ==> keys@[t] == port_key(m[out@[t] as int].0),
                key == port_key(x.0),
                le == (|a: PortModel, b: PortModel| port_le(a, b)),
                forall|t: int| j <= t < s.len() ==> !le(#[trigger] s[t], x),
            decreases j,
        {
            assert(s[j - 1] == m[out@[j - 1] as int]);
            j = j - 1;
        }
        proof {
            lemma_insert_stable_split(s, x, le, j as int);
            if j > 0 {
                assert(s[j - 1] == m[out@[j - 1] as int]);
                assert(le(s.take(j as int).last(), x));
            }
            assert(insert_stable(s.take(j as int), x, le) == s.take(j as int).push(x));
            assert(m.take(k + 1).drop_last() == m.take(k as int));
            assert(m.take(k + 1).last() == x);
        }
        let ghost old_out = out@;
        out.insert(j, k);
        keys.insert(j, key);
        proof {
            assert(at_indices(m, out@) =~= s.take(j as int).push(x) + s.skip(j as int));
            assert forall|t: int| 0 <= t < out.len() implies out@[t] < k + 1 by {
                if t < j {
                    assert(out@[t] == old_out[t]);
                } else if t > j {
                    assert(out@[t] == old_out[t - 1]);
                }
            }
            assert forall|t: int| 0 <= t < out.len() implies keys@[t] == port_key(
                m[out@[t] as int].0,
            ) by {
                if t < j {
                    assert(out@[t] == old_out[t]);
                } else if t > j {
                    assert(out@[t] == old_out[t - 1]);
                }
            }
        }
        k = k + 1;
    }
    assert(m.take(ports.len() as int) == m);
    out
}

/// Whether one optional text may come before another: absent first, then by text.
fn opt_text_before(a: &Option<String>, b: &Option<String>) -> (r: bool)
    ensures
        r == opt_text_le(str_opt_of(*a), str_opt_of(*b)),
{
    match (a, b) {
        (None, _) => true,
        (Some(_), None) => false,
        (Some(x), Some(y)) => !text_lt(y.as_str(), x.as_str()),
    }
}

/// The order in which mounts are reported: the indices of `stable_sort(mounts, mount_le)`.
pub fn mount_order(mounts: &Vec<MountInfo>) -> (r: Vec<usize>)
    ensures
        forall|k: int| 0 <= k < r.len() ==> r@[k] < mounts.len(),
        at_indices(mounts@.map_values(|m: MountInfo| mount_model(m)), r@) == stable_sort(
            mounts@.map_values(|m: MountInfo| mount_model(m)),
            |a: MountModel, b: MountModel| mount_le(a, b),
        ),
{
    let ghost m = mounts@.map_values(|m: MountInfo| mount_model(m));
    let ghost le = |a: MountModel, b: MountModel| mount_le(a, b);
    let mut out: Vec<usize> = Vec::new();
    let mut k: usize = 0;
    assert(m.take(0) =~= Seq::<MountModel>::empty());
    assert(at_indices(m, out@) =~= Seq::<MountModel>::empty());
    while k < mounts.len()
        invariant
            k <= mounts.len(),
            m == mounts@.map_values(|m: MountInfo| mount_model(m)),
            le == (|a: MountModel, b: MountModel| mount_le(a, b)),
            forall|t: int| 0 <= t < out.len() ==> out@[t] < k,
            at_indices(m, out@) == stable_sort(m.take(k as int), le),
        decreases mounts.len() - k,
    {
        let ghost x = m[k as int];
        let ghost s = at_indices(m, out@);
        let mut j = out.len();
        while j > 0 && !opt_text_before(&mounts[out[j - 1]].destination, &mounts[k].destination)
            invariant
                j <= out.len(),
                k < mounts.len(),
                forall|t: int| 0 <= t < out.len() ==> out@[t] < k,
                s == at_indices(m, out@),
                m == mounts@.map_values(|m: MountInfo| mount_model(m)),
                x == m[k as int],
                le == (|a: MountModel, b: MountModel| mount_le(a, b)),
                forall|t: int| j <= t < s.len() ==> !le(#[trigger] s[t], x),
            decreases j,
        {
            assert(s[j - 1] == m[out@[j - 1] as int]);
            j = j - 1;
        }
        proof {
            lemma_insert_stable_split(s, x, le, j as int);
            if j > 0 {
                assert(s[j - 1] == m[out@[j - 1] as int]);
                assert(le(s.take(j as int).last(), x));
            }
            assert(insert_stable(s.take(j as int), x, le) == s.take(j as int).push(x));
            assert(m.take(k + 1).drop_last() == m.take(k as int));
            assert(m.take(k + 1).last() == x);
        }
        let ghost old_out = out@;
        out.insert(j, k);
        proof {
            assert(at_indices(m, out@) =~= s.take(j as int).push(x) + s.skip(j as int));
            assert forall|t: int| 0 <= t < out.len() implies out@[t] < k + 1 by {
                if t < j {
                    assert(out@[t] == old_out[t]);
                } else if t > j {
                    assert(out@[t] == old_out[t - 1]);
                }
            }
        }
        k = k + 1;
    }
    assert(m.take(mounts.len() as int) == m);
    out
}

/// Appends `t` to `s`.
fn joined(s: &str, t: &str) -> (r: String)
    ensures
        r@ == s@ + t@,
{
    let mut r = s.to_string();
    r.append(t);
    r
}

/// A text, or a placeholder when absent.
fn or_string(o: &Option<String>, d: &str) -> (r: String)
    ensures
        r@ == or_text(str_opt_of(*o), d@),
{
    match o {
        Some(s) => s.clone(),
        None => d.to_string(),
    }
}

/// The report lines of the port entries, in report order.
fn port_report(ports: &Vec<(String, Option<Vec<HostBinding>>)>) -> (r: Vec<String>)
    ensures
        texts(r@) == ports_lines(
            stable_sort(
                ports@.map_values(|p: (String, Option<Vec<HostBinding>>)| port_model(p)),
                |a: PortModel, b: PortModel| port_le(a, b),
            ),
        ),
{
    let ghost m = ports@.map_values(|p: (String, Option<Vec<HostBinding>>)| port_model(p));
    let order = port_order(ports);
    let ghost s = at_indices(m, order@);
    let mut lines: Vec<String> = Vec::new();
    let mut t: usize = 0;
    assert(s.take(0) =~= Seq::<PortModel>::empty());
    while t < order.len()
        invariant
            t <= order.len(),
            m == ports@.map_values(|p: (String, Option<Vec<HostBinding>>)| port_model(p)),
            s == at_indices(m, order@),
            forall|k: int| 0 <= k < order.len() ==> order@[k] < ports.len(),
            texts(lines@) == ports_lines(s.take(t as int)),
        decreases order.len() - t,
    {
        let p = &ports[order[t]];
        let ghost pm = s[t as int];
        assert(pm == port_model(*p));
        assert(s.take(t + 1).drop_last() == s.take(t as int));
        let ghost before = texts(lines@);
        let mut head = "      - ".to_string();
        head.append(p.0.as_str());
        match &p.1 {
            None => {
                lines.push(joined(head.as_str(), " -> <not mapped>"));
                assert(texts(lines@) =~= before + port_lines(pm));
            },
            Some(bs) => {
                if bs.len() == 0 {
                    lines.push(joined(head.as_str(), " -> <not mapped>"));
                    assert(texts(lines@) =~= before + port_lines(pm));
                } else {
                    let ghost bm = bs@.map_values(
                        |b: HostBinding| (str_opt_of(b.host_ip), str_opt_of(b.host_port)),
                    );
                    let ghost f = |b: (Option<Seq<char>>, Option<Seq<char>>)|
                        "      - "@ + pm.0 + " -> "@ + or_text(b.0, "0.0.0.0"@) + ":"@ + or_text(
                            b.1,
                            "<none>"@,
                        );
                    let mut u: usize = 0;
                    assert(bm.take(0).map_values(f) =~= Seq::<Seq<char>>::empty());
                    while u < bs.len()
                        invariant
                            u <= bs.len(),
                            head@ == "      - "@ + pm.0,
                            bm == bs@.map_values(
                                |b: HostBinding| (str_opt_of(b.host_ip), str_opt_of(b.host_port)),
                            ),
                            f == (|b: (Option<Seq<char>>, Option<Seq<char>>)|
                                "      - "@ + pm.0 + " -> "@ + or_text(b.0, "0.0.0.0"@) + ":"@
                                    + or_text(b.1, "<none>"@)),
                            texts(lines@) == before + bm.take(u as int).map_values(f),
                        decreases bs.len() - u,
                    {
                        let b = &bs[u];
                        let mut line = joined(head.as_str(), " -> ");
                        line.append(or_string(&b.host_ip, "0.0.0.0").as_str());
                        line.append(":");
                        line.append(or_string(&b.host_port, "<none>").as_str());
                        let ghost old_lines = texts(lines@);
                        lines.push(line);
                        assert(line@ == f(bm[u as int]));
                        assert(bm.take(u + 1).map_values(f) =~= bm.take(u as int).map_values(f).push(
                            f(bm[u as int]),
                        ));
                        assert(texts(lines@) =~= old_lines.push(line@));
                        u = u + 1;
                    }
                    assert(bm.take(bs.len() as int) == bm);
                    assert(port_lines(pm) == bm.map_values(f));
                }
            },
        }
        t = t + 1;
    }
    assert(s.take(order.len() as int) == s);
    lines
}

/// The report line of one mount.
fn mount_report_line(m: &MountInfo) -> (r: String)
    ensures
        r@ == mount_line(mount_model(*m)),
{
    let mut line = "    - ".to_string();
    line.append(or_string(&m.source, "N/A").as_str());
    line.append(" -> ");
    line.append(or_string(&m.destination, "N/A").as_str());
    line.append(" (");
    match m.rw {
        Some(true) => line.append("rw"),
        Some(false) => line.append("ro"),
        None => line.append("?"),
    }
    line.append(", ");
    line.append(or_string(&m.kind, "?").as_str());
    line.append(")");
    line
}

/// The report lines of the mounts, in report order.
fn mount_report(mounts: &Vec<MountInfo>) -> (r: Vec<String>)
    ensures
        texts(r@) == stable_sort(
            mounts@.map_values(|m: MountInfo| mount_model(m)),
            |a: MountModel, b: MountModel| mount_le(a, b),
        ).map_values(|m: MountModel| mount_line(m)),
{
    let ghost m = mounts@.map_values(|m: MountInfo| mount_model(m));
    let order = mount_order(mounts);
    let ghost s = at_indices(m, order@);
    let mut lines: Vec<String> = Vec::new();
    let mut t: usize = 0;
    assert(s.take(0).map_values(|m: MountModel| mount_line(m)) =~= Seq::<Seq<char>>::empty());
    while t < order.len()
        invariant
            t <= order.len(),
            m == mounts@.map_values(|m: MountInfo| mount_model(m)),
            s == at_indices(m, order@),
            forall|k: int| 0 <= k < order.len() ==> order@[k] < mounts.len(),
            texts(lines@) == s.take(t as int).map_values(|m: MountModel| mount_line(m)),
        decreases order.len() - t,
    {
        let line = mount_report_line(&mounts[order[t]]);
        assert(s[t as int] == mount_model(mounts@[order@[t as int] as int]));
        let ghost old_lines = texts(lines@);
        lines.push(line);
        assert(s.take(t + 1).map_values(|m: MountModel| mount_line(m)) =~= s.take(t as int).map_values(
            |m: MountModel| mount_line(m),
        ).push(mount_line(s[t as int])));
        assert(texts(lines@) =~= old_lines.push(line@));
        t = t + 1;
    }
    assert(s.take(order.len() as int) == s);
    lines
}

/// The status report of container `name` with details `d`, given how its start and finish
/// times format.
pub open spec fn details_lines(
    name: Seq<char>,
    d: ContainerDetails,
    started: Option<Seq<char>>,
    finished: Option<Seq<char>>,
) -> Seq<Seq<char>> {
    details_report(
        name,
        str_opt_of(d.id),
        str_opt_of(d.image),
        str_opt_of(d.status),
        d.running,
        match d.started_at {
            Some(s) => Some((s@, started)),
            None => None,
        },
        match d.finished_at {
            Some(s) => Some((s@, finished)),
            None => None,
        },
        d.exit_code,
        str_opt_of(d.ip_address),
        str_opt_of(d.first_network_ip),
        match d.ports {
            Some(ps) => Some(
                ps@.map_values(|p: (String, Option<Vec<HostBinding>>)| port_model(p)),
            ),
            None => None,
        },
        match d.mounts {
            Some(ms) => Some(ms@.map_values(|m: MountInfo| mount_model(m))),
            None => None,
        },
    )
}

/// The opening lines of the report.
fn head_lines(name: &str, d: &ContainerDetails) -> (r: Vec<String>)
    ensures
        texts(r@) == head_section(
            name@,
            str_opt_of(d.id),
            str_opt_of(d.image),
            str_opt_of(d.status),
            d.running,
        ),
{
    let mut lines: Vec<String> = Vec::new();
    push_text(&mut lines, String::new());
    let mut header = "--- Core Environment Status: ".to_string();
    header.append(name);
    header.append(" ---");
    push_text(&mut lines, header);
    push_text(&mut lines, joined("  ID:          ", or_string(&d.id, "N/A").as_str()));
    push_text(&mut lines, joined("  Image:       ", or_string(&d.image, "N/A").as_str()));
    push_text(&mut lines, joined("  Status:      ", or_string(&d.status, "Unknown").as_str()));
    let running = match d.running {
        Some(true) => "Yes",
        Some(false) => "No",
        None => "Unknown",
    };
    push_text(&mut lines, joined("  Running:     ", running));
    assert(texts(lines@) =~= head_section(
        name@,
        str_opt_of(d.id),
        str_opt_of(d.image),
        str_opt_of(d.status),
        d.running,
    ));
    lines
}

/// The line of a time: formatted, or raw with a note.
fn time_text(label: &str, raw: &String, formatted: &Option<String>) -> (r: String)
    ensures
        r@ == time_line(label@, raw@, str_opt_of(*formatted)),
{
    match formatted {
        Some(f) => joined(label, f.as_str()),
        None => {
            let mut l = joined(label, raw.as_str());
            l.append(" (Could not parse)");
            l
        },
    }
}

/// The lines of the start time, the finish time and the exit code.
fn state_lines(d: &ContainerDetails, started: &Option<String>, finished: &Option<String>) -> (r:
    Vec<String>)
    ensures
        texts(r@) == started_section(
            match d.started_at {
                Some(s) => Some((s@, str_opt_of(*started))),
                None => None,
            },
        ) + finished_section(
            match d.finished_at {
                Some(s) => Some((s@, str_opt_of(*finished))),
                None => None,
            },
        ) + exit_section(d.exit_code),
{
    let mut lines: Vec<String> = Vec::new();
    match &d.started_at {
        Some(raw) => push_text(&mut lines, time_text("  Started At:  ", raw, started)),
        None => {},
    }
    match &d.finished_at {
        Some(raw) => {
            if !has_prefix(&chars_of(raw.as_str()), "0001-01-01") {
                push_text(&mut lines, time_text("  Finished At: ", raw, finished));
            }
        },
        None => {},
    }
    match d.exit_code {
        Some(c) => push_text(&mut lines, joined("  Exit Code:   ", signed_decimal_string(c).as_str())),
        None => {},
    }
    assert(texts(lines@) =~= started_section(
        match d.started_at {
            Some(s) => Some((s@, str_opt_of(*started))),
            None => None,
        },
    ) + finished_section(
        match d.finished_at {
            Some(s) => Some((s@, str_opt_of(*finished))),
            None => None,
        },
    ) + exit_section(d.exit_code));
    lines
}

/// The network lines.
fn network_lines(d: &ContainerDetails) -> (r: Vec<String>)
    ensures
        texts(r@) == network_section(str_opt_of(d.ip_address), str_opt_of(d.first_network_ip)),
{
    let mut lines: Vec<String> = Vec::new();
    push_text(&mut lines, "  Network:".to_string());
    let ip_line = match &d.ip_address {
        Some(a) if a.as_str().unicode_len() > 0 => joined("    IP Address:  ", a.as_str()),
        _ => match &d.first_network_ip {
            Some(a) if a.as_str().unicode_len() > 0 => {
                let mut l = joined("    IP Address:  ", a.as_str());
                l.append(" (from bridge network)");
                l
            },
            _ => "    IP Address:  N/A (Container might be stopped or network not ready)".to_string(),
        },
    };
    push_text(&mut lines, ip_line);
    assert(texts(lines@) =~= network_section(str_opt_of(d.ip_address), str_opt_of(d.first_network_ip)));
    lines
}

/// The port lines.
fn ports_lines_of(d: &ContainerDetails) -> (r: Vec<String>)
    ensures
        texts(r@) == ports_section(
            match d.ports {
                Some(ps) => Some(
                    ps@.map_values(|p: (String, Option<Vec<HostBinding>>)| port_model(p)),
                ),
                None => None,
            },
        ),
{
    let mut lines: Vec<String> = Vec::new();
    match &d.ports {
        Some(ps) => {
            if ps.len() == 0 {
                push_text(&mut lines, "    Ports:       <none exposed/mapped>".to_string());
            } else {
                push_text(&mut lines, "    Ports:".to_string());
                push_texts(&mut lines, port_report(ps));
            }
        },
        None => push_text(&mut lines, "    Ports:       <none exposed/mapped>".to_string()),
    }
    lines
}

/// The mount lines.
fn mounts_lines_of(d: &ContainerDetails) -> (r: Vec<String>)
    ensures
        texts(r@) == mounts_section(
            match d.mounts {
                Some(ms) => Some(ms@.map_values(|m: MountInfo| mount_model(m))),
                None => None,
            },
        ),
{
    let mut lines: Vec<String> = Vec::new();
    match &d.mounts {
        Some(ms) => {
            if ms.len() == 0 {
                push_text(&mut lines, "  Mounts:      <none>".to_string());
            } else {
                push_text(&mut lines, "  Mounts:".to_string());
                push_texts(&mut lines, mount_report(ms));
            }
        },
        None => push_text(&mut lines, "  Mounts:      <none>".to_string()),
    }
    lines
}

/// The status report of the core environment container `name`, given how its start and
/// finish times format (`None` for a time that does not parse).
pub fn container_details_lines(
    name: &str,
    d: &ContainerDetails,
    started: &Option<String>,
    finished: &Option<String>,
) -> (r: Vec<String>)
    ensures
        texts(r@) == details_lines(name@, *d, str_opt_of(*started), str_opt_of(*finished)),
{
    let mut lines = head_lines(name, d);
    push_texts(&mut lines, state_lines(d, started, finished));
    push_texts(&mut lines, network_lines(d));
    push_texts(&mut lines, ports_lines_of(d));
    push_texts(&mut lines, mounts_lines_of(d));
    push_text(&mut lines, "-----------------------------------".to_string());
    assert(texts(lines@) =~= details_lines(name@, *d, str_opt_of(*started), str_opt_of(*finished)));
    lines
}

/// Whether `chrono::DateTime::parse_from_rfc3339` accepts a text.
pub uninterp spec fn parses_as_rfc3339(s: Seq<char>) -> bool;

/// A UTC offset as `chrono` writes a fixed offset: a sign, then hours and minutes of two
/// digits each, and seconds only when there are any (`+02:00`, `-05:30:15`).
pub open spec fn offset_text(o: Seq<char>) -> bool {
    &&& (o.len() == 6 || o.len() == 9)
    &&& (o[0] == '+' || o[0] == '-')
    &&& two_digits(o.subrange(1, 3))
    &&& o[3] == ':'
    &&& two_digits(o.subrange(4, 6))
    &&& (o.len() == 9 ==> o[6] == ':' && two_digits(o.subrange(7, 9)))
}

/// A time as `%Y-%m-%d %H:%M:%S %Z` writes it in a local zone, its year taking the
/// first `n` characters: `YYYY-MM-DD HH:MM:SS` and the zone's offset.
pub open spec fn local_time_layout(t: Seq<char>, n: int) -> bool {
    &&& 4 <= n
    &&& t.len() >= n + 22
    &&& t[n] == '-'
    &&& two_digits(t.subrange(n + 1, n + 3))
    &&& t[n + 3] == '-'
    &&& two_digits(t.subrange(n + 4, n + 6))
    &&& t[n + 6] == ' '
    &&& two_digits(t.subrange(n + 7, n + 9))
    &&& t[n + 9] == ':'
    &&& two_digits(t.subrange(n + 10, n + 12))
    &&& t[n + 12] == ':'
    &&& two_digits(t.subrange(n + 13, n + 15))
    &&& t[n + 15] == ' '
    &&& offset_text(t.skip(n + 16))
}

/// Whether a text has the layout of a local time as the status report shows it; the
/// year takes at least four characters.
pub open spec fn local_time_shape(t: Seq<char>) -> bool {
    exists|n: int| #[trigger] local_time_layout(t, n)
}

/// A time given in RFC 3339, shown in the machine's time zone as `%Y-%m-%d %H:%M:%S %Z`
/// (`chrono::DateTime::parse_from_rfc3339`, then `with_timezone(&Local)` and `format`), or
/// `None` when it does not parse. `chrono` writes the year in at least four characters,
/// the other fields in two digits each, and `%Z` of a local time as its fixed offset.
/// Which time comes out depends on the machine's time zone and is not stated.
#[verifier::external_body]
fn local_time(s: &str) -> (r: Option<String>)
    ensures
        r is Some <==> parses_as_rfc3339(s@),
        r matches Some(t) ==> local_time_shape(t@),
{
    chrono::DateTime::parse_from_rfc3339(s).ok().map(|dt| {
        dt.with_timezone(&chrono::Local).format("%Y-%m-%d %H:%M:%S %Z").to_string()
    })
}

/// The status report of the core environment container `name`: its identity and state,
/// its start and finish times in local time, its exit code, address, ports (by port
/// number) and mounts (by destination).
pub fn print_container_details(name: &str, d: &ContainerDetails) -> (r: Vec<String>)
    ensures
        exists|started: Option<Seq<char>>, finished: Option<Seq<char>>|
            {
                &&& (d.started_at is Some ==> (started is Some <==> parses_as_rfc3339(
                    d.started_at->0@,
                )))
                &&& (d.finished_at is Some && !starts_with(d.finished_at->0@, "0001-01-01"@) ==> (
                finished is Some <==> parses_as_rfc3339(d.finished_at->0@)))
                &&& (started matches Some(t) ==> local_time_shape(t))
                &&& (finished matches Some(t) ==> local_time_shape(t))
                &&& texts(r@) == details_lines(name@, *d, started, finished)
            },
{
    let started = match &d.started_at {
        Some(s) => local_time(s.as_str()),
        None => None,
    };
    let finished = match &d.finished_at {
        Some(s) => {
            if has_prefix(&chars_of(s.as_str()), "0001-01-01") {
                None
            } else {
                local_time(s.as_str())
            }
        },
        None => None,
    };
    container_details_lines(name, d, &started, &finished)
}

/// The line announcing the status check.
pub fn checking_line(container: &str) -> (r: String)
    ensures
        r@ == "Checking status for core environment container '"@ + container@ + "'..."@,
{
    let mut l = "Checking status for core environment container '".to_string();
    l.append(container);
    l.append("'...");
    l
}

/// The lines shown when the container does not exist.
pub fn not_found_lines(container: &str) -> (r: Vec<String>)
    ensures
        texts(r@) == seq![
            Seq::<char>::empty(),
            "Status: Container '"@ + container@ + "' not found."@,
            "Run 'devrs env shell' to create and start it, or 'devrs env build' if the image is missing."@,
        ],
{
    let mut lines: Vec<String> = Vec::new();
    push_text(&mut lines, String::new());
    let mut l = "Status: Container '".to_string();
    l.append(container);
    l.append("' not found.");
    push_text(&mut lines, l);
    push_text(
        &mut lines,
        "Run 'devrs env shell' to create and start it, or 'devrs env build' if the image is missing.".to_string(),
    );
    assert(texts(lines@) =~= seq![
        Seq::<char>::empty(),
        "Status: Container '"@ + container@ + "' not found."@,
        "Run 'devrs env shell' to create and start it, or 'devrs env build' if the image is missing."@,
    ]);
    lines
}

/// The characters of `c` from `i` on.
pub fn chars_from(c: &Vec<char>, i: usize) -> (r: Vec<char>)
    requires
        i <= c.len(),
    ensures
        r@ == c@.skip(i as int),
{
    let mut r: Vec<char> = Vec::new();
    let mut k = i;
    while k < c.len()
        invariant
            i <= k <= c.len(),
            r@ == c@.subrange(i as int, k as int),
        decreases c.len() - k,
    {
        r.push(c[k]);
        assert(c@.subrange(i as int, k + 1) == c@.subrange(i as int, k as int).push(c@[k as int]));
        k = k + 1;
    }
    assert(c@.subrange(i as int, c.len() as int) == c@.skip(i as int));
    r
}

/// The status report lists ports by port number and mounts by destination (absent ones
/// first), each keeping every entry of the engine's list.
pub proof fn lemma_report_orders(ports: Seq<PortModel>, mounts: Seq<MountModel>)
    ensures
        ({
            let ps = stable_sort(ports, |a: PortModel, b: PortModel| port_le(a, b));
            &&& forall|i: int, j: int|
                0 <= i < j < ps.len() ==> port_key((#[trigger] ps[i]).0) <= port_key(
                    (#[trigger] ps[j]).0,
                )
            &&& ps.to_multiset() == ports.to_multiset()
        }),
        ({
            let ms = stable_sort(mounts, |a: MountModel, b: MountModel| mount_le(a, b));
            &&& forall|i: int, j: int|
                0 <= i < j < ms.len() ==> opt_text_le((#[trigger] ms[i]).0, (#[trigger] ms[j]).0)
            &&& ms.to_multiset() == mounts.to_multiset()
        }),
{
    let ple = |a: PortModel, b: PortModel| port_le(a, b);
    assert forall|a: PortModel, b: PortModel| #[trigger] ple(a, b) || ple(b, a) by {}
    assert forall|a: PortModel, b: PortModel, c: PortModel|
        #[trigger] ple(a, b) && #[trigger] ple(b, c) implies ple(a, c) by {}
    lemma_stable_sort_sorted(ports, ple);
    let ps = stable_sort(ports, ple);
    assert forall|i: int, j: int| 0 <= i < j < ps.len() implies port_key((#[trigger] ps[i]).0)
        <= port_key((#[trigger] ps[j]).0) by {
        assert(ple(ps[i], ps[j]));
    }
    let mle = |a: MountModel, b: MountModel| mount_le(a, b);
    assert forall|a: MountModel, b: MountModel| #[trigger] mle(a, b) || mle(b, a) by {
        if a.0 is Some && b.0 is Some {
            lemma_seq_lt_total(a.0->0, b.0->0);
        }
    }
    assert forall|a: MountModel, b: MountModel, c: MountModel|
        #[trigger] mle(a, b) && #[trigger] mle(b, c) implies mle(a, c) by {
        if a.0 is Some && b.0 is Some && c.0 is Some {
            let (x, y, z) = (a.0->0, b.0->0, c.0->0);
            if seq_lt(z, x) {
                lemma_seq_lt_total(x, y);
                lemma_seq_lt_total(y, z);
                if x != y && y != z {
                    lemma_seq_lt_transitive(z, x, y);
                }
            }
        }
    }
    lemma_stable_sort_sorted(mounts, mle);
    let ms = stable_sort(mounts, mle);
    assert forall|i: int, j: int| 0 <= i < j < ms.len() implies opt_text_le(
        (#[trigger] ms[i]).0,
        (#[trigger] ms[j]).0,
    ) by {
        assert(mle(ms[i], ms[j]));
    }
}

} // verus!
