//! `devrs container status`: the application containers and their state.

use crate::cli::{
    arg_model, arg_models, arg_ok, args_error_message, argv_texts, clap_outcome, clap_parse,
    command_ok, flag_of, leaf_command, leaf_command_spec, read_flag, str_opt_of, value_fits,
    values_fit, values_models, ArgKind, ArgModel, ArgSpec, ArgValues, ArgsError, CommandModel,
    ValuesModel,
};
use crate::text::{chars_of, has_prefix, starts_with, texts};
use crate::commands::blueprint::readme::views;
use crate::text::{try_prefix_bytes, push_text, push_texts, decimal, decimal_string, has_byte_prefix, byte_prefix, join, join_parts, prefix_bytes, signed_decimal, signed_decimal_string};
use vstd::prelude::*;

verus! {

/// The line describing the command in its help.
pub const ABOUT: &'static str = "Show status of application containers (excludes the core dev environment)";

/// Arguments of `devrs container status`.
#[derive(Debug)]
pub struct StatusArgs {
    /// Whether to list stopped containers too.
    pub all: bool,
}

impl StatusArgs {
    /// The arguments, in order.
    pub open spec fn spec_args() -> Seq<ArgModel> {
        seq![
            arg_model("all"@, ArgKind::Flag).with_long("all"@).with_short('a')
                .with_help("Optional: If set, displays all application containers, including those that are stopped. By default (if this flag is omitted), only currently running containers are shown"@),
        ]
    }

    /// The command.
    pub open spec fn spec_command() -> CommandModel {
        leaf_command("status"@, Some(ABOUT@), Self::spec_args())
    }

    /// The arguments, in order.
    pub fn args() -> (r: Vec<ArgSpec>)
        ensures
            arg_models(r@) == Self::spec_args(),
    {
        let r = vec![
            ArgSpec::new("all", ArgKind::Flag).long("all").short('a')
                .help("Optional: If set, displays all application containers, including those that are stopped. By default (if this flag is omitted), only currently running containers are shown"),
        ];
        assert(arg_models(r@) =~= Self::spec_args());
        r
    }

    /// `clap` accepts the command.
    #[verifier::spinoff_prover]
    pub proof fn lemma_command_ok()
        ensures
            command_ok(Self::spec_command()),
    {
        reveal_strlit("all");
        reveal_strlit("help");
        reveal_strlit("version");
        let a = Self::spec_args();
        assert forall|i: int| 0 <= i < a.len() implies arg_ok(#[trigger] a[i]) by {
            assert(i == 0);
        }
    }

    /// Whether the fields are the parsed values.
    pub open spec fn read_from(self, vals: Seq<ValuesModel>) -> bool {
        &&& self.all == flag_of(vals[0])
    }

    /// The fields from parsed values.
    pub fn from_values(vals: &Vec<ArgValues>) -> (r: StatusArgs)
        requires
            values_fit(Self::spec_args(), values_models(vals@)),
        ensures
            r.read_from(values_models(vals@)),
    {
        let ghost v = values_models(vals@);
        assert(value_fits(Self::spec_args()[0], v[0]));
        StatusArgs { all: read_flag(&vals[0]) }
    }

    /// Parses a command line (the command's name first) as `clap` would for these
    /// arguments.
    pub fn try_parse_from(argv: &[&str]) -> (r: Result<StatusArgs, ArgsError>)
        ensures
            match clap_outcome(Self::spec_command(), argv_texts(argv@)) {
                Ok(p) => r matches Ok(a) && a.read_from(p.values),
                Err((m, answered)) => r matches Err(e) && args_error_message(e) == m && (e is Answered
                    <==> answered),
            },
    {
        let spec = leaf_command_spec("status", ABOUT, Self::args());
        proof {
            Self::lemma_command_ok();
        }
        match clap_parse(&spec, argv) {
            Ok(p) => Ok(Self::from_values(&p.values)),
            Err((m, answered)) => Err(
                if answered {
                    ArgsError::Answered(m)
                } else {
                    ArgsError::Rejected(m)
                },
            ),
        }
    }
}

/// The protocol of a container port.
#[derive(Clone, Copy, PartialEq, Eq, Structural)]
pub enum PortProtocol {
    Tcp,
    Udp,
    Sctp,
    /// Unknown or not given.
    Unspecified,
}

/// A container port as `docker ps` lists it.
pub struct PortInfo {
    pub ip: Option<String>,
    pub public_port: Option<u16>,
    pub private_port: u16,
    pub protocol: PortProtocol,
}

/// A container as `docker ps` lists it, as far as the commands read it.
pub struct ContainerSummary {
    pub id: Option<String>,
    /// The names, each with Docker's leading `/`.
    pub names: Option<Vec<String>>,
    pub image: Option<String>,
    pub command: Option<String>,
    /// When it was created, in seconds since the epoch.
    pub created: Option<i64>,
    /// A human description of the state (`Up 2 hours`).
    pub status: Option<String>,
    /// The state's keyword (`running`, `exited`).
    pub state: Option<String>,
    pub ports: Option<Vec<PortInfo>>,
}

/// A name without its leading slashes.
pub open spec fn strip_slashes(n: Seq<char>) -> Seq<char>
    decreases n.len(),
{
    if n.len() > 0 && n[0] == '/' {
        strip_slashes(n.drop_first())
    } else {
        n
    }
}

/// Whether one of a container's names, without leading slashes, starts with `prefix`.
pub open spec fn named_with_prefix(names: Option<Seq<Seq<char>>>, prefix: Seq<char>) -> bool {
    names is Some && any_name_with_prefix(names->0, prefix)
}

/// Whether one of the names, without leading slashes, starts with `prefix`.
pub open spec fn any_name_with_prefix(ns: Seq<Seq<char>>, prefix: Seq<char>) -> bool {
    exists|i: int| 0 <= i < ns.len() && starts_with(strip_slashes(#[trigger] ns[i]), prefix)
}

/// The names of a summary.
pub open spec fn names_of(c: ContainerSummary) -> Option<Seq<Seq<char>>> {
    match c.names {
        Some(ns) => Some(texts(ns@)),
        None => None,
    }
}

/// A name without its leading slashes.
pub fn strip_leading_slashes(n: &str) -> (r: Vec<char>)
    ensures
        r@ == strip_slashes(n@),
{
    let c = chars_of(n);
    let mut i: usize = 0;
    assert(c@.skip(0) == c@);
    while i < c.len() && c[i] == '/'
        invariant
            i <= c.len(),
            c@ == n@,
            strip_slashes(n@) == strip_slashes(c@.skip(i as int)),
        decreases c.len() - i,
    {
        assert(c@.skip(i as int).drop_first() == c@.skip(i + 1));
        i = i + 1;
    }
    assert(c@.skip(0) == c@);
    let r = crate::commands::env::status::chars_from(&c, i);
    r
}

/// Whether one of the container's names, without leading slashes, starts with `prefix`.
pub fn has_name_prefix(c: &ContainerSummary, prefix: &str) -> (r: bool)
    ensures
        r == named_with_prefix(names_of(*c), prefix@),
{
    match &c.names {
        None => false,
        Some(ns) => {
            let mut i: usize = 0;
            while i < ns.len()
                invariant
                    i <= ns.len(),
                    names_of(*c) == Some(texts(ns@)),
                    forall|k: int| 0 <= k < i ==> !starts_with(strip_slashes(#[trigger] texts(ns@)[k]), prefix@),
                decreases ns.len() - i,
            {
                let n = strip_leading_slashes(ns[i].as_str());
                if has_prefix(&n, prefix) {
                    assert(texts(ns@)[i as int] == ns@[i as int]@);
                    assert(starts_with(strip_slashes(texts(ns@)[i as int]), prefix@));

                    return true;
                }
                i = i + 1;
            }
            false
        },
    }
}

/// The containers the status shows: those none of whose names starts with the core
/// environment's `IMAGE-`, in order.
pub open spec fn app_containers(cs: Seq<ContainerSummary>, image_name: Seq<char>) -> Seq<ContainerSummary> {
    cs.filter(|c: ContainerSummary| !named_with_prefix(names_of(c), image_name + "-"@))
}

/// The indices of the containers the status shows.
pub fn app_container_indices(cs: &Vec<ContainerSummary>, image_name: &str) -> (r: Vec<usize>)
    ensures
        forall|k: int| 0 <= k < r.len() ==> r@[k] < cs.len(),
        r@.map_values(|i: usize| cs@[i as int]) == app_containers(cs@, image_name@),
{
    let mut prefix = image_name.to_string();
    prefix.append("-");
    let ghost f = |c: ContainerSummary| !named_with_prefix(names_of(c), image_name@ + "-"@);
    let mut out: Vec<usize> = Vec::new();
    let mut i: usize = 0;
    assert(cs@.take(0).filter(f) =~= Seq::<ContainerSummary>::empty());
    while i < cs.len()
        invariant
            i <= cs.len(),
            prefix@ == image_name@ + "-"@,
            f == (|c: ContainerSummary| !named_with_prefix(names_of(c), image_name@ + "-"@)),
            forall|k: int| 0 <= k < out.len() ==> out@[k] < i,
            out@.map_values(|j: usize| cs@[j as int]) == cs@.take(i as int).filter(f),
        decreases cs.len() - i,
    {
        assert(cs@.take(i + 1).drop_last() == cs@.take(i as int));
        reveal(Seq::filter);
        if !has_name_prefix(&cs[i], prefix.as_str()) {
            let ghost before = out@;
            out.push(i);
            assert(out@.map_values(|j: usize| cs@[j as int]) =~= before.map_values(
                |j: usize| cs@[j as int],
            ).push(cs@[i as int]));
        }
        i = i + 1;
    }
    assert(cs@.take(cs.len() as int) == cs@);
    out
}

/// The suffix naming a port's protocol.
pub open spec fn protocol_suffix(p: PortProtocol) -> Seq<char> {
    match p {
        PortProtocol::Tcp => "/tcp"@,
        PortProtocol::Udp => "/udp"@,
        PortProtocol::Sctp => "/sctp"@,
        PortProtocol::Unspecified => ""@,
    }
}

/// The line of one port: `  - IP:PUBLIC/PROTO->PRIVATE/PROTO`.
pub open spec fn port_info_line(p: PortInfo) -> Seq<char> {
    "  - "@ + (match p.ip {
        Some(ip) => ip@,
        None => "0.0.0.0"@,
    }) + ":"@ + (match p.public_port {
        Some(pp) => decimal(pp as nat),
        None => "<none>"@,
    }) + protocol_suffix(p.protocol) + "->"@ + decimal(p.private_port as nat) + protocol_suffix(
        p.protocol,
    )
}

/// The names shown: without leading slashes, joined by `, `.
pub open spec fn names_text(names: Option<Seq<Seq<char>>>) -> Seq<char> {
    match names {
        Some(ns) => join(ns.map_values(|n: Seq<char>| strip_slashes(n)), ", "@),
        None => "N/A"@,
    }
}

/// A text, or `N/A` when absent.
pub open spec fn or_na(o: Option<String>) -> Seq<char> {
    match o {
        Some(s) => s@,
        None => "N/A"@,
    }
}

/// The short form of a container ID: its first 12 bytes, or the whole ID when it is
/// shorter (or when 12 bytes end inside a character); `missing` when there is no ID.
pub open spec fn short_id(id: Option<Seq<char>>, missing: Seq<char>) -> Seq<char> {
    let t = match id {
        Some(s) => s,
        None => missing,
    };
    if has_byte_prefix(t, 12) {
        byte_prefix(t, 12)
    } else {
        t
    }
}

/// The short form of a container ID.
pub fn short_id_text(id: &Option<String>, missing: &str) -> (r: String)
    ensures
        r@ == short_id(str_opt_of(*id), missing@),
{
    let t: &str = match id {
        Some(s) => s.as_str(),
        None => missing,
    };
    match try_prefix_bytes(t, 12) {
        Some(p) => p,
        None => t.to_string(),
    }
}

/// The lines describing one container: its short ID, image, command, creation time,
/// status, names and ports.
pub open spec fn summary_lines(c: ContainerSummary) -> Seq<Seq<char>> {
    seq![
        "ID:      "@ + short_id(str_opt_of(c.id), "N/A"@),
        "Image:   "@ + or_na(c.image),
        "Command: "@ + or_na(c.command),
        "Created: "@ + (match c.created {
            Some(t) => signed_decimal(t as int),
            None => "N/A"@,
        }) + " (timestamp)"@,
        "Status:  "@ + or_na(c.status),
        "Names:   "@ + names_text(names_of(c)),
    ] + match c.ports {
        Some(ps) => if ps.len() == 0 {
            seq!["Ports:   <none>"@]
        } else {
            seq!["Ports:"@] + ps@.map_values(|p: PortInfo| port_info_line(p))
        },
        None => seq!["Ports:   <none>"@],
    }
}

/// A text, or `N/A` when absent.
fn or_na_string(o: &Option<String>) -> (r: String)
    ensures
        r@ == or_na(*o),
{
    match o {
        Some(s) => s.clone(),
        None => "N/A".to_string(),
    }
}

/// The line of one port.
fn port_line(p: &PortInfo) -> (r: String)
    ensures
        r@ == port_info_line(*p),
{
    let suffix = match p.protocol {
        PortProtocol::Tcp => "/tcp",
        PortProtocol::Udp => "/udp",
        PortProtocol::Sctp => "/sctp",
        PortProtocol::Unspecified => "",
    };
    let mut l = "  - ".to_string();
    match &p.ip {
        Some(ip) => l.append(ip.as_str()),
        None => l.append("0.0.0.0"),
    }
    l.append(":");
    match p.public_port {
        Some(pp) => l.append(decimal_string(pp as u128).as_str()),
        None => l.append("<none>"),
    }
    l.append(suffix);
    l.append("->");
    l.append(decimal_string(p.private_port as u128).as_str());
    l.append(suffix);
    l
}

/// The names shown.
fn names_string(c: &ContainerSummary) -> (r: String)
    ensures
        r@ == names_text(names_of(*c)),
{
    match &c.names {
        None => "N/A".to_string(),
        Some(ns) => {
            let mut parts: Vec<Vec<char>> = Vec::new();
            let mut i: usize = 0;
            while i < ns.len()
                invariant
                    i <= ns.len(),
                    views(parts@) == texts(ns@).take(i as int).map_values(
                        |n: Seq<char>| strip_slashes(n),
                    ),
                decreases ns.len() - i,
            {
                parts.push(strip_leading_slashes(ns[i].as_str()));
                assert(texts(ns@).take(i + 1).map_values(|n: Seq<char>| strip_slashes(n))
                    =~= texts(ns@).take(i as int).map_values(|n: Seq<char>| strip_slashes(n)).push(
                    strip_slashes(ns@[i as int]@),
                ));
                i = i + 1;
            }
            assert(texts(ns@).take(ns@.len() as int) == texts(ns@));
            join_parts(&parts, ", ")
        },
    }
}

/// The lines describing one container.
pub fn print_container_summary(c: &ContainerSummary) -> (r: Vec<String>)
    ensures
        texts(r@) == summary_lines(*c),
{
    let id = short_id_text(&c.id, "N/A");
    let mut lines: Vec<String> = Vec::new();
    let mut a = "ID:      ".to_string();
    a.append(id.as_str());
    lines.push(a);
    let mut b = "Image:   ".to_string();
    b.append(or_na_string(&c.image).as_str());
    lines.push(b);
    let mut d = "Command: ".to_string();
    d.append(or_na_string(&c.command).as_str());
    lines.push(d);
    let mut e = "Created: ".to_string();
    match c.created {
        Some(t) => e.append(signed_decimal_string(t).as_str()),
        None => e.append("N/A"),
    }
    e.append(" (timestamp)");
    lines.push(e);
    let mut f = "Status:  ".to_string();
    f.append(or_na_string(&c.status).as_str());
    lines.push(f);
    let mut g = "Names:   ".to_string();
    g.append(names_string(c).as_str());
    lines.push(g);
    let ghost head = texts(lines@);
    match &c.ports {
        Some(ps) => {
            if ps.len() == 0 {
                lines.push("Ports:   <none>".to_string());
            } else {
                lines.push("Ports:".to_string());
                let ghost start = texts(lines@);
                let mut i: usize = 0;
                while i < ps.len()
                    invariant
                        i <= ps.len(),
                        texts(lines@) == start + ps@.take(i as int).map_values(
                            |p: PortInfo| port_info_line(p),
                        ),
                    decreases ps.len() - i,
                {
                    let ghost before = texts(lines@);
                    let l = port_line(&ps[i]);
                    lines.push(l);
                    assert(ps@.take(i + 1).map_values(|p: PortInfo| port_info_line(p))
                        =~= ps@.take(i as int).map_values(|p: PortInfo| port_info_line(p)).push(
                        port_info_line(ps@[i as int]),
                    ));
                    assert(texts(lines@) =~= before.push(l@));
                    i = i + 1;
                }
                assert(ps@.take(ps@.len() as int) == ps@);
            }
        },
        None => lines.push("Ports:   <none>".to_string()),
    }
    assert(texts(lines@) =~= summary_lines(*c));
    lines
}

/// The lines describing containers, each followed by a rule.
pub open spec fn summaries(cs: Seq<ContainerSummary>) -> Seq<Seq<char>>
    decreases cs.len(),
{
    if cs.len() == 0 {
        Seq::empty()
    } else {
        summaries(cs.drop_last()) + summary_lines(cs.last()) + seq!["--------------------"@]
    }
}

/// The status report over the containers to show.
pub open spec fn status_report(shown: Seq<ContainerSummary>, all: bool) -> Seq<Seq<char>> {
    if shown.len() == 0 {
        seq![
            "No application containers found"@ + (if all {
                ""@
            } else {
                " (running)"@
            }) + "."@,
        ] + if all {
            Seq::empty()
        } else {
            seq!["Try running with --all to include stopped containers."@]
        }
    } else {
        seq![Seq::empty(), "--- Application Containers ---"@] + summaries(shown) + seq![
            "Found "@ + decimal(shown.len()) + " application container(s)."@,
        ]
    }
}

/// The status report: the containers not belonging to the core environment (whose image
/// is `image_name`), each described, or a note when there are none.
pub fn status_report_lines(cs: &Vec<ContainerSummary>, image_name: &str, all: bool) -> (r: Vec<
    String,
>)
    ensures
        texts(r@) == status_report(app_containers(cs@, image_name@), all),
{
    let idx = app_container_indices(cs, image_name);
    let ghost shown = app_containers(cs@, image_name@);
    let mut lines: Vec<String> = Vec::new();
    if idx.len() == 0 {
        let mut l = "No application containers found".to_string();
        if all {
            l.append("");
        } else {
            l.append(" (running)");
        }
        l.append(".");
        lines.push(l);
        if !all {
            lines.push("Try running with --all to include stopped containers.".to_string());
        }
        assert(texts(lines@) =~= status_report(shown, all));
        return lines;
    }
    push_text(&mut lines, String::new());
    push_text(&mut lines, "--- Application Containers ---".to_string());
    let ghost start = texts(lines@);
    let mut i: usize = 0;
    assert(shown.take(0) =~= Seq::<ContainerSummary>::empty());
    while i < idx.len()
        invariant
            i <= idx.len(),
            shown == app_containers(cs@, image_name@),
            forall|k: int| 0 <= k < idx.len() ==> idx@[k] < cs.len(),
            idx@.map_values(|j: usize| cs@[j as int]) == shown,
            texts(lines@) == start + summaries(shown.take(i as int)),
        decreases idx.len() - i,
    {
        let c = &cs[idx[i]];
        assert(shown[i as int] == cs@[idx@[i as int] as int]);
        let more = print_container_summary(c);
        push_texts(&mut lines, more);
        push_text(&mut lines, "--------------------".to_string());
        assert(shown.take(i + 1).drop_last() == shown.take(i as int));
        assert(shown.take(i + 1).last() == shown[i as int]);
        assert(texts(lines@) =~= start + summaries(shown.take(i + 1)));
        i = i + 1;
    }
    assert(shown.take(idx.len() as int) == shown);
    let mut f = "Found ".to_string();
    f.append(decimal_string(idx.len() as u128).as_str());
    f.append(" application container(s).");
    push_text(&mut lines, f);
    assert(idx@.len() == shown.len());
    assert(texts(lines@) =~= status_report(shown, all));
    lines
}

/// Whether a container carries the core environment's name: one of its names, with its
/// leading `/` characters removed, starts with the image name and a hyphen.
pub open spec fn core_env_named(c: ContainerSummary, image_name: Seq<char>) -> bool {
    &&& c.names is Some
    &&& exists|j: int|
        0 <= j < c.names->0@.len() && starts_with(
            strip_slashes(#[trigger] c.names->0@[j]@),
            image_name + "-"@,
        )
}

/// The status shows exactly the containers that do not carry the core environment's name,
/// each in the order listed: every container shown is in the list and not core-named, and
/// every listed container that is not core-named is shown.
pub proof fn lemma_app_containers_exact(cs: Seq<ContainerSummary>, image_name: Seq<char>)
    ensures
        app_containers(cs, image_name).len() <= cs.len(),
        forall|k: int|
            0 <= k < app_containers(cs, image_name).len() ==> cs.contains(
                #[trigger] app_containers(cs, image_name)[k],
            ) && !core_env_named(app_containers(cs, image_name)[k], image_name),
        forall|i: int|
            0 <= i < cs.len() && !core_env_named(#[trigger] cs[i], image_name) ==> app_containers(
                cs,
                image_name,
            ).contains(cs[i]),
        forall|i: int|
            0 <= i < cs.len() && core_env_named(#[trigger] cs[i], image_name) ==> !app_containers(
                cs,
                image_name,
            ).contains(cs[i]),
{
    let f = |c: ContainerSummary| !named_with_prefix(names_of(c), image_name + "-"@);
    assert forall|c: ContainerSummary| #[trigger] f(c) == !core_env_named(c, image_name) by {
        if c.names is Some {
            let ns = texts(c.names->0@);
            assert(ns.len() == c.names->0@.len());
            if any_name_with_prefix(ns, image_name + "-"@) {
                let j = choose|j: int| 0 <= j < ns.len() && starts_with(
                    strip_slashes(#[trigger] ns[j]),
                    image_name + "-"@,
                );
                assert(ns[j] == c.names->0@[j]@);
            }
            if core_env_named(c, image_name) {
                let j = choose|j: int|
                    0 <= j < c.names->0@.len() && starts_with(
                        strip_slashes(#[trigger] c.names->0@[j]@),
                        image_name + "-"@,
                    );
                assert(ns[j] == c.names->0@[j]@);
            }
        }
    }
    cs.lemma_filter_len(f);
    assert forall|k: int| 0 <= k < app_containers(cs, image_name).len() implies cs.contains(
        #[trigger] app_containers(cs, image_name)[k],
    ) && !core_env_named(app_containers(cs, image_name)[k], image_name) by {
        cs.lemma_filter_pred(f, k);
        let x = app_containers(cs, image_name)[k];
        assert(app_containers(cs, image_name).contains(x));
        cs.lemma_filter_contains_rev(f, x);
        assert(f(x));
    }
    assert forall|i: int| 0 <= i < cs.len() && !core_env_named(#[trigger] cs[i], image_name) implies app_containers(
        cs,
        image_name,
    ).contains(cs[i]) by {
        cs.lemma_filter_contains(f, i);
    }
    assert forall|i: int| 0 <= i < cs.len() && core_env_named(#[trigger] cs[i], image_name) implies !app_containers(
        cs,
        image_name,
    ).contains(cs[i]) by {
        if app_containers(cs, image_name).contains(cs[i]) {
            let k = choose|k: int| 0 <= k < app_containers(cs, image_name).len() && app_containers(
                cs,
                image_name,
            )[k] == cs[i];
            cs.lemma_filter_pred(f, k);
            assert(f(app_containers(cs, image_name)[k]));
        }
    }
}

/// The status report: without containers to show, "No application containers found."
/// (with " (running)" and a hint about `--all` when stopped ones were not listed);
/// otherwise a blank line, the heading, each container's summary followed by a rule, in
/// order, and the count.
pub proof fn lemma_status_report_shape(shown: Seq<ContainerSummary>, all: bool, c: ContainerSummary)
    ensures
        shown.len() == 0 && all ==> status_report(shown, all) == seq![
            "No application containers found."@,
        ],
        shown.len() == 0 && !all ==> status_report(shown, all) == seq![
            "No application containers found (running)."@,
            "Try running with --all to include stopped containers."@,
        ],
        shown.len() > 0 ==> {
            let r = status_report(shown, all);
            &&& r.len() >= 3
            &&& r[0] == Seq::<char>::empty()
            &&& r[1] == "--- Application Containers ---"@
            &&& r.last() == "Found "@ + decimal(shown.len()) + " application container(s)."@
        },
        summaries(shown.push(c)) == summaries(shown) + summary_lines(c) + seq!["--------------------"@],
{
    reveal_strlit("");
    reveal_strlit(".");
    reveal_strlit(" (running)");
    reveal_strlit(" (running).");
    reveal_strlit("No application containers found");
    reveal_strlit("No application containers found.");
    reveal_strlit("No application containers found (running).");
    if shown.len() == 0 {
        assert("No application containers found"@ + ""@ + "."@ =~= "No application containers found."@);
        assert("No application containers found"@ + " (running)"@ + "."@
            =~= "No application containers found (running)."@);
        assert(status_report(shown, all) =~= if all {
            seq!["No application containers found."@]
        } else {
            seq![
                "No application containers found (running)."@,
                "Try running with --all to include stopped containers."@,
            ]
        });
    }
    assert(shown.push(c).drop_last() == shown);
}

} // verus!
