//! `devrs env prune`: removing stopped core environment containers.

use crate::cli::{
    arg_model, arg_models, arg_ok, args_error_message, argv_texts, clap_outcome, clap_parse,
    command_ok, flag_of, leaf_command, leaf_command_spec, read_flag, value_fits, values_fit,
    values_models, ArgKind, ArgModel, ArgSpec, ArgValues, ArgsError, CommandModel, ValuesModel,
};
use crate::cli::str_opt_of;
use crate::commands::blueprint::readme::views;
use crate::commands::container::status::{
    any_name_with_prefix, has_name_prefix, named_with_prefix, names_of, short_id, short_id_text, strip_slashes,
    ContainerSummary,
};
use crate::text::starts_with;
use crate::text::{byte_prefix, chars_of, join, join_parts, prefix_bytes, push_text, str_is, texts};
use vstd::prelude::*;

verus! {

/// The line describing the command in its help.
pub const ABOUT: &'static str = "Clean up unused core DevRS environment Docker resources";

/// Arguments of `devrs env prune`.
#[derive(Debug)]
pub struct PruneArgs {
    /// Whether to skip the confirmation.
    pub force: bool,
}

impl PruneArgs {
    /// The arguments, in order.
    pub open spec fn spec_args() -> Seq<ArgModel> {
        seq![
            arg_model("force"@, ArgKind::Flag).with_long("force"@).with_short('f')
                .with_help("Confirms the removal operation. Without this flag, the command performs a dry run, listing containers that would be removed but not actually removing them. **Note:** Since this command currently only targets *stopped* containers, this flag primarily acts as a confirmation rather than enabling removal of running containers"@),
        ]
    }

    /// The command.
    pub open spec fn spec_command() -> CommandModel {
        leaf_command("prune"@, Some(ABOUT@), Self::spec_args())
    }

    /// The arguments, in order.
    pub fn args() -> (r: Vec<ArgSpec>)
        ensures
            arg_models(r@) == Self::spec_args(),
    {
        let r = vec![
            ArgSpec::new("force", ArgKind::Flag).long("force").short('f')
                .help("Confirms the removal operation. Without this flag, the command performs a dry run, listing containers that would be removed but not actually removing them. **Note:** Since this command currently only targets *stopped* containers, this flag primarily acts as a confirmation rather than enabling removal of running containers"),
        ];
        assert(arg_models(r@) =~= Self::spec_args());
        r
    }

    /// `clap` accepts the command.
    #[verifier::spinoff_prover]
    pub proof fn lemma_command_ok()
        ensures
            command_ok(Self::spec_command()),
    {
        reveal_strlit("force");
        reveal_strlit("help");
        reveal_strlit("version");
        let a = Self::spec_args();
        assert forall|i: int| 0 <= i < a.len() implies arg_ok(#[trigger] a[i]) by {
            assert(i == 0);
        }
    }

    /// Whether the fields are the parsed values.
    pub open spec fn read_from(self, vals: Seq<ValuesModel>) -> bool {
        &&& self.force == flag_of(vals[0])
    }

    /// The fields from parsed values.
    pub fn from_values(vals: &Vec<ArgValues>) -> (r: PruneArgs)
        requires
            values_fit(Self::spec_args(), values_models(vals@)),
        ensures
            r.read_from(values_models(vals@)),
    {
        let ghost v = values_models(vals@);
        assert(value_fits(Self::spec_args()[0], v[0]));
        PruneArgs { force: read_flag(&vals[0]) }
    }

    /// Parses a command line (the command's name first) as `clap` would for these
    /// arguments.
    pub fn try_parse_from(argv: &[&str]) -> (r: Result<PruneArgs, ArgsError>)
        ensures
            match clap_outcome(Self::spec_command(), argv_texts(argv@)) {
                Ok(p) => r matches Ok(a) && a.read_from(p.values),
                Err((m, answered)) => r matches Err(e) && args_error_message(e) == m && (e is Answered
                    <==> answered),
            },
    {
        let spec = leaf_command_spec("prune", ABOUT, Self::args());
        proof {
            Self::lemma_command_ok();
        }
        match clap_parse(&spec, argv) {
            Ok(p) => Ok(Self::from_values(&p.values)),
            Err((m, answered)) => Err(
                if answered {
                    ArgsError::Answered(m)
                } else {
                    ArgsError::Rejected(m)
                },
            ),
        }
    }
}

/// Whether a container is stopped: its state is not `running`, `restarting` or `paused`.
pub open spec fn is_stopped(state: Option<Seq<char>>) -> bool {
    !(state == Some("running"@) || state == Some("restarting"@) || state == Some("paused"@))
}

/// Whether a container is a stopped core environment container: one of its names, without
/// leading slashes, starts with `prefix` (the core container's name), and it is stopped.
pub open spec fn prunable(c: ContainerSummary, prefix: Seq<char>) -> bool {
    named_with_prefix(names_of(c), prefix) && is_stopped(str_opt_of(c.state))
}

/// The containers to prune, in order.
pub open spec fn prune_candidates(cs: Seq<ContainerSummary>, prefix: Seq<char>) -> Seq<ContainerSummary> {
    cs.filter(|c: ContainerSummary| prunable(c, prefix))
}

/// Whether a state is stopped.
fn stopped(state: &Option<String>) -> (r: bool)
    ensures
        r == is_stopped(str_opt_of(*state)),
{
    match state {
        None => true,
        Some(s) => !(str_is(s.as_str(), "running") || str_is(s.as_str(), "restarting") || str_is(
            s.as_str(),
            "paused",
        )),
    }
}

/// The indices of the containers to prune: stopped ones named after the core container.
pub fn prune_candidate_indices(cs: &Vec<ContainerSummary>, prefix: &str) -> (r: Vec<usize>)
    ensures
        forall|k: int| 0 <= k < r.len() ==> r@[k] < cs.len(),
        r@.map_values(|i: usize| cs@[i as int]) == prune_candidates(cs@, prefix@),
{
    let ghost f = |c: ContainerSummary| prunable(c, prefix@);
    let mut out: Vec<usize> = Vec::new();
    let mut i: usize = 0;
    assert(cs@.take(0).filter(f) =~= Seq::<ContainerSummary>::empty());
    while i < cs.len()
        invariant
            i <= cs.len(),
            f == (|c: ContainerSummary| prunable(c, prefix@)),
            forall|k: int| 0 <= k < out.len() ==> out@[k] < i,
            out@.map_values(|j: usize| cs@[j as int]) == cs@.take(i as int).filter(f),
        decreases cs.len() - i,
    {
        assert(cs@.take(i + 1).drop_last() == cs@.take(i as int));
        reveal(Seq::filter);
        if has_name_prefix(&cs[i], prefix) && stopped(&cs[i].state) {
            let ghost before = out@;
            out.push(i);
            assert(out@.map_values(|j: usize| cs@[j as int]) =~= before.map_values(
                |j: usize| cs@[j as int],
            ).push(cs@[i as int]));
        }
        i = i + 1;
    }
    assert(cs@.take(cs.len() as int) == cs@);
    out
}

/// The line listing one container to prune: its short ID and its names as Docker gives
/// them.
pub open spec fn prune_line(c: ContainerSummary) -> Seq<char> {
    "  - "@ + short_id(str_opt_of(c.id), "unknown-id"@) + " ("@ + (match names_of(c) {
        Some(ns) => join(ns, ", "@),
        None => "N/A"@,
    }) + ")"@
}

/// The lines listing the containers to prune, or the note that there are none.
pub open spec fn prune_listing(cands: Seq<ContainerSummary>) -> Seq<Seq<char>> {
    if cands.len() == 0 {
        seq!["No stopped core DevRS environment containers found to prune."@]
    } else {
        seq!["The following stopped core environment containers will be removed:"@]
            + cands.map_values(|c: ContainerSummary| prune_line(c))
    }
}

/// The lines listing the containers to prune (see `prune_candidates`).
pub fn prune_listing_lines(cs: &Vec<ContainerSummary>, idx: &Vec<usize>) -> (r: Vec<String>)
    requires
        forall|k: int| 0 <= k < idx.len() ==> idx@[k] < cs.len(),
    ensures
        texts(r@) == prune_listing(idx@.map_values(|i: usize| cs@[i as int])),
{
    let ghost cands = idx@.map_values(|i: usize| cs@[i as int]);
    let mut lines: Vec<String> = Vec::new();
    if idx.len() == 0 {
        push_text(&mut lines, "No stopped core DevRS environment containers found to prune.".to_string());
        assert(texts(lines@) =~= prune_listing(cands));
        return lines;
    }
    push_text(
        &mut lines,
        "The following stopped core environment containers will be removed:".to_string(),
    );
    let ghost start = texts(lines@);
    let mut k: usize = 0;
    while k < idx.len()
        invariant
            k <= idx.len(),
            cands == idx@.map_values(|i: usize| cs@[i as int]),
            forall|t: int| 0 <= t < idx.len() ==> idx@[t] < cs.len(),
            texts(lines@) == start + cands.take(k as int).map_values(
                |c: ContainerSummary| prune_line(c),
            ),
        decreases idx.len() - k,
    {
        let c = &cs[idx[k]];
        let id = short_id_text(&c.id, "unknown-id");
        let names = match &c.names {
            Some(ns) => {
                let mut parts: Vec<Vec<char>> = Vec::new();
                let mut t: usize = 0;
                while t < ns.len()
                    invariant
                        t <= ns.len(),
                        views(parts@) == texts(ns@).take(t as int),
                    decreases ns.len() - t,
                {
                    parts.push(chars_of(ns[t].as_str()));
                    assert(texts(ns@).take(t + 1) == texts(ns@).take(t as int).push(ns@[t as int]@));
                    t = t + 1;
                }
                assert(texts(ns@).take(ns@.len() as int) == texts(ns@));
                join_parts(&parts, ", ")
            },
            None => "N/A".to_string(),
        };
        let mut l = "  - ".to_string();
        l.append(id.as_str());
        l.append(" (");
        l.append(names.as_str());
        l.append(")");
        let ghost before = texts(lines@);
        push_text(&mut lines, l);
        assert(cands[k as int] == cs@[idx@[k as int] as int]);
        assert(l@ == prune_line(cands[k as int]));
        assert(cands.take(k + 1).map_values(|c: ContainerSummary| prune_line(c)) =~= cands.take(
            k as int,
        ).map_values(|c: ContainerSummary| prune_line(c)).push(prune_line(cands[k as int])));
        k = k + 1;
    }
    assert(cands.take(idx.len() as int) == cands);
    assert(texts(lines@) =~= prune_listing(cands));
    lines
}

/// The IDs of the containers to prune, in order; a container without an ID is skipped.
pub open spec fn prune_ids(cands: Seq<ContainerSummary>) -> Seq<Seq<char>>
    decreases cands.len(),
{
    if cands.len() == 0 {
        Seq::empty()
    } else {
        prune_ids(cands.drop_last()) + match cands.last().id {
            Some(id) => seq![id@],
            None => Seq::empty(),
        }
    }
}

/// The IDs of the containers to prune (see `prune_candidates`), in order, skipping those
/// without an ID.
pub fn prune_target_ids(cs: &Vec<ContainerSummary>, idx: &Vec<usize>) -> (r: Vec<String>)
    requires
        forall|k: int| 0 <= k < idx.len() ==> idx@[k] < cs.len(),
    ensures
        texts(r@) == prune_ids(idx@.map_values(|i: usize| cs@[i as int])),
{
    let ghost cands = idx@.map_values(|i: usize| cs@[i as int]);
    let mut out: Vec<String> = Vec::new();
    let mut k: usize = 0;
    while k < idx.len()
        invariant
            k <= idx.len(),
            cands == idx@.map_values(|i: usize| cs@[i as int]),
            forall|t: int| 0 <= t < idx.len() ==> idx@[t] < cs.len(),
            texts(out@) == prune_ids(cands.take(k as int)),
        decreases idx.len() - k,
    {
        assert(cands.take(k + 1).drop_last() == cands.take(k as int));
        assert(cands.take(k + 1).last() == cs@[idx@[k as int] as int]);
        match &cs[idx[k]].id {
            Some(id) => {
                let ghost before = texts(out@);
                out.push(id.clone());
                assert(texts(out@) == before.push(id@));
                assert(texts(out@) =~= prune_ids(cands.take(k + 1)));
            },
            None => {
                assert(prune_ids(cands.take(k + 1)) =~= prune_ids(cands.take(k as int)));
            },
        }
        k = k + 1;
    }
    assert(cands.take(idx.len() as int) == cands);
    out
}

/// Whether a container is a stopped core environment container: one of its names, with
/// its leading `/` characters removed, starts with `prefix`, and its state is not
/// `running`, `restarting` or `paused` (a container without a state counts as stopped).
pub open spec fn stopped_with_prefix(c: ContainerSummary, prefix: Seq<char>) -> bool {
    &&& c.names is Some
    &&& exists|j: int|
        0 <= j < c.names->0@.len() && starts_with(strip_slashes(#[trigger] c.names->0@[j]@), prefix)
    &&& match c.state {
        Some(s) => s@ != "running"@ && s@ != "restarting"@ && s@ != "paused"@,
        None => true,
    }
}

/// Prune takes exactly the stopped containers whose name starts with the prefix, in the
/// order listed, and never a running one.
pub proof fn lemma_prune_candidates_exact(cs: Seq<ContainerSummary>, prefix: Seq<char>)
    ensures
        prune_candidates(cs, prefix).len() <= cs.len(),
        forall|k: int|
            0 <= k < prune_candidates(cs, prefix).len() ==> cs.contains(
                #[trigger] prune_candidates(cs, prefix)[k],
            ) && stopped_with_prefix(prune_candidates(cs, prefix)[k], prefix),
        forall|i: int|
            0 <= i < cs.len() ==> (prune_candidates(cs, prefix).contains(#[trigger] cs[i])
                <==> stopped_with_prefix(cs[i], prefix)),
{
    let f = |c: ContainerSummary| prunable(c, prefix);
    assert forall|c: ContainerSummary| #[trigger] f(c) == stopped_with_prefix(c, prefix) by {
        if c.names is Some {
            let ns = texts(c.names->0@);
            if any_name_with_prefix(ns, prefix) {
                let j = choose|j: int| 0 <= j < ns.len() && starts_with(strip_slashes(#[trigger] ns[j]), prefix);
                assert(ns[j] == c.names->0@[j]@);
            }
            if exists|j: int|
                0 <= j < c.names->0@.len() && starts_with(strip_slashes(#[trigger] c.names->0@[j]@), prefix) {
                let j = choose|j: int|
                    0 <= j < c.names->0@.len() && starts_with(strip_slashes(#[trigger] c.names->0@[j]@), prefix);
                assert(ns[j] == c.names->0@[j]@);
            }
        }
        match c.state {
            Some(s) => {
                assert(str_opt_of(c.state) == Some(s@));
            },
            None => {},
        }
    }
    cs.lemma_filter_len(f);
    assert forall|k: int| 0 <= k < prune_candidates(cs, prefix).len() implies cs.contains(
        #[trigger] prune_candidates(cs, prefix)[k],
    ) && stopped_with_prefix(prune_candidates(cs, prefix)[k], prefix) by {
        cs.lemma_filter_pred(f, k);
        let x = prune_candidates(cs, prefix)[k];
        assert(prune_candidates(cs, prefix).contains(x));
        cs.lemma_filter_contains_rev(f, x);
        assert(f(x));
    }
    assert forall|i: int| 0 <= i < cs.len() implies (prune_candidates(cs, prefix).contains(
        #[trigger] cs[i],
    ) <==> stopped_with_prefix(cs[i], prefix)) by {
        if stopped_with_prefix(cs[i], prefix) {
            cs.lemma_filter_contains(f, i);
        }
        if prune_candidates(cs, prefix).contains(cs[i]) {
            let k = choose|k: int| 0 <= k < prune_candidates(cs, prefix).len() && prune_candidates(cs, prefix)[k] == cs[i];
            cs.lemma_filter_pred(f, k);
            assert(f(prune_candidates(cs, prefix)[k]));
        }
    }
}

} // verus!
