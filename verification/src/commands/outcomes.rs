//! Reporting an operation applied to several containers or images at once (`rm`, `rmi`,
//! `stop`, `prune`): each item is worked on separately, and the command fails if any
//! item failed, naming every failure.

use crate::text::{contains, decimal, decimal_string, has_substring, chars_of};
use vstd::prelude::*;

verus! {

/// What became of one item.
pub enum ItemOutcome {
    /// It was done.
    Done,
    /// It needed no doing: the item was already absent, or already stopped.
    Settled,
    /// It failed, with this message.
    Failed(String),
    /// The task working on it ended abnormally, with this message; this is logged and does
    /// not fail the command.
    Crashed(String),
}

/// The value of an [`ItemOutcome`].
pub enum OutcomeModel {
    Done,
    Settled,
    Failed(Seq<char>),
    Crashed(Seq<char>),
}

impl View for ItemOutcome {
    type V = OutcomeModel;

    open spec fn view(&self) -> OutcomeModel {
        match self {
            ItemOutcome::Done => OutcomeModel::Done,
            ItemOutcome::Settled => OutcomeModel::Settled,
            ItemOutcome::Failed(m) => OutcomeModel::Failed(m@),
            ItemOutcome::Crashed(m) => OutcomeModel::Crashed(m@),
        }
    }
}

/// The values of a list of item outcomes.
pub open spec fn outcome_models(v: Seq<(String, ItemOutcome)>) -> Seq<(Seq<char>, OutcomeModel)> {
    v.map_values(|p: (String, ItemOutcome)| (p.0@, p.1@))
}

/// The failed items with their messages, in order.
pub open spec fn failures(results: Seq<(Seq<char>, OutcomeModel)>) -> Seq<(Seq<char>, Seq<char>)>
    decreases results.len(),
{
    if results.len() == 0 {
        Seq::empty()
    } else {
        let rest = failures(results.drop_last());
        match results.last().1 {
            OutcomeModel::Failed(m) => rest.push((results.last().0, m)),
            _ => rest,
        }
    }
}

/// The lines reporting the failures, for standard error: a blank line, a heading, then
/// `- NAME: MESSAGE` for each.
pub open spec fn failure_lines(activity: Seq<char>, f: Seq<(Seq<char>, Seq<char>)>) -> Seq<Seq<char>> {
    seq![Seq::empty(), "Errors occurred during "@ + activity + ":"@] + f.map_values(
        |p: (Seq<char>, Seq<char>)| failure_line(p),
    )
}

/// The report line of one failure.
pub open spec fn failure_line(p: (Seq<char>, Seq<char>)) -> Seq<char> {
    "- "@ + p.0 + ": "@ + p.1
}

/// The summary of the error the command fails with.
pub open spec fn failure_context(action: Seq<char>, noun: Seq<char>, count: nat) -> Seq<char> {
    "Failed to "@ + action + " "@ + decimal(count) + " "@ + noun + "(s)"@
}

/// Why a batch failed: the report for standard error, the summary of the error, and the
/// first failure's message as its cause.
pub struct BatchFailure {
    pub report: Vec<String>,
    pub context: String,
    pub cause: String,
}

/// The failure of a batch, if any item failed. `activity` names what was done in the
/// report's heading (`container removal`), `action` and `noun` the summary's verb and
/// item (`remove`, `container`).
pub fn batch_failure(
    activity: &str,
    action: &str,
    noun: &str,
    results: &Vec<(String, ItemOutcome)>,
) -> (r: Option<BatchFailure>)
    ensures
        ({
            let f = failures(outcome_models(results@));
            match r {
                None => f.len() == 0,
                Some(b) => f.len() > 0 && crate::text::texts(b.report@) == failure_lines(
                    activity@,
                    f,
                ) && b.context@ == failure_context(action@, noun@, f.len()) && b.cause@ == f[0].1,
            }
        }),
{
    let ghost all = outcome_models(results@);
    let mut report: Vec<String> = Vec::new();
    report.push(String::new());
    let mut heading = "Errors occurred during ".to_string();
    heading.append(activity);
    heading.append(":");
    report.push(heading);
    let mut count: usize = 0;
    let mut cause: Option<String> = None;
    let mut i: usize = 0;
    assert(all.take(0) =~= Seq::<(Seq<char>, OutcomeModel)>::empty());
    assert(failures(all.take(0)) =~= Seq::<(Seq<char>, Seq<char>)>::empty());
    assert(failures(all.take(0)).map_values(|p: (Seq<char>, Seq<char>)| failure_line(p))
        =~= Seq::<Seq<char>>::empty());
    assert(crate::text::texts(report@) =~= failure_lines(activity@, failures(all.take(0))));
    while i < results.len()
        invariant
            i <= results.len(),
            all == outcome_models(results@),
            count == failures(all.take(i as int)).len(),
            count <= i,
            crate::text::texts(report@) == failure_lines(activity@, failures(all.take(i as int))),
            match cause {
                None => count == 0,
                Some(c) => count > 0 && c@ == failures(all.take(i as int))[0].1,
            },
        decreases results.len() - i,
    {
        let ghost before = failures(all.take(i as int));
        assert(all.take(i + 1).drop_last() == all.take(i as int));
        assert(all.take(i + 1).last() == (results@[i as int].0@, results@[i as int].1@));
        match &results[i].1 {
            ItemOutcome::Failed(m) => {
                let mut line = "- ".to_string();
                line.append(results[i].0.as_str());
                line.append(": ");
                line.append(m.as_str());
                let ghost old_report = report@;
                report.push(line);
                let ghost after = failures(all.take(i + 1));
                assert(after == before.push((results@[i as int].0@, m@)));
                assert(after.map_values(|p: (Seq<char>, Seq<char>)| failure_line(p))
                    =~= before.map_values(|p: (Seq<char>, Seq<char>)| failure_line(p)).push(line@));
                assert(line@ == failure_line((results@[i as int].0@, m@)));
                assert(crate::text::texts(report@) =~= crate::text::texts(old_report).push(line@));
                assert(failure_lines(activity@, after) =~= failure_lines(activity@, before).push(
                    line@,
                ));
                if count == 0 {
                    cause = Some(m.clone());
                }
                count = count + 1;
            },
            _ => {},
        }
        i = i + 1;
    }
    assert(all.take(results.len() as int) == all);
    match cause {
        None => None,
        Some(c) => {
            let mut context = "Failed to ".to_string();
            context.append(action);
            context.append(" ");
            context.append(decimal_string(count as u128).as_str());
            context.append(" ");
            context.append(noun);
            context.append("(s)");
            Some(BatchFailure { report, context, cause: c })
        },
    }
}

/// How a failed removal counts: an item that was not found is already gone.
pub fn removal_failure(not_found: bool, message: String) -> (r: ItemOutcome)
    ensures
        r@ == (if not_found {
            OutcomeModel::Settled
        } else {
            OutcomeModel::Failed(message@)
        }),
{
    if not_found {
        ItemOutcome::Settled
    } else {
        ItemOutcome::Failed(message)
    }
}

/// How a failed stop counts: a container that was not found, or that Docker reports as
/// already stopped, is in the state asked for.
pub fn stop_failure(not_found: bool, operation_message: &Option<String>, message: String) -> (r:
    ItemOutcome)
    ensures
        r@ == (if not_found || (operation_message matches Some(m) && contains(
            m@,
            "already stopped"@,
        )) {
            OutcomeModel::Settled
        } else {
            OutcomeModel::Failed(message@)
        }),
{
    if not_found {
        return ItemOutcome::Settled;
    }
    match operation_message {
        Some(m) => {
            if has_substring(&chars_of(m.as_str()), "already stopped") {
                return ItemOutcome::Settled;
            }
        },
        None => {},
    }
    ItemOutcome::Failed(message)
}

/// The line printed for an item done: `VERB NOUN 'NAME'`, as in `Removed container 'web'`.
pub fn done_line(verb_noun: &str, name: &str) -> (r: String)
    ensures
        r@ == verb_noun@ + " '"@ + name@ + "'"@,
{
    let mut r = verb_noun.to_string();
    r.append(" '");
    r.append(name);
    r.append("'");
    r
}

} // verus!
