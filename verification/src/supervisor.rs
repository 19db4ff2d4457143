use vstd::prelude::*;
use crate::job::{failed_message, job_outcome, outcome_view, plan_job, Draw, JobPlan};
use crate::sequences::{lemma_filter_map_concat, lemma_filter_map_push};

verus! {

/// How one launched unit ended: with a job's outcome, or by crashing before
/// it could hand one back. `Crashed` carries the description of the crash.
#[derive(Debug, PartialEq, Eq)]
pub enum Completion {
    Finished(Result<(), String>),
    Crashed(String),
}

/// A completion as contracts see it.
pub enum Ending {
    Finished(Result<(), Seq<char>>),
    Crashed(Seq<char>),
}

impl View for Completion {
    type V = Ending;

    open spec fn view(&self) -> Ending {
        match self {
            Completion::Finished(outcome) => Ending::Finished(outcome_view(*outcome)),
            Completion::Crashed(description) => Ending::Crashed(description@),
        }
    }
}

/// A batch of completions as contracts see it, in launch order.
pub open spec fn endings_of(batch: Seq<Completion>) -> Seq<Ending> {
    batch.map_values(|c: Completion| c@)
}

/// Task names as contracts see them.
pub open spec fn names_of(names: Seq<String>) -> Seq<Seq<char>> {
    names.map_values(|name: String| name@)
}

/// Outcomes as contracts see them.
pub open spec fn outcomes_of(outcomes: Seq<Result<(), String>>) -> Seq<Result<(), Seq<char>>> {
    outcomes.map_values(|outcome: Result<(), String>| outcome_view(outcome))
}

/// The outcomes of one run: one for each name, in the order of the names,
/// the `i`-th decided by the `i`-th draw.
pub open spec fn run_outcomes(names: Seq<Seq<char>>, draws: Seq<Draw>) -> Seq<
    Result<(), Seq<char>>,
>
    recommends
        names.len() == draws.len(),
{
    Seq::new(names.len(), |i: int| job_outcome(names[i], draws[i].fails()))
}

/// The outcome that a unit handed back, where it handed one back.
pub open spec fn outcome_in(ending: Ending) -> Option<Result<(), Seq<char>>> {
    match ending {
        Ending::Finished(outcome) => Some(outcome),
        Ending::Crashed(_) => None,
    }
}

/// The outcomes of the units that handed one back, in launch order.
pub open spec fn surviving(batch: Seq<Ending>) -> Seq<Result<(), Seq<char>>> {
    batch.filter_map(|ending: Ending| outcome_in(ending))
}

/// Runs one job for each name, the `i`-th under the `i`-th draw, and hands
/// back the jobs' outcomes in the order of the names. Nothing comes back
/// where the draws are not as many as the names.
pub fn run_with(names: &Vec<String>, draws: &Vec<Draw>) -> (outcomes: Option<
    Vec<Result<(), String>>,
>)
    ensures
        outcomes is Some <==> names.len() == draws.len(),
        outcomes matches Some(list) ==> {
            &&& list.len() == names.len()
            &&& outcomes_of(list@) == run_outcomes(names_of(names@), draws@)
        },
{
    if names.len() != draws.len() {
        return None;
    }
    let mut list: Vec<Result<(), String>> = Vec::new();
    let mut i: usize = 0;
    while i < names.len()
        invariant
            i <= names.len(),
            names.len() == draws.len(),
            list.len() == i,
            forall|k: int|
                0 <= k < i ==> outcome_view(#[trigger] list@[k]) == job_outcome(
                    names@[k]@,
                    draws@[k].fails(),
                ),
        decreases names.len() - i,
    {
        let plan: JobPlan = plan_job(names[i].as_str(), draws[i]);
        list.push(plan.outcome);
        i += 1;
    }
    assert(outcomes_of(list@) =~= run_outcomes(names_of(names@), draws@));
    Some(list)
}

/// Picks out of a batch the outcomes of the units that did not crash, in
/// launch order.
pub fn survivors(batch: &Vec<Completion>) -> (outcomes: Vec<Result<(), String>>)
    ensures
        outcomes_of(outcomes@) == surviving(endings_of(batch@)),
{
    let mut outcomes: Vec<Result<(), String>> = Vec::new();
    let mut i: usize = 0;
    while i < batch.len()
        invariant
            i <= batch.len(),
            outcomes_of(outcomes@) == surviving(endings_of(batch@).take(i as int)),
        decreases batch.len() - i,
    {
        let ghost before = outcomes@;
        let ghost all = endings_of(batch@);
        proof {
            lemma_surviving_push(all.take(i as int), batch@[i as int]@);
            assert(all.take(i + 1) =~= all.take(i as int).push(batch@[i as int]@));
        }
        match &batch[i] {
            Completion::Finished(Ok(_)) => {
                outcomes.push(Ok(()));
                assert(outcomes_of(outcomes@) =~= outcomes_of(before).push(Ok(())));
            },
            Completion::Finished(Err(message)) => {
                outcomes.push(Err(message.clone()));
                assert(outcomes_of(outcomes@) =~= outcomes_of(before).push(Err(message@)));
            },
            Completion::Crashed(_) => {},
        }
        i += 1;
    }
    assert(endings_of(batch@).take(batch.len() as int) =~= endings_of(batch@));
    outcomes
}

/// One more unit at the end of a batch adds its outcome where it handed one
/// back, and nothing where it crashed.
pub proof fn lemma_surviving_push(batch: Seq<Ending>, ending: Ending)
    ensures
        surviving(batch.push(ending)) == match ending {
            Ending::Finished(outcome) => surviving(batch).push(outcome),
            Ending::Crashed(_) => surviving(batch),
        },
{
    lemma_filter_map_push(batch, ending, |ending: Ending| outcome_in(ending));
}

/// A run hands back as many outcomes as it was given names, and the outcome
/// of each task is either success or the failure message made of that
/// task's own name: one outcome for each task, none missing, none twice.
pub proof fn law_one_outcome_per_task(names: Seq<Seq<char>>, draws: Seq<Draw>)
    requires
        names.len() == draws.len(),
    ensures
        run_outcomes(names, draws).len() == names.len(),
        forall|i: int|
            0 <= i < names.len() ==> {
                let outcome = #[trigger] run_outcomes(names, draws)[i];
                &&& outcome == job_outcome(names[i], draws[i].fails())
                &&& outcome == Ok::<(), Seq<char>>(()) || outcome == Err::<(), Seq<char>>(
                    failed_message(names[i]),
                )
                &&& outcome is Err <==> draws[i].fails()
            },
{
}

/// Gathering goes unit by unit: what survives of two batches laid end to
/// end is what survives of the first followed by what survives of the
/// second.
pub proof fn law_surviving_concat(first: Seq<Ending>, second: Seq<Ending>)
    ensures
        surviving(first + second) == surviving(first) + surviving(second),
{
    lemma_filter_map_concat(first, second, |ending: Ending| outcome_in(ending));
}

/// A crash is isolated: a unit that crashes anywhere in a batch takes
/// nothing away from, and adds nothing to, the outcomes of the others.
pub proof fn law_crash_isolation(before: Seq<Ending>, description: Seq<char>, after: Seq<Ending>)
    ensures
        surviving(before + seq![Ending::Crashed(description)] + after) == surviving(before)
            + surviving(after),
{
    let crashed = Ending::Crashed(description);
    assert(before + seq![crashed] =~= before.push(crashed));
    law_surviving_concat(before.push(crashed), after);
    lemma_surviving_push(before, crashed);
}

/// Where no unit crashed, every outcome survives: the batch that wraps the
/// outcomes of a run gives those outcomes back.
pub proof fn law_all_survive(outcomes: Seq<Result<(), Seq<char>>>)
    ensures
        surviving(outcomes.map_values(|outcome: Result<(), Seq<char>>| Ending::Finished(outcome)))
            == outcomes,
    decreases outcomes.len(),
{
    let wrap = |outcome: Result<(), Seq<char>>| Ending::Finished(outcome);
    if outcomes.len() == 0 {
        assert(outcomes.map_values(wrap) =~= Seq::empty());
        assert(outcomes =~= Seq::empty());
    } else {
        let front = outcomes.drop_last();
        law_all_survive(front);
        assert(outcomes.map_values(wrap) =~= front.map_values(wrap).push(wrap(outcomes.last())));
        lemma_surviving_push(front.map_values(wrap), wrap(outcomes.last()));
        assert(front.push(outcomes.last()) =~= outcomes);
    }
}

} // verus!
