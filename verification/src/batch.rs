//! Whole batches: what holds of the history of a job in each state, and of a
//! worker that is fed one outcome after the other.

use crate::conversion_worker::{lemma_history_step, WorkerView};
use crate::events::{updates, BatchStateView, EventView, JobView, OutcomeView};
use crate::paths::{
    lemma_candidate_has_stem, lemma_output_path_parts, lemma_same_output_iff_same_stem,
    spec_extension, spec_file_name, spec_file_stem, spec_is_candidate, spec_join,
    target_extension,
};
use crate::scanner::{candidates_among, lemma_candidates_among, ScanEntryView};
use vstd::prelude::*;

verus! {

impl WorkerView {
    /// The worker after the outcomes were reported to it one by one.
    pub open spec fn run(self, outcomes: Seq<OutcomeView>) -> WorkerView
        decreases outcomes.len(),
    {
        if outcomes.len() == 0 {
            self
        } else {
            self.recorded(outcomes[0]).run(outcomes.drop_first())
        }
    }

    /// The events that the worker handed out while the outcomes were
    /// reported to it one by one, in that order.
    pub open spec fn run_events(self, outcomes: Seq<OutcomeView>) -> Seq<EventView>
        decreases outcomes.len(),
    {
        if outcomes.len() == 0 {
            Seq::empty()
        } else {
            self.emitted(outcomes[0]) + self.recorded(outcomes[0]).run_events(
                outcomes.drop_first(),
            )
        }
    }

    /// How many of the outcomes the worker took for a conversion that was
    /// due: the number of conversions that were attempted.
    pub open spec fn run_attempts(self, outcomes: Seq<OutcomeView>) -> nat
        decreases outcomes.len(),
    {
        if outcomes.len() == 0 {
            0
        } else {
            let taken: nat = if self.is_running() {
                1
            } else {
                0
            };
            taken + self.recorded(outcomes[0]).run_attempts(outcomes.drop_first())
        }
    }
}

/// Every outcome of the sequence is a success.
pub open spec fn all_converted(outcomes: Seq<OutcomeView>) -> bool {
    forall|i: int| 0 <= i < outcomes.len() ==> outcomes[i] is Converted
}

/// An outcome changes neither the job nor its candidates, so the total stays
/// what the inventory gave. The count of conversions never falls and never
/// exceeds the total.
pub proof fn lemma_outcome_keeps_job(worker: WorkerView, outcome: OutcomeView)
    requires
        worker.wf(),
    ensures
        worker.recorded(outcome).job == worker.job,
        worker.recorded(outcome).candidates == worker.candidates,
        worker.completed <= worker.recorded(outcome).completed <= worker.total(),
{
}

/// A worker without a running job takes no outcome: it stays as it is, hands
/// out no event, and asks for no conversion. So a job that failed attempts
/// nothing more, and a job that ended does not end again.
pub proof fn lemma_ended_job_is_inert(worker: WorkerView, outcome: OutcomeView)
    requires
        !worker.is_running(),
    ensures
        worker.pending() is None,
        worker.recorded(outcome) == worker,
        worker.emitted(outcome) == Seq::<EventView>::empty(),
{
}

/// The start of a job is announced once, as the first event of its history,
/// and with the number of its candidates.
pub proof fn lemma_started_once(worker: WorkerView)
    requires
        worker.wf(),
        !(worker.state is Idle),
    ensures
        worker.history().len() >= 1,
        worker.history()[0] == EventView::Started(worker.total()),
        forall|i: int| 1 <= i < worker.history().len() ==> !(worker.history()[i] is Started),
{
}

/// The number that the start of a job announces is the number of files of
/// the walk that are candidates, wherever in the tree they lie: each
/// candidate was given by the walk as a file, and each file of the walk with
/// the source extension is a candidate.
pub proof fn lemma_start_counts_candidates(job: JobView, entries: Seq<ScanEntryView>)
    ensures
        WorkerView::started(job, entries).wf(),
        WorkerView::started(job, entries).history()[0] == EventView::Started(
            entries.filter(|entry: ScanEntryView| entry.is_candidate()).len(),
        ),
        WorkerView::started(job, entries).total() <= entries.len(),
        forall|i: int|
            0 <= i < entries.len() && (#[trigger] entries[i]).is_candidate() ==> WorkerView::started(
                job,
                entries,
            ).candidates.contains(entries[i]->File_0),
        forall|i: int|
            0 <= i < WorkerView::started(job, entries).total() ==> entries.contains(
                ScanEntryView::File(#[trigger] WorkerView::started(job, entries).candidates[i]),
            ),
{
    lemma_candidates_among(entries);
}

/// A job without candidates announces its start with zero, completes at
/// once, and reports no progress.
pub proof fn lemma_empty_job(job: JobView, entries: Seq<ScanEntryView>)
    requires
        candidates_among(entries).len() == 0,
    ensures
        WorkerView::started(job, entries).state is Completed,
        WorkerView::started(job, entries).history() == seq![
            EventView::Started(0),
            EventView::Complete,
        ],
{
    assert(updates(0, 0, 0) =~= Seq::empty());
    assert(WorkerView::started(job, entries).history() =~= seq![
        EventView::Started(0),
        EventView::Complete,
    ]);
}

/// The progress events of a job come with fractions that rise strictly, each
/// above zero and not above one, the `k`-th being `k` of the total.
pub proof fn lemma_updates_rise(total: nat, done: nat)
    requires
        done <= total,
    ensures
        updates(total, 0, done).len() == done,
        forall|k: int|
            0 <= k < done ==> #[trigger] updates(total, 0, done)[k] == (EventView::Update {
                completed: (k + 1) as nat,
                total,
            }) && updates(total, 0, done)[k].is_fraction(),
        forall|i: int, j: int|
            0 <= i < j < done ==> (#[trigger] updates(total, 0, done)[i]).is_less_done_than(
                #[trigger] updates(total, 0, done)[j],
            ),
{
    assert forall|i: int, j: int| 0 <= i < j < done implies (#[trigger] updates(
        total,
        0,
        done,
    )[i]).is_less_done_than(#[trigger] updates(total, 0, done)[j]) by {
        assert((i + 1) * total < (j + 1) * total) by (nonlinear_arith)
            requires
                0 <= i < j,
                total > 0,
        ;
    }
}

/// The history of a job that completed: its start with the total, a
/// progress event for each candidate in turn, and the completion. It holds
/// as many progress events as the job has candidates, and no failure.
pub proof fn lemma_completed_history(worker: WorkerView)
    requires
        worker.wf(),
        worker.state is Completed,
    ensures
        worker.history() == seq![EventView::Started(worker.total())] + updates(
            worker.total(),
            0,
            worker.total(),
        ) + seq![EventView::Complete],
        worker.history().len() == worker.total() + 2,
        forall|k: int|
            1 <= k <= worker.total() ==> #[trigger] worker.history()[k] == (EventView::Update {
                completed: k as nat,
                total: worker.total(),
            }),
        forall|i: int| 0 <= i < worker.history().len() ==> !(worker.history()[i] is Failed),
{
    let n = worker.total();
    assert(worker.history() =~= seq![EventView::Started(n)] + updates(n, 0, n) + seq![
        EventView::Complete,
    ]);
}

/// The history of a job that failed at its `k`-th candidate: its start with
/// the total, the progress events of the `k - 1` candidates before, and the
/// failure with its reason. It holds no completion, and no conversion is due.
pub proof fn lemma_failed_history(worker: WorkerView)
    requires
        worker.wf(),
        worker.state is Failed,
    ensures
        worker.completed < worker.total(),
        worker.history() == seq![EventView::Started(worker.total())] + updates(
            worker.total(),
            0,
            worker.completed,
        ) + seq![EventView::Failed(worker.state->reason)],
        worker.history().len() == worker.completed + 2,
        forall|k: int|
            1 <= k <= worker.completed ==> #[trigger] worker.history()[k] == (EventView::Update {
                completed: k as nat,
                total: worker.total(),
            }),
        forall|i: int| 0 <= i < worker.history().len() ==> !(worker.history()[i] is Complete),
        worker.pending() is None,
{
    let n = worker.total();
    assert(worker.history() =~= seq![EventView::Started(n)] + updates(n, 0, worker.completed)
        + seq![EventView::Failed(worker.state->reason)]);
}

/// A history holds at most one terminal event, as its last, and holds it
/// exactly where the job is over.
pub proof fn lemma_one_terminal_event(worker: WorkerView)
    requires
        worker.wf(),
    ensures
        forall|i: int|
            0 <= i < worker.history().len() - 1 ==> !(#[trigger] worker.history()[i]).is_terminal(),
        worker.history().len() > 0 ==> (worker.history().last().is_terminal() <==> worker.state
            is Completed || worker.state is Failed),
{
}

/// Outcomes reported to a worker without a running job change nothing, give
/// no event, and stand for no attempt.
pub proof fn lemma_run_without_job(worker: WorkerView, outcomes: Seq<OutcomeView>)
    requires
        !worker.is_running(),
    ensures
        worker.run(outcomes) == worker,
        worker.run_events(outcomes) == Seq::<EventView>::empty(),
        worker.run_attempts(outcomes) == 0,
    decreases outcomes.len(),
{
    if outcomes.len() > 0 {
        lemma_run_without_job(worker, outcomes.drop_first());
    }
}

/// The history after a run is the history before it, then the events that
/// the worker handed out during the run.
pub proof fn lemma_run_history(worker: WorkerView, outcomes: Seq<OutcomeView>)
    requires
        worker.wf(),
    ensures
        worker.run(outcomes).wf(),
        worker.run(outcomes).job == worker.job,
        worker.run(outcomes).candidates == worker.candidates,
        worker.run(outcomes).history() == worker.history() + worker.run_events(outcomes),
    decreases outcomes.len(),
{
    if outcomes.len() > 0 {
        lemma_history_step(worker, outcomes[0]);
        lemma_run_history(worker.recorded(outcomes[0]), outcomes.drop_first());
        assert(worker.run(outcomes).history() =~= worker.history() + worker.run_events(outcomes));
    } else {
        assert(worker.history() + Seq::<EventView>::empty() =~= worker.history());
    }
}

/// A run of successes on a running job converts one candidate each, as long
/// as candidates are left. It completes the job exactly where none is left.
pub proof fn lemma_run_of_successes(worker: WorkerView, outcomes: Seq<OutcomeView>)
    requires
        worker.wf(),
        worker.is_running(),
        all_converted(outcomes),
        worker.completed + outcomes.len() <= worker.total(),
    ensures
        worker.run(outcomes).completed == worker.completed + outcomes.len(),
        worker.run(outcomes).state == if worker.completed + outcomes.len() == worker.total() {
            BatchStateView::Completed
        } else {
            BatchStateView::Running {
                total: worker.total(),
                completed: worker.completed + outcomes.len(),
            }
        },
        worker.run_attempts(outcomes) == outcomes.len(),
    decreases outcomes.len(),
{
    if outcomes.len() > 0 {
        let next = worker.recorded(outcomes[0]);
        let rest = outcomes.drop_first();
        assert(outcomes[0] is Converted);
        assert forall|i: int| 0 <= i < rest.len() implies rest[i] is Converted by {
            assert(rest[i] == outcomes[i + 1]);
        }
        if next.is_running() {
            lemma_run_of_successes(next, rest);
        } else {
            lemma_run_without_job(next, rest);
        }
    }
}

/// A run splits: the worker after two runs, one behind the other, is the
/// worker after the one run of both.
pub proof fn lemma_run_split(worker: WorkerView, first: Seq<OutcomeView>, second: Seq<OutcomeView>)
    ensures
        worker.run(first + second) == worker.run(first).run(second),
        worker.run_attempts(first + second) == worker.run_attempts(first) + worker.run(
            first,
        ).run_attempts(second),
    decreases first.len(),
{
    if first.len() == 0 {
        assert(first + second =~= second);
    } else {
        assert((first + second)[0] == first[0]);
        assert((first + second).drop_first() =~= first.drop_first() + second);
        lemma_run_split(worker.recorded(first[0]), first.drop_first(), second);
    }
}

/// A job whose conversions all succeed: after as many successes as it has
/// candidates it is complete, each candidate was attempted once, and the
/// events from its start on are the start with the total, the progress
/// events `1/N` to `N/N` in turn, and the completion.
pub proof fn lemma_successful_batch(
    job: JobView,
    entries: Seq<ScanEntryView>,
    outcomes: Seq<OutcomeView>,
)
    requires
        all_converted(outcomes),
        outcomes.len() == candidates_among(entries).len(),
    ensures
        ({
            let begun = WorkerView::started(job, entries);
            let total = candidates_among(entries).len();
            &&& begun.run(outcomes).state is Completed
            &&& begun.run_attempts(outcomes) == total
            &&& begun.history() + begun.run_events(outcomes) == seq![EventView::Started(total)]
                + updates(total, 0, total) + seq![EventView::Complete]
        }),
{
    let begun = WorkerView::started(job, entries);
    lemma_run_history(begun, outcomes);
    if begun.is_running() {
        lemma_run_of_successes(begun, outcomes);
    } else {
        lemma_run_without_job(begun, outcomes);
    }
    lemma_completed_history(begun.run(outcomes));
}

/// A job whose `k`-th conversion is the first to fail: whatever is reported
/// behind that failure, the job has failed with its reason, `k` conversions
/// were attempted and no more, and the events from its start on are the
/// start with the total, the progress events `1/N` to `(k-1)/N` in turn, and
/// the failure.
pub proof fn lemma_failing_batch(
    job: JobView,
    entries: Seq<ScanEntryView>,
    before: Seq<OutcomeView>,
    reason: Seq<char>,
    behind: Seq<OutcomeView>,
)
    requires
        all_converted(before),
        before.len() < candidates_among(entries).len(),
    ensures
        ({
            let begun = WorkerView::started(job, entries);
            let total = candidates_among(entries).len();
            let outcomes = before + seq![OutcomeView::Failed(reason)] + behind;
            &&& begun.run(outcomes).state == BatchStateView::Failed { reason }
            &&& begun.run(outcomes).pending() is None
            &&& begun.run_attempts(outcomes) == before.len() + 1
            &&& begun.history() + begun.run_events(outcomes) == seq![EventView::Started(total)]
                + updates(total, 0, before.len()) + seq![EventView::Failed(reason)]
        }),
{
    let begun = WorkerView::started(job, entries);
    let failure = seq![OutcomeView::Failed(reason)];
    let outcomes = before + failure + behind;
    lemma_run_history(begun, outcomes);
    lemma_run_of_successes(begun, before);
    let reached = begun.run(before);
    lemma_run_history(begun, before);
    lemma_run_split(begun, before + failure, behind);
    lemma_run_split(begun, before, failure);
    let failed = reached.recorded(OutcomeView::Failed(reason));
    assert(reached.run(failure) == failed) by {
        assert(failure.drop_first() =~= Seq::<OutcomeView>::empty());
        assert(failed.run(failure.drop_first()) == failed);
    }
    assert(reached.run_attempts(failure) == 1) by {
        assert(failure.drop_first() =~= Seq::<OutcomeView>::empty());
        assert(failed.run_attempts(failure.drop_first()) == 0);
    }
    lemma_run_without_job(failed, behind);
    lemma_failed_history(begun.run(outcomes));
}

impl WorkerView {
    /// What the conversions of the first `done` candidates leave in the
    /// output root, where each conversion writes its output: under each
    /// output path the source that was written there last.
    pub open spec fn outputs(self, done: nat) -> Map<Seq<char>, Seq<char>>
        decreases done,
    {
        if done == 0 {
            Map::empty()
        } else {
            self.outputs((done - 1) as nat).insert(
                self.destination(done - 1),
                self.candidates[done - 1],
            )
        }
    }

    /// Among the first `done` candidates the one at `last` is the last that
    /// goes to the output at `path`.
    pub open spec fn writes_last(self, done: nat, path: Seq<char>, last: int) -> bool {
        &&& 0 <= last < done
        &&& self.destination(last) == path
        &&& forall|later: int| last < later < done ==> #[trigger] self.destination(later) != path
    }

    /// No two candidates have the same stem.
    pub open spec fn stems_differ(self) -> bool {
        forall|i: int, j: int|
            0 <= i < j < self.total() ==> spec_file_stem(#[trigger] self.candidates[i])
                != spec_file_stem(#[trigger] self.candidates[j])
    }
}

/// Two candidates of a job go to the same output exactly where they have the
/// same stem.
pub proof fn lemma_outputs_follow_stems(worker: WorkerView, i: int, j: int)
    requires
        0 <= i < worker.total(),
        0 <= j < worker.total(),
    ensures
        worker.destination(i) == worker.destination(j) <==> spec_file_stem(worker.candidates[i])
            == spec_file_stem(worker.candidates[j]),
{
    lemma_same_output_iff_same_stem(
        worker.job.output_root,
        worker.candidates[i],
        worker.candidates[j],
    );
}

/// The output of each candidate lies directly in the output root, under the
/// stem of the candidate with the target extension.
pub proof fn lemma_output_of_candidate(worker: WorkerView, i: int)
    requires
        0 <= i < worker.total(),
        spec_is_candidate(worker.candidates[i]),
    ensures
        worker.destination(i) == spec_join(
            worker.job.output_root,
            spec_file_stem(worker.candidates[i]) + seq!['.'] + target_extension(),
        ),
        spec_file_name(worker.destination(i)) == spec_file_stem(worker.candidates[i]) + seq!['.']
            + target_extension(),
        spec_file_stem(worker.destination(i)) == spec_file_stem(worker.candidates[i]),
        spec_extension(worker.destination(i)) == Some(target_extension()),
{
    lemma_candidate_has_stem(worker.candidates[i]);
    lemma_output_path_parts(worker.job.output_root, worker.candidates[i]);
}

/// What the first `done` conversions leave: under each output path the
/// candidate that was converted last among those that go there, and no
/// output but those of these candidates.
pub proof fn lemma_outputs_last_wins(worker: WorkerView, done: nat)
    requires
        done <= worker.total(),
    ensures
        forall|path: Seq<char>, last: int| #[trigger]
            worker.writes_last(done, path, last) ==> worker.outputs(done).dom().contains(path)
                && worker.outputs(done)[path] == worker.candidates[last],
        forall|path: Seq<char>| #[trigger]
            worker.outputs(done).dom().contains(path) ==> exists|last: int|
                worker.writes_last(done, path, last),
    decreases done,
{
    if done > 0 {
        let before = (done - 1) as nat;
        lemma_outputs_last_wins(worker, before);
        let newest = worker.destination(done - 1);
        assert forall|path: Seq<char>, last: int| #[trigger]
            worker.writes_last(done, path, last) implies worker.outputs(done).dom().contains(path)
            && worker.outputs(done)[path] == worker.candidates[last] by {
            if last < done - 1 {
                assert(worker.destination(done - 1) != path);
                assert(worker.writes_last(before, path, last));
            }
        }
        assert forall|path: Seq<char>| #[trigger]
            worker.outputs(done).dom().contains(path) implies exists|last: int|
            worker.writes_last(done, path, last) by {
            if path == newest {
                assert(worker.writes_last(done, path, done - 1));
            } else {
                assert(worker.outputs(before).dom().contains(path));
                let last = choose|last: int| worker.writes_last(before, path, last);
                assert(worker.writes_last(done, path, last));
            }
        }
    }
}

/// A job whose candidates differ in their stems leaves one output for each
/// candidate converted, that of the candidate itself: no output takes the
/// place of another, and there are as many outputs as conversions.
pub proof fn lemma_outputs_without_collisions(worker: WorkerView, done: nat)
    requires
        done <= worker.total(),
        worker.stems_differ(),
    ensures
        forall|i: int|
            0 <= i < done ==> worker.outputs(done)[#[trigger] worker.destination(i)]
                == worker.candidates[i],
        forall|i: int, j: int|
            0 <= i < j < done ==> #[trigger] worker.destination(i) != #[trigger] worker.destination(
                j,
            ),
        worker.outputs(done).dom().finite(),
        worker.outputs(done).dom().len() == done,
    decreases done,
{
    assert forall|i: int, j: int| 0 <= i < j < worker.total() implies #[trigger] worker.destination(
        i,
    ) != #[trigger] worker.destination(j) by {
        lemma_outputs_follow_stems(worker, i, j);
    }
    if done > 0 {
        let before = (done - 1) as nat;
        lemma_outputs_without_collisions(worker, before);
        lemma_outputs_last_wins(worker, before);
        let newest = worker.destination(done - 1);
        assert(!worker.outputs(before).dom().contains(newest)) by {
            if worker.outputs(before).dom().contains(newest) {
                let i = choose|i: int| worker.writes_last(before, newest, i);
                assert(worker.destination(i) != worker.destination(done - 1));
            }
        }
        assert(worker.outputs(done).dom() =~= worker.outputs(before).dom().insert(newest));
    }
}

} // verus!
