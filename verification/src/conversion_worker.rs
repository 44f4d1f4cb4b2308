//! The worker: one batch at a time, from the job and the inventory of its
//! input root to the terminal event.
//!
//! The worker does no conversion itself. It says which conversion is due,
//! takes the outcome, and answers with the events that the outcome gives rise
//! to. The events of a job, put together in the order in which the worker
//! handed them out, are its history.

use crate::events::{
    updates, BatchState, BatchStateView, ConversionOutcome, ConversionRequest,
    ConversionWorkerInputMsg, ConversionWorkerMsg, EventView, JobView, OutcomeView, WorkerError,
};
use crate::engine::CodecToken;
use crate::paths::spec_output_path;
use crate::progress::Progress;
use crate::scanner::{
    candidates_among, select_candidates, FileCandidate, ScanEntry, ScanEntryView,
};
use vstd::prelude::*;
use vstd::string::*;

verus! {

/// The worker over mathematical values.
pub struct WorkerView {
    /// Where the batch stands.
    pub state: BatchStateView,
    /// The job that was submitted last.
    pub job: JobView,
    /// The candidates of that job, in the order in which they are converted.
    pub candidates: Seq<Seq<char>>,
    /// How many of them are converted.
    pub completed: nat,
}

impl WorkerView {
    /// Number of candidates of the job.
    pub open spec fn total(self) -> nat {
        self.candidates.len()
    }

    /// A job runs.
    pub open spec fn is_running(self) -> bool {
        self.state is Running
    }

    /// The state fits the candidates and the count of those converted. While
    /// a job runs the state holds its total and that count, and a candidate
    /// is still due. A completed job has converted all its candidates, and a
    /// failed one has not.
    pub open spec fn wf(self) -> bool {
        match self.state {
            BatchStateView::Idle => self.completed == 0 && self.total() == 0,
            BatchStateView::Running { total, completed } => total == self.total() && completed
                == self.completed && self.completed < self.total(),
            BatchStateView::Completed => self.completed == self.total(),
            BatchStateView::Failed { reason } => self.completed < self.total(),
        }
    }

    /// The events that the job has given rise to so far: none before the
    /// first job; else the start with the total, one progress event for each
    /// candidate converted, and the terminal event once the job is over.
    pub open spec fn history(self) -> Seq<EventView> {
        let begun = seq![EventView::Started(self.total())] + updates(
            self.total(),
            0,
            self.completed,
        );
        match self.state {
            BatchStateView::Idle => Seq::empty(),
            BatchStateView::Running { total, completed } => begun,
            BatchStateView::Completed => begun.push(EventView::Complete),
            BatchStateView::Failed { reason } => begun.push(EventView::Failed(reason)),
        }
    }

    /// Where the output of the candidate at `index` goes.
    pub open spec fn destination(self, index: int) -> Seq<char> {
        spec_output_path(self.job.output_root, self.candidates[index])
    }

    /// The conversion that is due: the first candidate not yet converted,
    /// with its output in the output root, while a job runs.
    pub open spec fn pending(self) -> Option<(Seq<char>, Seq<char>)> {
        if self.is_running() {
            Some((self.candidates[self.completed as int], self.destination(self.completed as int)))
        } else {
            None
        }
    }

    /// The worker before its first job.
    pub open spec fn idle() -> WorkerView {
        WorkerView {
            state: BatchStateView::Idle,
            job: JobView { input_root: Seq::empty(), output_root: Seq::empty() },
            candidates: Seq::empty(),
            completed: 0,
        }
    }

    /// The worker after `job` was accepted, `entries` being what the walk of
    /// its input root gave: the candidates are those among `entries`. With
    /// no candidate the job is complete at once.
    pub open spec fn started(job: JobView, entries: Seq<ScanEntryView>) -> WorkerView {
        let candidates = candidates_among(entries);
        WorkerView {
            state: if candidates.len() == 0 {
                BatchStateView::Completed
            } else {
                BatchStateView::Running { total: candidates.len(), completed: 0 }
            },
            job,
            candidates,
            completed: 0,
        }
    }

    /// The worker after `outcome` was reported for the conversion that was
    /// due. One that succeeded counts, and completes the job where it was the
    /// last; one that failed ends the job. Where no job runs nothing changes.
    pub open spec fn recorded(self, outcome: OutcomeView) -> WorkerView {
        if !self.is_running() {
            self
        } else {
            match outcome {
                OutcomeView::Converted(path) => WorkerView {
                    state: if self.completed + 1 == self.total() {
                        BatchStateView::Completed
                    } else {
                        BatchStateView::Running {
                            total: self.total(),
                            completed: self.completed + 1,
                        }
                    },
                    completed: self.completed + 1,
                    ..self
                },
                OutcomeView::Failed(reason) => WorkerView {
                    state: BatchStateView::Failed { reason },
                    ..self
                },
            }
        }
    }

    /// The events to which `outcome` gives rise: a progress event for a
    /// conversion that succeeded, followed by the completion where it was the
    /// last; the failure for one that failed; none where no job runs.
    pub open spec fn emitted(self, outcome: OutcomeView) -> Seq<EventView> {
        if !self.is_running() {
            Seq::empty()
        } else {
            match outcome {
                OutcomeView::Converted(path) => {
                    let update = EventView::Update {
                        completed: self.completed + 1,
                        total: self.total(),
                    };
                    if self.completed + 1 == self.total() {
                        seq![update, EventView::Complete]
                    } else {
                        seq![update]
                    }
                },
                OutcomeView::Failed(reason) => seq![EventView::Failed(reason)],
            }
        }
    }
}

/// The worker of one batch at a time.
pub struct ConversionWorker {
    state: BatchState,
    input_root: String,
    output_root: String,
    candidates: Vec<FileCandidate>,
    completed: usize,
}

impl View for ConversionWorker {
    type V = WorkerView;

    closed spec fn view(&self) -> WorkerView {
        WorkerView {
            state: self.state@,
            job: JobView { input_root: self.input_root@, output_root: self.output_root@ },
            candidates: self.candidates.deep_view(),
            completed: self.completed as nat,
        }
    }
}

impl ConversionWorker {
    /// A worker that has had no job yet. It takes the token of the codec, so
    /// that there is no worker where the codec could not be set up.
    pub fn init(_codec: CodecToken) -> (worker: ConversionWorker)
        ensures
            worker@ == WorkerView::idle(),
            worker@.wf(),
    {
        let worker = ConversionWorker {
            state: BatchState::Idle,
            input_root: String::new(),
            output_root: String::new(),
            candidates: Vec::new(),
            completed: 0,
        };
        assert(worker.candidates.deep_view() =~= Seq::empty());
        worker
    }

    /// Whether a job runs.
    pub fn is_running(&self) -> (running: bool)
        ensures
            running == self@.is_running(),
    {
        match self.state {
            BatchState::Running { .. } => true,
            _ => false,
        }
    }

    /// Where the batch stands.
    pub fn state(&self) -> (state: &BatchState)
        ensures
            state@ == self@.state,
    {
        &self.state
    }

    /// Number of candidates of the job that was submitted last.
    pub fn total(&self) -> (total: usize)
        ensures
            total == self@.total(),
    {
        self.candidates.len()
    }

    /// How many candidates of that job are converted.
    pub fn completed(&self) -> (completed: usize)
        ensures
            completed == self@.completed,
    {
        self.completed
    }

    /// Takes a job, with the entries that the walk of its input root gave,
    /// in the order of the walk. A worker whose job still runs refuses it and
    /// stays as it is. Otherwise the job begins: its candidates are picked
    /// from `entries`, and the start is announced with their number. A job
    /// without candidates is complete at once.
    pub fn update(&mut self, msg: ConversionWorkerInputMsg, entries: &Vec<ScanEntry>) -> (result:
        Result<Vec<ConversionWorkerMsg>, WorkerError>)
        requires
            old(self)@.wf(),
        ensures
            final(self)@.wf(),
            match result {
                Ok(events) => {
                    &&& !old(self)@.is_running()
                    &&& final(self)@ == WorkerView::started(msg@, entries.deep_view())
                    &&& events.deep_view() == final(self)@.history()
                    &&& events.deep_view() == if final(self)@.total() == 0 {
                        seq![EventView::Started(0), EventView::Complete]
                    } else {
                        seq![EventView::Started(final(self)@.total())]
                    }
                },
                Err(error) => {
                    &&& old(self)@.is_running()
                    &&& error == WorkerError::Busy
                    &&& final(self)@ == old(self)@
                },
            },
    {
        if self.is_running() {
            return Err(WorkerError::Busy);
        }
        let job = msg.into_job();
        let candidates = select_candidates(entries);
        let total = candidates.len();
        let mut events: Vec<ConversionWorkerMsg> = Vec::new();
        events.push(ConversionWorkerMsg::ConversionStarted(total));
        self.input_root = job.input_root;
        self.output_root = job.output_root;
        self.candidates = candidates;
        self.completed = 0;
        if total == 0 {
            self.state = BatchState::Completed;
            events.push(ConversionWorkerMsg::ConversionComplete);
        } else {
            self.state = BatchState::Running { total, completed: 0 };
        }
        proof {
            assert(updates(total as nat, 0, 0) =~= Seq::empty());
            if total == 0 {
                assert(events.deep_view() =~= seq![EventView::Started(0), EventView::Complete]);
            } else {
                assert(events.deep_view() =~= seq![EventView::Started(total as nat)]);
            }
            assert(events.deep_view() =~= self@.history());
        }
        Ok(events)
    }

    /// Forgets the job that is over and makes the worker idle again. A
    /// worker whose job still runs refuses and stays as it is.
    pub fn reset(&mut self) -> (result: Result<(), WorkerError>)
        requires
            old(self)@.wf(),
        ensures
            final(self)@.wf(),
            match result {
                Ok(_) => !old(self)@.is_running() && final(self)@ == WorkerView::idle(),
                Err(error) => {
                    &&& old(self)@.is_running()
                    &&& error == WorkerError::Busy
                    &&& final(self)@ == old(self)@
                },
            },
    {
        if self.is_running() {
            return Err(WorkerError::Busy);
        }
        self.state = BatchState::Idle;
        self.input_root = String::new();
        self.output_root = String::new();
        self.candidates = Vec::new();
        self.completed = 0;
        assert(self.candidates.deep_view() =~= Seq::empty());
        Ok(())
    }

    /// The conversion that is due, or `None` where no job runs: the first
    /// candidate not yet converted and the place of its output.
    pub fn next_conversion(&self) -> (request: Option<ConversionRequest>)
        requires
            self@.wf(),
        ensures
            match request {
                Some(r) => self@.pending() == Some((r.source@, r.destination@)),
                None => self@.pending() is None,
            },
    {
        if self.is_running() {
            let candidate = &self.candidates[self.completed];
            let source = candidate.path().to_owned();
            let destination = candidate.destination(self.output_root.as_str());
            Some(ConversionRequest { source, destination })
        } else {
            None
        }
    }

    /// Takes the outcome of the conversion that was due. A conversion that
    /// succeeded counts, whatever path it names as written, and is announced
    /// with the part of the job now done, followed by the completion where
    /// it was the last. One that failed
    /// ends the job with its reason, and no conversion is due after it. A
    /// worker without a running job refuses the outcome and stays as it is.
    pub fn record_outcome(&mut self, outcome: ConversionOutcome) -> (result: Result<
        Vec<ConversionWorkerMsg>,
        WorkerError,
    >)
        requires
            old(self)@.wf(),
        ensures
            final(self)@.wf(),
            final(self)@ == old(self)@.recorded(outcome@),
            match result {
                Ok(events) => {
                    &&& old(self)@.is_running()
                    &&& events.deep_view() == old(self)@.emitted(outcome@)
                    &&& final(self)@.history() == old(self)@.history() + events.deep_view()
                },
                Err(error) => {
                    &&& !old(self)@.is_running()
                    &&& error == WorkerError::NotRunning
                },
            },
    {
        if !self.is_running() {
            return Err(WorkerError::NotRunning);
        }
        let total = self.candidates.len();
        let mut events: Vec<ConversionWorkerMsg> = Vec::new();
        proof {
            lemma_history_step(self@, outcome@);
        }
        match outcome {
            ConversionOutcome::Converted(_) => {
                let done = self.completed + 1;
                self.completed = done;
                let progress = Progress::new(done, total).unwrap();
                events.push(ConversionWorkerMsg::ProgressUpdate(progress));
                if done == total {
                    self.state = BatchState::Completed;
                    events.push(ConversionWorkerMsg::ConversionComplete);
                    assert(events.deep_view() =~= seq![
                        EventView::Update { completed: done as nat, total: total as nat },
                        EventView::Complete,
                    ]);
                } else {
                    self.state = BatchState::Running { total, completed: done };
                    assert(events.deep_view() =~= seq![
                        EventView::Update { completed: done as nat, total: total as nat },
                    ]);
                }
            },
            ConversionOutcome::Failed(reason) => {
                assert(events.deep_view() =~= Seq::empty());
                let ghost text = reason@;
                events.push(ConversionWorkerMsg::ConversionFailed(reason.clone()));
                self.state = BatchState::Failed { reason };
                assert(events.deep_view() =~= seq![EventView::Failed(text)]);
            },
        }
        Ok(events)
    }
}

/// The history after an outcome is the history before it, then the events
/// that the outcome gave rise to.
pub proof fn lemma_history_step(worker: WorkerView, outcome: OutcomeView)
    requires
        worker.wf(),
    ensures
        worker.recorded(outcome).wf(),
        worker.recorded(outcome).history() == worker.history() + worker.emitted(outcome),
{
    let next = worker.recorded(outcome);
    if worker.is_running() {
        let n = worker.total();
        let k = worker.completed;
        let begun = seq![EventView::Started(n)] + updates(n, 0, k);
        match outcome {
            OutcomeView::Converted(path) => {
                let update = EventView::Update { completed: k + 1, total: n };
                assert(updates(n, 0, k + 1) =~= updates(n, 0, k).push(update));
                assert(next.history() =~= worker.history() + worker.emitted(outcome));
            },
            OutcomeView::Failed(reason) => {
                assert(next.history() =~= worker.history() + worker.emitted(outcome));
            },
        }
    } else {
        assert(next.history() =~= worker.history() + worker.emitted(outcome));
    }
}

} // verus!
