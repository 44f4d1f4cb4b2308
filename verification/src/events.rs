//! What passes between the worker and the outside: the job it is given, the
//! outcome of each conversion, the state of the batch and the events it emits.

use crate::progress::Progress;
use vstd::prelude::*;

verus! {

/// Request to the worker.
#[derive(Debug, Clone, PartialEq, Eq)]
pub enum ConversionWorkerInputMsg {
    /// Convert what lies under the input root, the first path, into the
    /// output root, the second.
    ConvertFolder(String, String),
}

/// One batch: the tree to read and the directory to fill.
#[derive(Debug, Clone, PartialEq, Eq)]
pub struct ConversionJob {
    pub input_root: String,
    pub output_root: String,
}

/// A job as plain text.
pub struct JobView {
    pub input_root: Seq<char>,
    pub output_root: Seq<char>,
}

impl View for ConversionJob {
    type V = JobView;

    open spec fn view(&self) -> JobView {
        JobView { input_root: self.input_root@, output_root: self.output_root@ }
    }
}

impl View for ConversionWorkerInputMsg {
    type V = JobView;

    /// The job that the request submits.
    open spec fn view(&self) -> JobView {
        match self {
            ConversionWorkerInputMsg::ConvertFolder(input_root, output_root) => JobView {
                input_root: input_root@,
                output_root: output_root@,
            },
        }
    }
}

impl ConversionWorkerInputMsg {
    /// The job that the request submits.
    pub fn into_job(self) -> (job: ConversionJob)
        ensures
            job@ == self@,
    {
        match self {
            ConversionWorkerInputMsg::ConvertFolder(input_root, output_root) => ConversionJob {
                input_root,
                output_root,
            },
        }
    }
}

/// How the conversion of one candidate ended.
#[derive(Debug, Clone, PartialEq, Eq)]
pub enum ConversionOutcome {
    /// The output was written to this path.
    Converted(String),
    /// The conversion failed for this reason.
    Failed(String),
}

/// An outcome as plain text.
pub enum OutcomeView {
    Converted(Seq<char>),
    Failed(Seq<char>),
}

impl View for ConversionOutcome {
    type V = OutcomeView;

    open spec fn view(&self) -> OutcomeView {
        match self {
            ConversionOutcome::Converted(path) => OutcomeView::Converted(path@),
            ConversionOutcome::Failed(reason) => OutcomeView::Failed(reason@),
        }
    }
}

/// Where a batch stands.
#[derive(Debug, Clone, PartialEq, Eq)]
pub enum BatchState {
    /// No job was submitted yet.
    Idle,
    /// A job runs: `completed` of its `total` candidates are converted.
    Running { total: usize, completed: usize },
    /// Every candidate of the last job was converted.
    Completed,
    /// The last job stopped at a conversion that failed.
    Failed { reason: String },
}

/// A batch state over mathematical values.
pub enum BatchStateView {
    Idle,
    Running { total: nat, completed: nat },
    Completed,
    Failed { reason: Seq<char> },
}

impl View for BatchState {
    type V = BatchStateView;

    open spec fn view(&self) -> BatchStateView {
        match self {
            BatchState::Idle => BatchStateView::Idle,
            BatchState::Running { total, completed } => BatchStateView::Running {
                total: *total as nat,
                completed: *completed as nat,
            },
            BatchState::Completed => BatchStateView::Completed,
            BatchState::Failed { reason } => BatchStateView::Failed { reason: reason@ },
        }
    }
}

/// Event that the worker emits.
#[derive(Debug, Clone, PartialEq, Eq)]
pub enum ConversionWorkerMsg {
    /// A job began; it has this many candidates.
    ConversionStarted(usize),
    /// One more candidate is converted; this part of the job is done.
    ProgressUpdate(Progress),
    /// Every candidate of the job is converted.
    ConversionComplete,
    /// A conversion failed for this reason, and the job stopped.
    ConversionFailed(String),
}

/// An event over mathematical values.
pub enum EventView {
    Started(nat),
    Update { completed: nat, total: nat },
    Complete,
    Failed(Seq<char>),
}

impl View for ConversionWorkerMsg {
    type V = EventView;

    open spec fn view(&self) -> EventView {
        match self {
            ConversionWorkerMsg::ConversionStarted(total) => EventView::Started(*total as nat),
            ConversionWorkerMsg::ProgressUpdate(progress) => EventView::Update {
                completed: progress.spec_completed(),
                total: progress.spec_total(),
            },
            ConversionWorkerMsg::ConversionComplete => EventView::Complete,
            ConversionWorkerMsg::ConversionFailed(reason) => EventView::Failed(reason@),
        }
    }
}

impl DeepView for ConversionWorkerMsg {
    type V = EventView;

    open spec fn deep_view(&self) -> EventView {
        self@
    }
}

impl EventView {
    /// An event that ends a job.
    pub open spec fn is_terminal(self) -> bool {
        self is Complete || self is Failed
    }

    /// A progress event whose fraction lies above zero and not above one.
    pub open spec fn is_fraction(self) -> bool {
        self matches EventView::Update { completed, total } && 0 < completed <= total
    }

    /// Both are progress events, and the fraction of `self` is smaller than
    /// that of `later`.
    pub open spec fn is_less_done_than(self, later: EventView) -> bool {
        match (self, later) {
            (
                EventView::Update { completed: c1, total: t1 },
                EventView::Update { completed: c2, total: t2 },
            ) => c1 * t2 < c2 * t1,
            _ => false,
        }
    }
}

/// The progress events for the candidates `from + 1` to `to` of a job with
/// `total` candidates, in that order.
pub open spec fn updates(total: nat, from: nat, to: nat) -> Seq<EventView> {
    Seq::new(
        (to - from) as nat,
        |i: int| EventView::Update { completed: (from + i + 1) as nat, total },
    )
}

/// What the worker refuses.
#[derive(Debug, Clone, Copy, PartialEq, Eq)]
pub enum WorkerError {
    /// A job was submitted while another one runs.
    Busy,
    /// An outcome was reported while no job runs.
    NotRunning,
}

/// One conversion that the worker asks for.
#[derive(Debug, Clone, PartialEq, Eq)]
pub struct ConversionRequest {
    /// The source file.
    pub source: String,
    /// Where its output goes.
    pub destination: String,
}

} // verus!
