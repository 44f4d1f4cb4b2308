//! The application around the worker: which page it shows, which folders are
//! chosen, and what it has done when a page or the worker reports to it.

use crate::events::{ConversionWorkerInputMsg, ConversionWorkerMsg};
use crate::pages::{FinishedPageMsg, ProgressingPageMsg};
use crate::progress::Progress;
use crate::select_folder::SelectFolderOut;
use vstd::prelude::*;

verus! {

/// The page that the application shows.
#[derive(Debug, Clone, Copy, PartialEq, Eq)]
pub enum Mode {
    /// The input folder is asked for.
    InputSelection,
    /// The output folder is asked for.
    OutputSelection,
    /// Both folders are chosen; the conversion can begin.
    ConversionSelection,
    /// A batch runs.
    Progressing,
    /// The batch completed.
    Finished,
    /// The batch, or its start, failed.
    Failed,
}

/// Why the application shows its failure page.
#[derive(Debug, Clone, PartialEq, Eq)]
pub enum AppFailure {
    /// The conversion was asked for before both folders were chosen.
    FoldersNotSelected,
    /// The batch failed for this reason.
    Conversion(String),
}

/// What is reported to the application.
#[derive(Debug, Clone, PartialEq, Eq)]
pub enum AppMsg {
    InputFolderSelected(String),
    OutputFolderSelected(String),
    DeselectInputFolder,
    DeselectOutputFolder,
    Convert,
    ConversionStarted(usize),
    ProgressUpdate(Progress),
    ConversionComplete,
    ConversionFailed(String),
    StartOver,
    Quit,
    Noop,
}

/// What the application has done for it after a report.
#[derive(Debug, Clone, PartialEq, Eq)]
pub enum AppEffect {
    /// Send this request to the progress page.
    Progressing(ProgressingPageMsg),
    /// Send this request to the worker.
    Worker(ConversionWorkerInputMsg),
    /// Tell the desktop that the batch completed.
    NotifyComplete,
    /// Leave the application.
    Quit,
}

impl AppMsg {
    /// What the page for the input folder reports: its folder as the input
    /// folder. It cannot go back on an earlier choice, so that is no report.
    pub fn from_input_selector(out: SelectFolderOut) -> (message: AppMsg)
        ensures
            message == match out {
                SelectFolderOut::FolderSelected(path) => AppMsg::InputFolderSelected(path),
                SelectFolderOut::AbortLast => AppMsg::Noop,
            },
    {
        match out {
            SelectFolderOut::FolderSelected(path) => AppMsg::InputFolderSelected(path),
            SelectFolderOut::AbortLast => AppMsg::Noop,
        }
    }

    /// What the page for the output folder reports: its folder as the output
    /// folder, and going back as giving up the input folder.
    pub fn from_output_selector(out: SelectFolderOut) -> (message: AppMsg)
        ensures
            message == match out {
                SelectFolderOut::FolderSelected(path) => AppMsg::OutputFolderSelected(path),
                SelectFolderOut::AbortLast => AppMsg::DeselectInputFolder,
            },
    {
        match out {
            SelectFolderOut::FolderSelected(path) => AppMsg::OutputFolderSelected(path),
            SelectFolderOut::AbortLast => AppMsg::DeselectInputFolder,
        }
    }

    /// What the worker reports: each of its events as it is.
    pub fn from_worker(event: ConversionWorkerMsg) -> (message: AppMsg)
        ensures
            message == match event {
                ConversionWorkerMsg::ConversionStarted(total) => AppMsg::ConversionStarted(total),
                ConversionWorkerMsg::ProgressUpdate(progress) => AppMsg::ProgressUpdate(progress),
                ConversionWorkerMsg::ConversionComplete => AppMsg::ConversionComplete,
                ConversionWorkerMsg::ConversionFailed(reason) => AppMsg::ConversionFailed(reason),
            },
    {
        match event {
            ConversionWorkerMsg::ConversionStarted(total) => AppMsg::ConversionStarted(total),
            ConversionWorkerMsg::ProgressUpdate(progress) => AppMsg::ProgressUpdate(progress),
            ConversionWorkerMsg::ConversionComplete => AppMsg::ConversionComplete,
            ConversionWorkerMsg::ConversionFailed(reason) => AppMsg::ConversionFailed(reason),
        }
    }

    /// What the page of a finished batch reports.
    pub fn from_finished_page(out: FinishedPageMsg) -> (message: AppMsg)
        ensures
            message == match out {
                FinishedPageMsg::StartOver => AppMsg::StartOver,
                FinishedPageMsg::Quit => AppMsg::Quit,
            },
    {
        match out {
            FinishedPageMsg::StartOver => AppMsg::StartOver,
            FinishedPageMsg::Quit => AppMsg::Quit,
        }
    }
}

/// What the application holds.
#[derive(Debug, Clone, PartialEq, Eq)]
pub struct AppModel {
    /// The input folder, once chosen.
    pub input_folder: Option<String>,
    /// The output folder, once chosen.
    pub output_folder: Option<String>,
    /// The page shown.
    pub mode: Mode,
    /// Why the failure page is shown.
    pub failure: Option<AppFailure>,
}

impl AppModel {
    /// The application after `message`.
    ///
    /// A folder that is chosen is kept, and the next page is shown; one that
    /// is given up is dropped, and its page is shown again. The start of a
    /// batch shows the progress page, its completion the page of a finished
    /// batch, its failure the failure page with the reason. A conversion
    /// asked for without both folders shows the failure page too. Starting
    /// over drops folders and failure and shows the first page.
    pub open spec fn updated(self, message: AppMsg) -> AppModel {
        match message {
            AppMsg::ConversionStarted(total) => AppModel { mode: Mode::Progressing, ..self },
            AppMsg::InputFolderSelected(path) => AppModel {
                input_folder: Some(path),
                mode: Mode::OutputSelection,
                ..self
            },
            AppMsg::DeselectInputFolder => AppModel {
                input_folder: None,
                mode: Mode::InputSelection,
                ..self
            },
            AppMsg::OutputFolderSelected(path) => AppModel {
                output_folder: Some(path),
                mode: Mode::ConversionSelection,
                ..self
            },
            AppMsg::DeselectOutputFolder => AppModel {
                output_folder: None,
                mode: Mode::OutputSelection,
                ..self
            },
            AppMsg::Convert => if self.input_folder is Some && self.output_folder is Some {
                self
            } else {
                AppModel {
                    mode: Mode::Failed,
                    failure: Some(AppFailure::FoldersNotSelected),
                    ..self
                }
            },
            AppMsg::ConversionComplete => AppModel { mode: Mode::Finished, ..self },
            AppMsg::ConversionFailed(reason) => AppModel {
                mode: Mode::Failed,
                failure: Some(AppFailure::Conversion(reason)),
                ..self
            },
            AppMsg::StartOver => AppModel {
                input_folder: None,
                output_folder: None,
                mode: Mode::InputSelection,
                failure: None,
            },
            AppMsg::ProgressUpdate(progress) => self,
            AppMsg::Quit => self,
            AppMsg::Noop => self,
        }
    }

    /// What is to be done after `message`, in this order.
    ///
    /// The start of a batch sets the count of files on the progress page,
    /// and progress is passed on to it while it is shown. A conversion asked
    /// for with both folders chosen goes to the worker as a job. Completion
    /// is told to the desktop. Starting over clears the progress page.
    pub open spec fn effects(self, message: AppMsg) -> Seq<AppEffect> {
        match message {
            AppMsg::ConversionStarted(total) => seq![
                AppEffect::Progressing(ProgressingPageMsg::SetFileCount(total)),
            ],
            AppMsg::Convert => match (self.input_folder, self.output_folder) {
                (Some(input), Some(output)) => seq![
                    AppEffect::Worker(ConversionWorkerInputMsg::ConvertFolder(input, output)),
                ],
                _ => Seq::empty(),
            },
            AppMsg::ProgressUpdate(progress) => if self.mode is Progressing {
                seq![AppEffect::Progressing(ProgressingPageMsg::SetProgress(progress))]
            } else {
                Seq::empty()
            },
            AppMsg::ConversionComplete => seq![AppEffect::NotifyComplete],
            AppMsg::StartOver => seq![
                AppEffect::Progressing(ProgressingPageMsg::SetProgress(Progress::spec_zero())),
                AppEffect::Progressing(ProgressingPageMsg::SetFileCount(0)),
            ],
            AppMsg::Quit => seq![AppEffect::Quit],
            _ => Seq::empty(),
        }
    }

    /// The application at its start: it asks for the input folder.
    pub fn init() -> (model: AppModel)
        ensures
            model.input_folder is None,
            model.output_folder is None,
            model.mode is InputSelection,
            model.failure is None,
    {
        AppModel {
            input_folder: None,
            output_folder: None,
            mode: Mode::InputSelection,
            failure: None,
        }
    }

    /// Takes a report and says what is to be done.
    pub fn update(&mut self, message: AppMsg) -> (effects: Vec<AppEffect>)
        ensures
            *final(self) == old(self).updated(message),
            effects@ == old(self).effects(message),
    {
        let mut effects: Vec<AppEffect> = Vec::new();
        match message {
            AppMsg::ConversionStarted(total) => {
                self.mode = Mode::Progressing;
                effects.push(AppEffect::Progressing(ProgressingPageMsg::SetFileCount(total)));
            },
            AppMsg::InputFolderSelected(path) => {
                self.input_folder = Some(path);
                self.mode = Mode::OutputSelection;
            },
            AppMsg::DeselectInputFolder => {
                self.input_folder = None;
                self.mode = Mode::InputSelection;
            },
            AppMsg::OutputFolderSelected(path) => {
                self.output_folder = Some(path);
                self.mode = Mode::ConversionSelection;
            },
            AppMsg::DeselectOutputFolder => {
                self.output_folder = None;
                self.mode = Mode::OutputSelection;
            },
            AppMsg::Quit => {
                effects.push(AppEffect::Quit);
            },
            AppMsg::Convert => {
                match (&self.input_folder, &self.output_folder) {
                    (Some(input), Some(output)) => {
                        effects.push(
                            AppEffect::Worker(
                                ConversionWorkerInputMsg::ConvertFolder(
                                    input.clone(),
                                    output.clone(),
                                ),
                            ),
                        );
                    },
                    _ => {
                        self.mode = Mode::Failed;
                        self.failure = Some(AppFailure::FoldersNotSelected);
                    },
                }
            },
            AppMsg::ProgressUpdate(progress) => {
                match self.mode {
                    Mode::Progressing => {
                        effects.push(
                            AppEffect::Progressing(ProgressingPageMsg::SetProgress(progress)),
                        );
                    },
                    _ => {},
                }
            },
            AppMsg::ConversionComplete => {
                self.mode = Mode::Finished;
                effects.push(AppEffect::NotifyComplete);
            },
            AppMsg::ConversionFailed(reason) => {
                self.mode = Mode::Failed;
                self.failure = Some(AppFailure::Conversion(reason));
            },
            AppMsg::StartOver => {
                self.input_folder = None;
                self.output_folder = None;
                effects.push(
                    AppEffect::Progressing(ProgressingPageMsg::SetProgress(Progress::zero())),
                );
                self.failure = None;
                effects.push(AppEffect::Progressing(ProgressingPageMsg::SetFileCount(0)));
                self.mode = Mode::InputSelection;
            },
            AppMsg::Noop => {},
        }
        effects
    }
}

} // verus!
