//! The pages that show a batch: what the progress page holds, and what the
//! page of a finished batch can ask for.

use crate::progress::Progress;
use vstd::prelude::*;

verus! {

/// What the page of a finished batch asks of the application.
#[derive(Debug, Clone, Copy, PartialEq, Eq)]
pub enum FinishedPageMsg {
    /// Begin again with the choice of the folders.
    StartOver,
    /// Leave the application.
    Quit,
}

/// Request to the progress page.
#[derive(Debug, Clone, Copy, PartialEq, Eq)]
pub enum ProgressingPageMsg {
    /// Show this number of files as the size of the batch.
    SetFileCount(usize),
    /// Show this part of the batch as done.
    SetProgress(Progress),
}

/// What the progress page shows.
#[derive(Debug, Clone, Copy, PartialEq, Eq)]
pub struct ProgressingPage {
    /// Size of the batch.
    pub file_count: usize,
    /// The part of it that is done.
    pub progress: Progress,
}

impl ProgressingPage {
    /// The page before any batch: no files, nothing done.
    pub fn init() -> (page: ProgressingPage)
        ensures
            page.file_count == 0,
            page.progress == Progress::spec_zero(),
    {
        ProgressingPage { file_count: 0, progress: Progress::zero() }
    }

    /// The page after `message`: it shows what the message holds, and the
    /// rest as before.
    pub open spec fn updated(self, message: ProgressingPageMsg) -> ProgressingPage {
        match message {
            ProgressingPageMsg::SetFileCount(file_count) => ProgressingPage { file_count, ..self },
            ProgressingPageMsg::SetProgress(progress) => ProgressingPage { progress, ..self },
        }
    }

    /// Takes a request.
    pub fn update(&mut self, message: ProgressingPageMsg)
        ensures
            *final(self) == old(self).updated(message),
    {
        match message {
            ProgressingPageMsg::SetFileCount(file_count) => {
                self.file_count = file_count;
            },
            ProgressingPageMsg::SetProgress(progress) => {
                self.progress = progress;
            },
        }
    }

    /// Whether the page shows the count of files: only for a batch that has
    /// any.
    pub fn shows_count(&self) -> (shown: bool)
        ensures
            shown == (self.file_count > 0),
    {
        self.file_count > 0
    }
}

} // verus!
