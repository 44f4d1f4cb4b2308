//! The page that asks for a folder, once for the input and once for the
//! output of a batch.

use vstd::prelude::*;
use vstd::string::*;

verus! {

/// Which folder a page asks for.
#[derive(Debug, Clone, Copy, PartialEq, Eq)]
pub enum InOut {
    Input,
    Output,
}

/// Request to the page.
#[derive(Debug, Clone, PartialEq, Eq)]
pub enum SelectFolderMsg {
    /// The user asks for the folder dialog.
    OpenRequest,
    /// The dialog was left with this folder.
    OpenResponse(String),
    /// The dialog was left without a folder.
    Ignore,
}

/// What the page tells the application.
#[derive(Debug, Clone, PartialEq, Eq)]
pub enum SelectFolderOut {
    /// This folder was chosen.
    FolderSelected(String),
    /// The user goes back on the folder chosen before.
    AbortLast,
}

/// What the page has done for it after a request.
#[derive(Debug, Clone, PartialEq, Eq)]
pub enum SelectFolderAction {
    /// Open the folder dialog.
    OpenDialog,
    /// Tell the application.
    Emit(SelectFolderOut),
}

/// What the page holds.
#[derive(Debug, Clone, PartialEq, Eq)]
pub struct SelectFolder {
    /// The folder chosen last, if any.
    pub folder: Option<String>,
    /// What the page says it is for.
    pub description: String,
    /// Label of the button that opens the dialog.
    pub button_label: String,
    /// Which folder the page asks for.
    pub direction: InOut,
}

/// What a page for `direction` says it is for.
pub open spec fn description_for(direction: InOut) -> Seq<char> {
    match direction {
        InOut::Input => "Select the folder where the Heic files can be found"@,
        InOut::Output => "Select the folder where the JPG files are meant to be saved"@,
    }
}

/// Label of the button of a page for `direction`.
pub open spec fn button_label_for(direction: InOut) -> Seq<char> {
    match direction {
        InOut::Input => "Select input directory"@,
        InOut::Output => "Select output directory"@,
    }
}

impl SelectFolder {
    /// The page for `direction`, with no folder chosen and the texts of that
    /// direction.
    pub fn init(direction: InOut) -> (page: SelectFolder)
        ensures
            page.folder is None,
            page.direction == direction,
            page.description@ == description_for(direction),
            page.button_label@ == button_label_for(direction),
    {
        let (description, button_label) = match direction {
            InOut::Input => (
                "Select the folder where the Heic files can be found",
                "Select input directory",
            ),
            InOut::Output => (
                "Select the folder where the JPG files are meant to be saved",
                "Select output directory",
            ),
        };
        SelectFolder {
            folder: None,
            description: description.to_owned(),
            button_label: button_label.to_owned(),
            direction,
        }
    }

    /// Whether the page offers to go back on the folder chosen before: only
    /// the page for the output does.
    pub fn offers_abort(&self) -> (offered: bool)
        ensures
            offered == (self.direction is Output),
    {
        match self.direction {
            InOut::Output => true,
            InOut::Input => false,
        }
    }

    /// Takes a request. A request for the dialog has it opened. A folder
    /// from the dialog is kept and told to the application. A dialog left
    /// without a folder changes nothing.
    pub fn update(&mut self, message: SelectFolderMsg) -> (action: Option<SelectFolderAction>)
        ensures
            final(self).description == old(self).description,
            final(self).button_label == old(self).button_label,
            final(self).direction == old(self).direction,
            match message {
                SelectFolderMsg::OpenRequest => {
                    &&& action == Some(SelectFolderAction::OpenDialog)
                    &&& final(self).folder == old(self).folder
                },
                SelectFolderMsg::OpenResponse(path) => {
                    &&& action == Some(
                        SelectFolderAction::Emit(SelectFolderOut::FolderSelected(path)),
                    )
                    &&& final(self).folder == Some(path)
                },
                SelectFolderMsg::Ignore => {
                    &&& action is None
                    &&& final(self).folder == old(self).folder
                },
            },
    {
        match message {
            SelectFolderMsg::OpenRequest => Some(SelectFolderAction::OpenDialog),
            SelectFolderMsg::OpenResponse(path) => {
                self.folder = Some(path.clone());
                Some(SelectFolderAction::Emit(SelectFolderOut::FolderSelected(path)))
            },
            SelectFolderMsg::Ignore => None,
        }
    }
}

} // verus!
