use heic2jpg::app_model::{AppEffect, AppFailure, AppModel, AppMsg, Mode};
use heic2jpg::events::{ConversionWorkerInputMsg, ConversionWorkerMsg};
use heic2jpg::pages::{FinishedPageMsg, ProgressingPage, ProgressingPageMsg};
use heic2jpg::progress::Progress;
use heic2jpg::select_folder::{
    InOut, SelectFolder, SelectFolderAction, SelectFolderMsg, SelectFolderOut,
};

#[test]
fn folders_are_chosen_one_after_the_other() {
    let mut app = AppModel::init();
    assert_eq!(app.mode, Mode::InputSelection);
    assert!(app.update(AppMsg::InputFolderSelected("/in".to_string())).is_empty());
    assert_eq!(app.mode, Mode::OutputSelection);
    assert_eq!(app.input_folder, Some("/in".to_string()));
    assert!(app.update(AppMsg::OutputFolderSelected("/out".to_string())).is_empty());
    assert_eq!(app.mode, Mode::ConversionSelection);
    assert_eq!(app.output_folder, Some("/out".to_string()));
    assert_eq!(
        app.update(AppMsg::Convert),
        vec![AppEffect::Worker(ConversionWorkerInputMsg::ConvertFolder(
            "/in".to_string(),
            "/out".to_string()
        ))]
    );
    assert_eq!(app.mode, Mode::ConversionSelection);
}

#[test]
fn folders_can_be_given_up() {
    let mut app = AppModel::init();
    app.update(AppMsg::InputFolderSelected("/in".to_string()));
    app.update(AppMsg::OutputFolderSelected("/out".to_string()));
    app.update(AppMsg::DeselectOutputFolder);
    assert_eq!(app.mode, Mode::OutputSelection);
    assert_eq!(app.output_folder, None);
    assert_eq!(app.input_folder, Some("/in".to_string()));
    app.update(AppMsg::DeselectInputFolder);
    assert_eq!(app.mode, Mode::InputSelection);
    assert_eq!(app.input_folder, None);
}

#[test]
fn conversion_without_folders_fails() {
    let mut app = AppModel::init();
    assert!(app.update(AppMsg::Convert).is_empty());
    assert_eq!(app.mode, Mode::Failed);
    assert_eq!(app.failure, Some(AppFailure::FoldersNotSelected));
    let mut app = AppModel::init();
    app.update(AppMsg::InputFolderSelected("/in".to_string()));
    assert!(app.update(AppMsg::Convert).is_empty());
    assert_eq!(app.mode, Mode::Failed);
}

#[test]
fn batch_events_move_the_pages() {
    let mut app = AppModel::init();
    assert_eq!(
        app.update(AppMsg::ConversionStarted(3)),
        vec![AppEffect::Progressing(ProgressingPageMsg::SetFileCount(3))]
    );
    assert_eq!(app.mode, Mode::Progressing);
    let p = Progress::new(1, 3).unwrap();
    assert_eq!(
        app.update(AppMsg::ProgressUpdate(p)),
        vec![AppEffect::Progressing(ProgressingPageMsg::SetProgress(p))]
    );
    assert_eq!(app.update(AppMsg::ConversionComplete), vec![AppEffect::NotifyComplete]);
    assert_eq!(app.mode, Mode::Finished);
    assert!(app.update(AppMsg::ProgressUpdate(p)).is_empty());
}

#[test]
fn failure_reason_is_shown_as_it_is() {
    let mut app = AppModel::init();
    app.update(AppMsg::ConversionStarted(2));
    assert!(app.update(AppMsg::ConversionFailed("cannot decode".to_string())).is_empty());
    assert_eq!(app.mode, Mode::Failed);
    assert_eq!(app.failure, Some(AppFailure::Conversion("cannot decode".to_string())));
}

#[test]
fn starting_over_clears_everything() {
    let mut app = AppModel::init();
    app.update(AppMsg::InputFolderSelected("/in".to_string()));
    app.update(AppMsg::OutputFolderSelected("/out".to_string()));
    app.update(AppMsg::ConversionFailed("broken".to_string()));
    assert_eq!(
        app.update(AppMsg::StartOver),
        vec![
            AppEffect::Progressing(ProgressingPageMsg::SetProgress(Progress::zero())),
            AppEffect::Progressing(ProgressingPageMsg::SetFileCount(0)),
        ]
    );
    assert_eq!(app, AppModel::init());
}

#[test]
fn quit_and_noop() {
    let mut app = AppModel::init();
    assert_eq!(app.update(AppMsg::Quit), vec![AppEffect::Quit]);
    assert!(app.update(AppMsg::Noop).is_empty());
    assert_eq!(app, AppModel::init());
}

#[test]
fn reports_are_passed_on_to_the_application() {
    assert_eq!(
        AppMsg::from_input_selector(SelectFolderOut::FolderSelected("/in".to_string())),
        AppMsg::InputFolderSelected("/in".to_string())
    );
    assert_eq!(AppMsg::from_input_selector(SelectFolderOut::AbortLast), AppMsg::Noop);
    assert_eq!(
        AppMsg::from_output_selector(SelectFolderOut::FolderSelected("/out".to_string())),
        AppMsg::OutputFolderSelected("/out".to_string())
    );
    assert_eq!(
        AppMsg::from_output_selector(SelectFolderOut::AbortLast),
        AppMsg::DeselectInputFolder
    );
    assert_eq!(
        AppMsg::from_worker(ConversionWorkerMsg::ConversionStarted(4)),
        AppMsg::ConversionStarted(4)
    );
    let p = Progress::new(1, 4).unwrap();
    assert_eq!(
        AppMsg::from_worker(ConversionWorkerMsg::ProgressUpdate(p)),
        AppMsg::ProgressUpdate(p)
    );
    assert_eq!(
        AppMsg::from_worker(ConversionWorkerMsg::ConversionComplete),
        AppMsg::ConversionComplete
    );
    assert_eq!(
        AppMsg::from_worker(ConversionWorkerMsg::ConversionFailed("r".to_string())),
        AppMsg::ConversionFailed("r".to_string())
    );
    assert_eq!(AppMsg::from_finished_page(FinishedPageMsg::StartOver), AppMsg::StartOver);
    assert_eq!(AppMsg::from_finished_page(FinishedPageMsg::Quit), AppMsg::Quit);
}

#[test]
fn progress_page_shows_what_it_is_told() {
    let mut page = ProgressingPage::init();
    assert_eq!(page.file_count, 0);
    assert_eq!(page.progress, Progress::zero());
    assert!(!page.shows_count());
    page.update(ProgressingPageMsg::SetFileCount(5));
    assert_eq!(page.file_count, 5);
    assert!(page.shows_count());
    let p = Progress::new(2, 5).unwrap();
    page.update(ProgressingPageMsg::SetProgress(p));
    assert_eq!(page.progress, p);
    assert_eq!(page.file_count, 5);
}

#[test]
fn folder_page_has_the_texts_of_its_direction() {
    let input = SelectFolder::init(InOut::Input);
    assert_eq!(input.description, "Select the folder where the Heic files can be found");
    assert_eq!(input.button_label, "Select input directory");
    assert_eq!(input.folder, None);
    assert!(!input.offers_abort());
    let output = SelectFolder::init(InOut::Output);
    assert_eq!(output.description, "Select the folder where the JPG files are meant to be saved");
    assert_eq!(output.button_label, "Select output directory");
    assert!(output.offers_abort());
}

#[test]
fn folder_page_keeps_and_reports_the_folder() {
    let mut page = SelectFolder::init(InOut::Input);
    assert_eq!(page.update(SelectFolderMsg::OpenRequest), Some(SelectFolderAction::OpenDialog));
    assert_eq!(page.update(SelectFolderMsg::Ignore), None);
    assert_eq!(page.folder, None);
    assert_eq!(
        page.update(SelectFolderMsg::OpenResponse("/in".to_string())),
        Some(SelectFolderAction::Emit(SelectFolderOut::FolderSelected("/in".to_string())))
    );
    assert_eq!(page.folder, Some("/in".to_string()));
}
