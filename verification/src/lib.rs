//! Batch conversion of a directory tree of HEIC images to JPEG: the rules that
//! pick the source files and name the outputs, and the worker that turns the
//! outcome of each conversion into an ordered stream of progress events.

pub mod app_model;
pub mod batch;
pub mod conversion_worker;
pub mod engine;
pub mod events;
pub mod pages;
pub mod paths;
pub mod progress;
pub mod scanner;
pub mod select_folder;
