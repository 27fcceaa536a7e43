//! The conditions under which an operation of the launcher fails.

use crate::model::{ResultItem, ResultItemModel};
use vstd::prelude::*;

verus! {

/// Why an operation failed. Every operation reports its failure as a value:
/// none of them ends the process.
#[derive(Debug, Clone, PartialEq, Eq)]
pub enum LauncherError {
    /// The settings could not be read.
    SettingsUnavailable,
    /// No directory belongs to the extension's id.
    ExtensionNotFound,
    /// The extension ran and did not deliver results: it exited with a
    /// failure, or left no readable result list behind.
    ExtensionExecutionFailed { exit_code: Option<i32>, stderr: String },
    /// A file of the context channel could not be written or read.
    ChannelIOFailure,
    /// No dialog request is stored.
    NoDialogPending,
    /// The operating system refused to start the process.
    ProcessLaunchFailure,
    /// The platform has no way to do what was asked.
    UnsupportedPlatformOperation,
}

/// Model of [`LauncherError`].
pub enum LauncherErrorModel {
    SettingsUnavailable,
    ExtensionNotFound,
    ExtensionExecutionFailed { exit_code: Option<i32>, stderr: Seq<char> },
    ChannelIOFailure,
    NoDialogPending,
    ProcessLaunchFailure,
    UnsupportedPlatformOperation,
}

impl DeepView for LauncherError {
    type V = LauncherErrorModel;

    open spec fn deep_view(&self) -> LauncherErrorModel {
        match self {
            LauncherError::SettingsUnavailable => LauncherErrorModel::SettingsUnavailable,
            LauncherError::ExtensionNotFound => LauncherErrorModel::ExtensionNotFound,
            LauncherError::ExtensionExecutionFailed { exit_code, stderr } => {
                LauncherErrorModel::ExtensionExecutionFailed {
                    exit_code: *exit_code,
                    stderr: stderr@,
                }
            },
            LauncherError::ChannelIOFailure => LauncherErrorModel::ChannelIOFailure,
            LauncherError::NoDialogPending => LauncherErrorModel::NoDialogPending,
            LauncherError::ProcessLaunchFailure => LauncherErrorModel::ProcessLaunchFailure,
            LauncherError::UnsupportedPlatformOperation => {
                LauncherErrorModel::UnsupportedPlatformOperation
            },
        }
    }
}

impl View for LauncherError {
    type V = LauncherErrorModel;

    open spec fn view(&self) -> LauncherErrorModel {
        self.deep_view()
    }
}

/// A result list, or the reason there is none.
pub type Results = Result<Vec<ResultItem>, LauncherError>;

/// Model of [`Results`].
pub type ResultsModel = Result<Seq<ResultItemModel>, LauncherErrorModel>;

/// The outcome that consists of the result list `items`.
pub open spec fn answered(items: Seq<ResultItemModel>) -> ResultsModel {
    Ok(items)
}

/// The model of a result list or failure.
pub open spec fn results_model(results: Results) -> ResultsModel {
    match results {
        Ok(items) => Ok(items.deep_view()),
        Err(error) => Err(error@),
    }
}

} // verus!
