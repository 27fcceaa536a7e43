//! Driving an extension: the context it is handed, and the steps of one
//! invocation over the context channel.
//!
//! An extension is a program in a directory of its own. It learns what is
//! asked of it from the context file and answers with a results file; exit
//! status 0 is its only sign of success. The files are written and read, and
//! the process is started, by the caller of [`advance`]: this module decides
//! what is done next and what the invocation came to.

use crate::error::{results_model, LauncherError, LauncherErrorModel, Results, ResultsModel};
use crate::model::{ResultItem, ResultItemModel};
use vstd::prelude::*;

verus! {

/// What an extension is asked to do.
#[derive(Debug, Clone, Copy, PartialEq, Eq)]
pub enum ContextAction {
    GetResults,
    RunAction,
}

/// The message written to the context channel before every launch.
#[derive(Debug, Clone, PartialEq, Eq)]
pub struct InvocationContext {
    pub action: ContextAction,
    pub search_text: Option<String>,
    pub extension_action: Option<String>,
    pub custom_args: Option<Vec<String>>,
}

/// Model of [`InvocationContext`].
pub struct InvocationContextModel {
    pub action: ContextAction,
    pub search_text: Option<Seq<char>>,
    pub extension_action: Option<Seq<char>>,
    pub custom_args: Option<Seq<Seq<char>>>,
}

impl DeepView for InvocationContext {
    type V = InvocationContextModel;

    open spec fn deep_view(&self) -> InvocationContextModel {
        InvocationContextModel {
            action: self.action,
            search_text: self.search_text.deep_view(),
            extension_action: self.extension_action.deep_view(),
            custom_args: self.custom_args.deep_view(),
        }
    }
}

impl View for InvocationContext {
    type V = InvocationContextModel;

    open spec fn view(&self) -> InvocationContextModel {
        self.deep_view()
    }
}

impl InvocationContext {
    /// The context that asks an extension for its results on `search_text`.
    pub fn get_results(search_text: String) -> (context: InvocationContext)
        ensures
            context@ == (InvocationContextModel {
                action: ContextAction::GetResults,
                search_text: Some(search_text@),
                extension_action: None,
                custom_args: None,
            }),
    {
        InvocationContext {
            action: ContextAction::GetResults,
            search_text: Some(search_text),
            extension_action: None,
            custom_args: None,
        }
    }

    /// The context that asks an extension to run `extension_action`, with
    /// `args` where there are any.
    pub fn run_action(extension_action: String, args: Option<Vec<String>>) -> (context:
        InvocationContext)
        ensures
            context@ == (InvocationContextModel {
                action: ContextAction::RunAction,
                search_text: None,
                extension_action: Some(extension_action@),
                custom_args: args.deep_view(),
            }),
    {
        InvocationContext {
            action: ContextAction::RunAction,
            search_text: None,
            extension_action: Some(extension_action),
            custom_args: args,
        }
    }
}

/// Whether the caller waits for the extension.
#[derive(Debug, Clone, Copy, PartialEq, Eq)]
pub enum LaunchMode {
    /// The caller blocks until the process exits, then reads its results.
    Foreground,
    /// The process is started and left alone; it yields no results.
    Background,
}

/// One launch of an extension: which one, with what context, in what mode.
#[derive(Debug, Clone, PartialEq, Eq)]
pub struct Invocation {
    pub extension_id: String,
    pub context: InvocationContext,
    pub mode: LaunchMode,
}

/// Model of [`Invocation`].
pub struct InvocationModel {
    pub extension_id: Seq<char>,
    pub context: InvocationContextModel,
    pub mode: LaunchMode,
}

impl DeepView for Invocation {
    type V = InvocationModel;

    open spec fn deep_view(&self) -> InvocationModel {
        InvocationModel {
            extension_id: self.extension_id@,
            context: self.context@,
            mode: self.mode,
        }
    }
}

impl View for Invocation {
    type V = InvocationModel;

    open spec fn view(&self) -> InvocationModel {
        self.deep_view()
    }
}

/// The invocation that runs `extension_action` of the extension
/// `extension_id`, with `args` where there are any. It runs in the
/// background: the caller goes on without waiting and sees no result.
pub fn run_extension_action(
    extension_id: String,
    extension_action: String,
    args: Option<Vec<String>>,
) -> (invocation: Invocation)
    ensures
        invocation@ == (InvocationModel {
            extension_id: extension_id@,
            context: InvocationContextModel {
                action: ContextAction::RunAction,
                search_text: None,
                extension_action: Some(extension_action@),
                custom_args: args.deep_view(),
            },
            mode: LaunchMode::Background,
        }),
{
    Invocation {
        extension_id,
        context: InvocationContext::run_action(extension_action, args),
        mode: LaunchMode::Background,
    }
}

/// How far an invocation has come.
#[derive(Debug, Clone, PartialEq, Eq)]
pub enum InvocationState {
    /// Nothing has been done yet.
    Created,
    /// The extension's directory is being looked up.
    Locating,
    /// The context file is being written.
    WritingContext,
    /// The process is being started, or runs in the foreground.
    Launching,
    /// The process exited with success and printed `stderr`; its results
    /// file is being read.
    ReadingResults { stderr: String },
    /// The invocation is over.
    Finished,
}

/// Model of [`InvocationState`].
pub enum InvocationStateModel {
    Created,
    Locating,
    WritingContext,
    Launching,
    ReadingResults { stderr: Seq<char> },
    Finished,
}

impl DeepView for InvocationState {
    type V = InvocationStateModel;

    open spec fn deep_view(&self) -> InvocationStateModel {
        match self {
            InvocationState::Created => InvocationStateModel::Created,
            InvocationState::Locating => InvocationStateModel::Locating,
            InvocationState::WritingContext => InvocationStateModel::WritingContext,
            InvocationState::Launching => InvocationStateModel::Launching,
            InvocationState::ReadingResults { stderr } => InvocationStateModel::ReadingResults {
                stderr: stderr@,
            },
            InvocationState::Finished => InvocationStateModel::Finished,
        }
    }
}

impl View for InvocationState {
    type V = InvocationStateModel;

    open spec fn view(&self) -> InvocationStateModel {
        self.deep_view()
    }
}

/// What the caller observed while carrying out the last action.
#[derive(Debug, Clone, PartialEq, Eq)]
pub enum InvocationEvent {
    /// The invocation is to begin.
    Started,
    /// The lookup of the extension's directory ended.
    DirectoryResolved { found: bool },
    /// The attempt to write the context file ended.
    ContextWritten { written: bool },
    /// The operating system refused to start the process.
    LaunchRejected,
    /// The process was started and is not waited for.
    Detached,
    /// The process ran in the foreground and exited. `exit_code` is `None`
    /// where it was ended by a signal.
    Exited { exit_code: Option<i32>, stderr: String },
    /// The attempt to read the results file ended; `None` where the file is
    /// missing or does not hold a result list.
    ResultsRead { results: Option<Vec<ResultItem>> },
}

/// Model of [`InvocationEvent`].
pub enum InvocationEventModel {
    Started,
    DirectoryResolved { found: bool },
    ContextWritten { written: bool },
    LaunchRejected,
    Detached,
    Exited { exit_code: Option<i32>, stderr: Seq<char> },
    ResultsRead { results: Option<Seq<ResultItemModel>> },
}

impl DeepView for InvocationEvent {
    type V = InvocationEventModel;

    open spec fn deep_view(&self) -> InvocationEventModel {
        match self {
            InvocationEvent::Started => InvocationEventModel::Started,
            InvocationEvent::DirectoryResolved { found } => {
                InvocationEventModel::DirectoryResolved { found: *found }
            },
            InvocationEvent::ContextWritten { written } => InvocationEventModel::ContextWritten {
                written: *written,
            },
            InvocationEvent::LaunchRejected => InvocationEventModel::LaunchRejected,
            InvocationEvent::Detached => InvocationEventModel::Detached,
            InvocationEvent::Exited { exit_code, stderr } => InvocationEventModel::Exited {
                exit_code: *exit_code,
                stderr: stderr@,
            },
            InvocationEvent::ResultsRead { results } => InvocationEventModel::ResultsRead {
                results: results.deep_view(),
            },
        }
    }
}

impl View for InvocationEvent {
    type V = InvocationEventModel;

    open spec fn view(&self) -> InvocationEventModel {
        self.deep_view()
    }
}

/// What the caller is to do next. No action removes a file of the channel:
/// after a failed run the context stays where it was written.
#[derive(Debug, PartialEq, Eq)]
pub enum InvocationAction {
    /// Look up the directory of the extension; answer with
    /// `DirectoryResolved`.
    ResolveDirectory,
    /// Write the context to the context file, over what is there, after
    /// creating the scratch directory where it is missing; answer with
    /// `ContextWritten`.
    WriteContext,
    /// Start the extension's entry point in its directory; answer with
    /// `LaunchRejected`, or with `Exited` in the foreground and `Detached`
    /// in the background.
    Launch { mode: LaunchMode },
    /// Read the result list from the results file; answer with
    /// `ResultsRead`.
    ReadResults,
    /// Nothing more: the invocation came to `outcome`.
    Finish { outcome: Results },
}

/// Model of [`InvocationAction`].
pub enum InvocationActionModel {
    ResolveDirectory,
    WriteContext,
    Launch { mode: LaunchMode },
    ReadResults,
    Finish { outcome: ResultsModel },
}

impl DeepView for InvocationAction {
    type V = InvocationActionModel;

    open spec fn deep_view(&self) -> InvocationActionModel {
        match self {
            InvocationAction::ResolveDirectory => InvocationActionModel::ResolveDirectory,
            InvocationAction::WriteContext => InvocationActionModel::WriteContext,
            InvocationAction::Launch { mode } => InvocationActionModel::Launch { mode: *mode },
            InvocationAction::ReadResults => InvocationActionModel::ReadResults,
            InvocationAction::Finish { outcome } => InvocationActionModel::Finish {
                outcome: results_model(*outcome),
            },
        }
    }
}

impl View for InvocationAction {
    type V = InvocationActionModel;

    open spec fn view(&self) -> InvocationActionModel {
        self.deep_view()
    }
}

/// The invocation is over with `error`.
pub open spec fn failed(error: LauncherErrorModel) -> (
    InvocationStateModel,
    InvocationActionModel,
) {
    (InvocationStateModel::Finished, InvocationActionModel::Finish { outcome: Err(error) })
}

/// The next state and the next action of an invocation in `state`, started
/// in `mode`, on `event`.
///
/// The steps follow one another: directory, context file, launch, and, in
/// the foreground, the results file after an exit with status 0. A failed
/// step ends the invocation with its error. An event that does not answer
/// the last action shows that the channel is used by someone else: it ends
/// the invocation with `ChannelIOFailure`.
pub open spec fn advanced(
    state: InvocationStateModel,
    mode: LaunchMode,
    event: InvocationEventModel,
) -> (InvocationStateModel, InvocationActionModel) {
    match (state, event) {
        (InvocationStateModel::Created, InvocationEventModel::Started) => (
            InvocationStateModel::Locating,
            InvocationActionModel::ResolveDirectory,
        ),
        (InvocationStateModel::Locating, InvocationEventModel::DirectoryResolved { found }) => {
            if found {
                (InvocationStateModel::WritingContext, InvocationActionModel::WriteContext)
            } else {
                failed(LauncherErrorModel::ExtensionNotFound)
            }
        },
        (
            InvocationStateModel::WritingContext,
            InvocationEventModel::ContextWritten { written },
        ) => {
            if written {
                (InvocationStateModel::Launching, InvocationActionModel::Launch { mode })
            } else {
                failed(LauncherErrorModel::ChannelIOFailure)
            }
        },
        (InvocationStateModel::Launching, InvocationEventModel::LaunchRejected) => failed(
            LauncherErrorModel::ProcessLaunchFailure,
        ),
        (InvocationStateModel::Launching, InvocationEventModel::Detached) => {
            if mode == LaunchMode::Background {
                (
                    InvocationStateModel::Finished,
                    InvocationActionModel::Finish { outcome: Ok(Seq::empty()) },
                )
            } else {
                failed(LauncherErrorModel::ChannelIOFailure)
            }
        },
        (InvocationStateModel::Launching, InvocationEventModel::Exited { exit_code, stderr }) => {
            if mode == LaunchMode::Foreground {
                if exit_code == Some(0i32) {
                    (
                        InvocationStateModel::ReadingResults { stderr },
                        InvocationActionModel::ReadResults,
                    )
                } else {
                    failed(LauncherErrorModel::ExtensionExecutionFailed { exit_code, stderr })
                }
            } else {
                failed(LauncherErrorModel::ChannelIOFailure)
            }
        },
        (
            InvocationStateModel::ReadingResults { stderr },
            InvocationEventModel::ResultsRead { results },
        ) => {
            match results {
                Some(items) => (
                    InvocationStateModel::Finished,
                    InvocationActionModel::Finish { outcome: Ok(items) },
                ),
                None => failed(
                    LauncherErrorModel::ExtensionExecutionFailed { exit_code: Some(0i32), stderr },
                ),
            }
        },
        _ => failed(LauncherErrorModel::ChannelIOFailure),
    }
}

/// Ends the invocation with `error`.
fn fail(error: LauncherError) -> (next: (InvocationState, InvocationAction))
    ensures
        (next.0@, next.1@) == failed(error@),
{
    (InvocationState::Finished, InvocationAction::Finish { outcome: Err(error) })
}

/// Takes an invocation one step further: from its state and what the caller
/// observed to its next state and what the caller is to do next.
pub fn advance(state: InvocationState, mode: LaunchMode, event: InvocationEvent) -> (next: (
    InvocationState,
    InvocationAction,
))
    ensures
        (next.0@, next.1@) == advanced(state@, mode, event@),
{
    match state {
        InvocationState::Created => match event {
            InvocationEvent::Started => (
                InvocationState::Locating,
                InvocationAction::ResolveDirectory,
            ),
            _ => fail(LauncherError::ChannelIOFailure),
        },
        InvocationState::Locating => match event {
            InvocationEvent::DirectoryResolved { found } => {
                if found {
                    (InvocationState::WritingContext, InvocationAction::WriteContext)
                } else {
                    fail(LauncherError::ExtensionNotFound)
                }
            },
            _ => fail(LauncherError::ChannelIOFailure),
        },
        InvocationState::WritingContext => match event {
            InvocationEvent::ContextWritten { written } => {
                if written {
                    (InvocationState::Launching, InvocationAction::Launch { mode })
                } else {
                    fail(LauncherError::ChannelIOFailure)
                }
            },
            _ => fail(LauncherError::ChannelIOFailure),
        },
        InvocationState::Launching => match event {
            InvocationEvent::LaunchRejected => fail(LauncherError::ProcessLaunchFailure),
            InvocationEvent::Detached => match mode {
                LaunchMode::Background => {
                    let none: Vec<ResultItem> = Vec::new();
                    assert(none.deep_view() =~= Seq::<ResultItemModel>::empty());
                    (InvocationState::Finished, InvocationAction::Finish { outcome: Ok(none) })
                },
                LaunchMode::Foreground => fail(LauncherError::ChannelIOFailure),
            },
            InvocationEvent::Exited { exit_code, stderr } => match mode {
                LaunchMode::Foreground => {
                    let success = match exit_code {
                        Some(code) => code == 0,
                        None => false,
                    };
                    if success {
                        (InvocationState::ReadingResults { stderr }, InvocationAction::ReadResults)
                    } else {
                        fail(LauncherError::ExtensionExecutionFailed { exit_code, stderr })
                    }
                },
                LaunchMode::Background => fail(LauncherError::ChannelIOFailure),
            },
            _ => fail(LauncherError::ChannelIOFailure),
        },
        InvocationState::ReadingResults { stderr } => match event {
            InvocationEvent::ResultsRead { results } => match results {
                Some(items) => (
                    InvocationState::Finished,
                    InvocationAction::Finish { outcome: Ok(items) },
                ),
                None => fail(
                    LauncherError::ExtensionExecutionFailed { exit_code: Some(0), stderr },
                ),
            },
            _ => fail(LauncherError::ChannelIOFailure),
        },
        InvocationState::Finished => fail(LauncherError::ChannelIOFailure),
    }
}

/// The process is started only in answer to a context file that was
/// written, and only from the state that waits for that file.
pub proof fn lemma_launch_follows_context(
    state: InvocationStateModel,
    mode: LaunchMode,
    event: InvocationEventModel,
)
    ensures
        advanced(state, mode, event).1 is Launch ==> state is WritingContext && event
            == (InvocationEventModel::ContextWritten { written: true }),
        advanced(state, mode, event).1 is Launch ==> advanced(state, mode, event).1
            == (InvocationActionModel::Launch { mode }),
        advanced(state, mode, event).0 is Launching <==> advanced(state, mode, event).1 is Launch,
{
}

/// The results file is read only after the process exited with status 0 in
/// the foreground, and results are handed out only as they were read.
pub proof fn lemma_results_follow_success(
    state: InvocationStateModel,
    mode: LaunchMode,
    event: InvocationEventModel,
)
    ensures
        advanced(state, mode, event).1 is ReadResults ==> state is Launching && mode
            == LaunchMode::Foreground && event is Exited && event->exit_code == Some(0i32),
        mode == LaunchMode::Foreground ==> (advanced(state, mode, event).1 matches (
            InvocationActionModel::Finish { outcome: Ok(items) }
        ) ==> state is ReadingResults && event == (InvocationEventModel::ResultsRead {
            results: Some(items),
        })),
{
}

/// The number of actions that an invocation in `state` can still ask for.
pub open spec fn steps_left(state: InvocationStateModel) -> nat {
    match state {
        InvocationStateModel::Created => 5,
        InvocationStateModel::Locating => 4,
        InvocationStateModel::WritingContext => 3,
        InvocationStateModel::Launching => 2,
        InvocationStateModel::ReadingResults { .. } => 1,
        InvocationStateModel::Finished => 0,
    }
}

/// Every step brings an invocation nearer to its end, and it ends exactly
/// when it hands out its outcome: no invocation asks for more than five
/// actions, and none goes back to an earlier step.
pub proof fn lemma_invocation_ends(
    state: InvocationStateModel,
    mode: LaunchMode,
    event: InvocationEventModel,
)
    ensures
        advanced(state, mode, event).0 is Finished <==> advanced(state, mode, event).1 is Finish,
        !(state is Finished) ==> steps_left(advanced(state, mode, event).0) < steps_left(state),
        state is Finished ==> advanced(state, mode, event) == failed(
            LauncherErrorModel::ChannelIOFailure,
        ),
{
}

/// What the caller observes while it carries an invocation out: whether the
/// directory was found, whether the context was written, how the launch
/// ended, and what the results file held.
pub struct Observations {
    pub found: bool,
    pub written: bool,
    pub launch: InvocationEventModel,
    pub results: Option<Seq<ResultItemModel>>,
}

/// The outcome of an invocation in `state` that is taken further on `event`
/// and then has each of its actions answered in turn from `seen`.
pub open spec fn carried_out(
    state: InvocationStateModel,
    mode: LaunchMode,
    event: InvocationEventModel,
    seen: Observations,
) -> ResultsModel
    decreases steps_left(state),
{
    let next = advanced(state, mode, event);
    if state is Finished {
        Err(LauncherErrorModel::ChannelIOFailure)
    } else {
        match next.1 {
            InvocationActionModel::ResolveDirectory => carried_out(
                next.0,
                mode,
                InvocationEventModel::DirectoryResolved { found: seen.found },
                seen,
            ),
            InvocationActionModel::WriteContext => carried_out(
                next.0,
                mode,
                InvocationEventModel::ContextWritten { written: seen.written },
                seen,
            ),
            InvocationActionModel::Launch { .. } => carried_out(next.0, mode, seen.launch, seen),
            InvocationActionModel::ReadResults => carried_out(
                next.0,
                mode,
                InvocationEventModel::ResultsRead { results: seen.results },
                seen,
            ),
            InvocationActionModel::Finish { outcome } => outcome,
        }
    }
}

/// What an invocation comes to, by what was observed: without a directory
/// it fails with `ExtensionNotFound`, without a written context with
/// `ChannelIOFailure`, after a refused launch with `ProcessLaunchFailure`.
/// In the background it then yields no results. In the foreground it
/// yields the results that were read after an exit with status 0, and
/// fails with `ExtensionExecutionFailed` after any other exit and where
/// no results could be read.
pub open spec fn invocation_outcome(mode: LaunchMode, seen: Observations) -> ResultsModel {
    if !seen.found {
        Err(LauncherErrorModel::ExtensionNotFound)
    } else if !seen.written {
        Err(LauncherErrorModel::ChannelIOFailure)
    } else {
        match (mode, seen.launch) {
            (_, InvocationEventModel::LaunchRejected) => Err(
                LauncherErrorModel::ProcessLaunchFailure,
            ),
            (LaunchMode::Background, InvocationEventModel::Detached) => Ok(Seq::empty()),
            (LaunchMode::Foreground, InvocationEventModel::Exited { exit_code, stderr }) => {
                if exit_code != Some(0i32) {
                    Err(LauncherErrorModel::ExtensionExecutionFailed { exit_code, stderr })
                } else {
                    match seen.results {
                        Some(items) => Ok(items),
                        None => Err(
                            LauncherErrorModel::ExtensionExecutionFailed { exit_code, stderr },
                        ),
                    }
                }
            },
            _ => Err(LauncherErrorModel::ChannelIOFailure),
        }
    }
}

/// An invocation that is started and has each of its actions answered in
/// turn comes to the outcome that its observations call for.
pub proof fn lemma_invocation_comes_to_its_outcome(mode: LaunchMode, seen: Observations)
    ensures
        carried_out(InvocationStateModel::Created, mode, InvocationEventModel::Started, seen)
            == invocation_outcome(mode, seen),
{
    reveal_with_fuel(carried_out, 6);
}

/// A foreground process that exits with anything but status 0 ends the
/// invocation with `ExtensionExecutionFailed`, carrying its exit code and
/// what it printed.
pub proof fn lemma_failed_exit_is_reported(exit_code: Option<i32>, stderr: Seq<char>)
    requires
        exit_code != Some(0i32),
    ensures
        advanced(
            InvocationStateModel::Launching,
            LaunchMode::Foreground,
            InvocationEventModel::Exited { exit_code, stderr },
        ) == failed(LauncherErrorModel::ExtensionExecutionFailed { exit_code, stderr }),
{
}

} // verus!
