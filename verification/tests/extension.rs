use whiskers_core::error::LauncherError;
use whiskers_core::extension::{
    advance, run_extension_action, ContextAction, Invocation, InvocationAction, InvocationContext,
    InvocationEvent, InvocationState, LaunchMode,
};
use whiskers_core::model::{ExtensionEntry, ResultAction, ResultItem, Settings};
use whiskers_core::router::{get_search_results, SearchStep};

fn item(label: &str) -> ResultItem {
    ResultItem::Text {
        label: label.to_string(),
        icon_path: None,
        tint_icon: false,
        action: ResultAction::OpenUrl { url: "https://example.com".to_string() },
    }
}

fn failure(error: LauncherError) -> (InvocationState, InvocationAction) {
    (InvocationState::Finished, InvocationAction::Finish { outcome: Err(error) })
}

fn exited(exit_code: Option<i32>, stderr: &str) -> InvocationEvent {
    InvocationEvent::Exited { exit_code, stderr: stderr.to_string() }
}

/// Answers each action of a foreground invocation as a well-behaved
/// extension would, and returns the actions in the order they came.
fn run_foreground(
    found: bool,
    written: bool,
    exit: Option<InvocationEvent>,
    results: Option<Vec<ResultItem>>,
) -> Vec<InvocationAction> {
    let mut actions = Vec::new();
    let mut state = InvocationState::Created;
    let mut event = InvocationEvent::Started;
    loop {
        let (next, action) = advance(state, LaunchMode::Foreground, event);
        state = next;
        event = match &action {
            InvocationAction::ResolveDirectory => InvocationEvent::DirectoryResolved { found },
            InvocationAction::WriteContext => InvocationEvent::ContextWritten { written },
            InvocationAction::Launch { .. } => match &exit {
                Some(e) => e.clone(),
                None => InvocationEvent::LaunchRejected,
            },
            InvocationAction::ReadResults => {
                InvocationEvent::ResultsRead { results: results.clone() }
            }
            InvocationAction::Finish { .. } => {
                actions.push(action);
                assert_eq!(state, InvocationState::Finished);
                return actions;
            }
        };
        actions.push(action);
    }
}

#[test]
fn context_built_for_results() {
    assert_eq!(
        InvocationContext::get_results("foo".to_string()),
        InvocationContext {
            action: ContextAction::GetResults,
            search_text: Some("foo".to_string()),
            extension_action: None,
            custom_args: None,
        }
    );
}

#[test]
fn context_built_for_an_action() {
    assert_eq!(
        InvocationContext::run_action("copy".to_string(), Some(vec!["a".to_string()])),
        InvocationContext {
            action: ContextAction::RunAction,
            search_text: None,
            extension_action: Some("copy".to_string()),
            custom_args: Some(vec!["a".to_string()]),
        }
    );
    assert_eq!(InvocationContext::run_action("copy".to_string(), None).custom_args, None);
}

#[test]
fn run_extension_action_runs_in_the_background() {
    assert_eq!(
        run_extension_action(
            "com.example.ext".to_string(),
            "copy".to_string(),
            Some(vec!["one".to_string(), "two".to_string()])
        ),
        Invocation {
            extension_id: "com.example.ext".to_string(),
            context: InvocationContext {
                action: ContextAction::RunAction,
                search_text: None,
                extension_action: Some("copy".to_string()),
                custom_args: Some(vec!["one".to_string(), "two".to_string()]),
            },
            mode: LaunchMode::Background,
        }
    );
}

#[test]
fn run_extension_action_without_args() {
    let invocation = run_extension_action("id".to_string(), "act".to_string(), None);
    assert_eq!(invocation.context.custom_args, None);
    assert_eq!(invocation.context.extension_action, Some("act".to_string()));
    assert_eq!(invocation.mode, LaunchMode::Background);
}

#[test]
fn successful_foreground_run_returns_the_results_read() {
    let actions =
        run_foreground(true, true, Some(exited(Some(0), "")), Some(vec![item("a"), item("b")]));
    assert_eq!(
        actions,
        vec![
            InvocationAction::ResolveDirectory,
            InvocationAction::WriteContext,
            InvocationAction::Launch { mode: LaunchMode::Foreground },
            InvocationAction::ReadResults,
            InvocationAction::Finish { outcome: Ok(vec![item("a"), item("b")]) },
        ]
    );
}

#[test]
fn context_is_written_before_the_launch() {
    let actions = run_foreground(true, true, Some(exited(Some(3), "boom")), None);
    let written = actions.iter().position(|a| *a == InvocationAction::WriteContext);
    let launched = actions.iter().position(|a| matches!(a, InvocationAction::Launch { .. }));
    assert_eq!(written, Some(1));
    assert_eq!(launched, Some(2));
}

#[test]
fn unwritten_context_prevents_the_launch() {
    let actions = run_foreground(true, false, Some(exited(Some(0), "")), Some(vec![]));
    assert_eq!(
        actions,
        vec![
            InvocationAction::ResolveDirectory,
            InvocationAction::WriteContext,
            InvocationAction::Finish { outcome: Err(LauncherError::ChannelIOFailure) },
        ]
    );
}

#[test]
fn missing_directory_is_extension_not_found() {
    let actions = run_foreground(false, true, Some(exited(Some(0), "")), Some(vec![]));
    assert_eq!(
        actions,
        vec![
            InvocationAction::ResolveDirectory,
            InvocationAction::Finish { outcome: Err(LauncherError::ExtensionNotFound) },
        ]
    );
}

#[test]
fn extension_exiting_non_zero_reports_execution_failed() {
    let settings = Settings {
        extensions: vec![ExtensionEntry { id: "ext-id".to_string(), keyword: "ext".to_string() }],
        search_engines: vec![],
        blacklist: vec![],
    };
    let invocation = match get_search_results("ext foo", Some(&settings), "/icons/search.svg") {
        Ok(SearchStep::Invoke { invocation }) => invocation,
        other => panic!("unexpected step {:?}", other),
    };
    assert_eq!(invocation.extension_id, "ext-id");
    assert_eq!(invocation.context, InvocationContext::get_results("foo".to_string()));
    assert_eq!(invocation.mode, LaunchMode::Foreground);
    let actions =
        run_foreground(true, true, Some(exited(Some(1), "traceback")), Some(vec![item("stale")]));
    assert_eq!(
        actions.last(),
        Some(&InvocationAction::Finish {
            outcome: Err(LauncherError::ExtensionExecutionFailed {
                exit_code: Some(1),
                stderr: "traceback".to_string(),
            })
        })
    );
    assert!(!actions.contains(&InvocationAction::ReadResults));
}

#[test]
fn extension_killed_by_a_signal_reports_execution_failed() {
    assert_eq!(
        advance(InvocationState::Launching, LaunchMode::Foreground, exited(None, "")),
        failure(LauncherError::ExtensionExecutionFailed { exit_code: None, stderr: String::new() })
    );
}

#[test]
fn unreadable_results_report_execution_failed() {
    let actions = run_foreground(true, true, Some(exited(Some(0), "warning")), None);
    assert_eq!(
        actions.last(),
        Some(&InvocationAction::Finish {
            outcome: Err(LauncherError::ExtensionExecutionFailed {
                exit_code: Some(0),
                stderr: "warning".to_string(),
            })
        })
    );
}

#[test]
fn rejected_launch_is_process_launch_failure() {
    let actions = run_foreground(true, true, None, None);
    assert_eq!(
        actions.last(),
        Some(&InvocationAction::Finish { outcome: Err(LauncherError::ProcessLaunchFailure) })
    );
}

#[test]
fn empty_result_list_is_a_success() {
    let actions = run_foreground(true, true, Some(exited(Some(0), "")), Some(vec![]));
    assert_eq!(actions.last(), Some(&InvocationAction::Finish { outcome: Ok(vec![]) }));
}

#[test]
fn background_run_ends_once_detached() {
    let mode = LaunchMode::Background;
    let (state, action) = advance(InvocationState::Created, mode, InvocationEvent::Started);
    assert_eq!(action, InvocationAction::ResolveDirectory);
    let (state, action) = advance(state, mode, InvocationEvent::DirectoryResolved { found: true });
    assert_eq!(action, InvocationAction::WriteContext);
    let (state, action) = advance(state, mode, InvocationEvent::ContextWritten { written: true });
    assert_eq!(action, InvocationAction::Launch { mode: LaunchMode::Background });
    assert_eq!(state, InvocationState::Launching);
    let (state, action) = advance(state, mode, InvocationEvent::Detached);
    assert_eq!(state, InvocationState::Finished);
    assert_eq!(action, InvocationAction::Finish { outcome: Ok(vec![]) });
}

#[test]
fn event_out_of_turn_ends_the_invocation() {
    let channel = || failure(LauncherError::ChannelIOFailure);
    let fg = LaunchMode::Foreground;
    let bg = LaunchMode::Background;
    assert_eq!(advance(InvocationState::Created, fg, exited(Some(0), "")), channel());
    assert_eq!(
        advance(InvocationState::Created, fg, InvocationEvent::ContextWritten { written: true }),
        channel()
    );
    assert_eq!(advance(InvocationState::Locating, fg, InvocationEvent::Started), channel());
    assert_eq!(advance(InvocationState::WritingContext, fg, InvocationEvent::Detached), channel());
    assert_eq!(advance(InvocationState::Launching, fg, InvocationEvent::Detached), channel());
    assert_eq!(advance(InvocationState::Launching, bg, exited(Some(0), "")), channel());
    assert_eq!(
        advance(
            InvocationState::Launching,
            fg,
            InvocationEvent::ResultsRead { results: Some(vec![item("early")]) }
        ),
        channel()
    );
    assert_eq!(
        advance(
            InvocationState::ReadingResults { stderr: String::new() },
            fg,
            exited(Some(0), "")
        ),
        channel()
    );
    assert_eq!(advance(InvocationState::Finished, fg, InvocationEvent::Started), channel());
}
