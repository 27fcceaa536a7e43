//! The process launcher: which command starts an extension, opens an
//! application or opens a URL on each platform. Everything that differs
//! between platforms is decided here; the commands are run by the caller.

use crate::error::{LauncherError, LauncherErrorModel};
use crate::extension::LaunchMode;
use vstd::prelude::*;
use vstd::string::StringExecFns;

verus! {

/// The platform the launcher runs on.
#[derive(Debug, Clone, Copy, PartialEq, Eq)]
pub enum Platform {
    Linux,
    Windows,
    /// Any platform for which no launch command is known.
    Other,
}

/// A process to start: a program with its arguments, the directory it is
/// started in, and whether its window is to be kept out of sight.
#[derive(Debug, Clone, PartialEq, Eq)]
pub struct ProcessSpec {
    pub program: String,
    pub args: Vec<String>,
    pub working_dir: String,
    pub hidden_window: bool,
}

/// Model of [`ProcessSpec`].
pub struct ProcessSpecModel {
    pub program: Seq<char>,
    pub args: Seq<Seq<char>>,
    pub working_dir: Seq<char>,
    pub hidden_window: bool,
}

impl DeepView for ProcessSpec {
    type V = ProcessSpecModel;

    open spec fn deep_view(&self) -> ProcessSpecModel {
        ProcessSpecModel {
            program: self.program@,
            args: self.args.deep_view(),
            working_dir: self.working_dir@,
            hidden_window: self.hidden_window,
        }
    }
}

impl View for ProcessSpec {
    type V = ProcessSpecModel;

    open spec fn view(&self) -> ProcessSpecModel {
        self.deep_view()
    }
}

/// How something is opened.
#[derive(Debug, Clone, PartialEq, Eq)]
pub enum LaunchPlan {
    /// Start a process and do not wait for it.
    Spawn { process: ProcessSpec },
    /// Run a PowerShell script.
    PowerShell { script: String },
    /// Hand `target` to the opener that the system has for it, such as the
    /// default browser for a URL.
    OpenDefault { target: String },
}

/// Model of [`LaunchPlan`].
pub enum LaunchPlanModel {
    Spawn { process: ProcessSpecModel },
    PowerShell { script: Seq<char> },
    OpenDefault { target: Seq<char> },
}

impl DeepView for LaunchPlan {
    type V = LaunchPlanModel;

    open spec fn deep_view(&self) -> LaunchPlanModel {
        match self {
            LaunchPlan::Spawn { process } => LaunchPlanModel::Spawn { process: process@ },
            LaunchPlan::PowerShell { script } => LaunchPlanModel::PowerShell { script: script@ },
            LaunchPlan::OpenDefault { target } => LaunchPlanModel::OpenDefault { target: target@ },
        }
    }
}

impl View for LaunchPlan {
    type V = LaunchPlanModel;

    open spec fn view(&self) -> LaunchPlanModel {
        self.deep_view()
    }
}

/// The process that runs the entry point of the extension in
/// `extension_dir`: a shell that is started in that directory and runs the
/// file of the fixed name `extension`. In the background, on a platform
/// that would otherwise flash a console window, the window stays hidden.
/// `None` on a platform without such a command.
pub open spec fn extension_process_model(
    platform: Platform,
    extension_dir: Seq<char>,
    mode: LaunchMode,
) -> Option<ProcessSpecModel> {
    match platform {
        Platform::Linux => Some(
            ProcessSpecModel {
                program: "sh"@,
                args: seq!["-c"@, "./extension"@],
                working_dir: extension_dir,
                hidden_window: false,
            },
        ),
        Platform::Windows => Some(
            ProcessSpecModel {
                program: "cmd"@,
                args: seq!["/C"@, "start /min extension"@],
                working_dir: extension_dir,
                hidden_window: mode == LaunchMode::Background,
            },
        ),
        Platform::Other => None,
    }
}

/// The process that runs the entry point of the extension in
/// `extension_dir`; `UnsupportedPlatformOperation` on a platform without
/// such a command.
pub fn extension_process(platform: Platform, extension_dir: &str, mode: LaunchMode) -> (process:
    Result<ProcessSpec, LauncherError>)
    ensures
        match process {
            Ok(p) => extension_process_model(platform, extension_dir@, mode) == Some(p@),
            Err(e) => extension_process_model(platform, extension_dir@, mode) is None && e
                == LauncherError::UnsupportedPlatformOperation,
        },
{
    match platform {
        Platform::Linux => {
            let mut args: Vec<String> = Vec::new();
            args.push(String::from_str("-c"));
            args.push(String::from_str("./extension"));
            assert(args.deep_view() =~= seq!["-c"@, "./extension"@]);
            Ok(
                ProcessSpec {
                    program: String::from_str("sh"),
                    args,
                    working_dir: String::from_str(extension_dir),
                    hidden_window: false,
                },
            )
        },
        Platform::Windows => {
            let mut args: Vec<String> = Vec::new();
            args.push(String::from_str("/C"));
            args.push(String::from_str("start /min extension"));
            assert(args.deep_view() =~= seq!["/C"@, "start /min extension"@]);
            let hidden_window = match mode {
                LaunchMode::Background => true,
                LaunchMode::Foreground => false,
            };
            Ok(
                ProcessSpec {
                    program: String::from_str("cmd"),
                    args,
                    working_dir: String::from_str(extension_dir),
                    hidden_window,
                },
            )
        },
        Platform::Other => Err(LauncherError::UnsupportedPlatformOperation),
    }
}

/// How the desktop entry `file_name` in the directory `parent` is launched:
/// by `gtk-launch`, started in that directory. Where the path of the entry
/// has no last component, or no directory before it, nothing can be
/// launched.
pub open spec fn desktop_entry_plan(
    parent: Option<Seq<char>>,
    file_name: Option<Seq<char>>,
) -> Result<LaunchPlanModel, LauncherErrorModel> {
    match (parent, file_name) {
        (Some(dir), Some(name)) => Ok(
            LaunchPlanModel::Spawn {
                process: ProcessSpecModel {
                    program: "gtk-launch"@,
                    args: seq![name],
                    working_dir: dir,
                    hidden_window: false,
                },
            },
        ),
        _ => Err(LauncherErrorModel::ProcessLaunchFailure),
    }
}

/// The script that opens the item at `exec_path`.
pub open spec fn invoke_item_script(exec_path: Seq<char>) -> Seq<char> {
    "invoke-item '"@ + exec_path + "'"@
}

/// The model of a plan or of the reason there is none.
pub open spec fn plan_model(plan: Result<LaunchPlan, LauncherError>) -> Result<
    LaunchPlanModel,
    LauncherErrorModel,
> {
    match plan {
        Ok(p) => Ok(p@),
        Err(e) => Err(e@),
    }
}

/// How the desktop entry `file_name` in the directory `parent` is launched.
pub fn launch_desktop_entry(parent: Option<String>, file_name: Option<String>) -> (plan: Result<
    LaunchPlan,
    LauncherError,
>)
    ensures
        plan_model(plan) == desktop_entry_plan(parent.deep_view(), file_name.deep_view()),
{
    match parent {
        Some(dir) => match file_name {
            Some(name) => {
                let mut args: Vec<String> = Vec::new();
                args.push(name);
                assert(args.deep_view() =~= seq![name@]);
                Ok(
                    LaunchPlan::Spawn {
                        process: ProcessSpec {
                            program: String::from_str("gtk-launch"),
                            args,
                            working_dir: dir,
                            hidden_window: false,
                        },
                    },
                )
            },
            None => Err(LauncherError::ProcessLaunchFailure),
        },
        None => Err(LauncherError::ProcessLaunchFailure),
    }
}

/// The parent of `path` as std's `Path::parent` gives it: the path without
/// its last component, `None` where it has none to drop. Components are
/// told apart by the rules of the platform that the library is built for;
/// the path is only read, never looked up.
pub uninterp spec fn path_parent_of(path: Seq<char>) -> Option<Seq<char>>;

/// The file name of `path` as std's `Path::file_name` gives it: its last
/// component, `None` where the path ends in none that names a file.
/// Components are told apart by the rules of the platform that the library
/// is built for; the path is only read, never looked up.
pub uninterp spec fn path_file_name_of(path: Seq<char>) -> Option<Seq<char>>;

/// Calls `Path::parent` of std on `path`. Not proved: that the parent
/// depends on nothing but the characters of the path, and that the empty
/// path has none.
#[verifier::external_body]
fn path_parent(path: &str) -> (parent: Option<String>)
    ensures
        parent.deep_view() == path_parent_of(path@),
        path@.len() == 0 ==> parent is None,
{
    let parent = std::path::Path::new(path).parent()?;
    Some(parent.to_str()?.to_string())
}

/// Calls `Path::file_name` of std on `path`. Not proved: that the file
/// name depends on nothing but the characters of the path.
#[verifier::external_body]
fn path_file_name(path: &str) -> (name: Option<String>)
    ensures
        name.deep_view() == path_file_name_of(path@),
{
    let name = std::path::Path::new(path).file_name()?;
    Some(name.to_str()?.to_string())
}

/// How the application at `exec_path` is opened.
///
/// On Linux, `exec_path` is the path of a desktop entry: the entry is
/// launched by its file name from its directory, the two being the file
/// name and the parent of `exec_path`; a path that lacks either, as the
/// empty path does, cannot be launched. On Windows, a PowerShell script
/// invokes the item at the path. Elsewhere there is no way to open it.
pub fn open_app(platform: Platform, exec_path: &str) -> (plan: Result<LaunchPlan, LauncherError>)
    ensures
        platform == Platform::Linux ==> plan_model(plan) == desktop_entry_plan(
            path_parent_of(exec_path@),
            path_file_name_of(exec_path@),
        ),
        platform == Platform::Linux && exec_path@.len() == 0 ==> plan_model(plan) == Err::<
            LaunchPlanModel,
            _,
        >(LauncherErrorModel::ProcessLaunchFailure),
        platform == Platform::Windows ==> plan_model(plan) == Ok::<_, LauncherErrorModel>(
            LaunchPlanModel::PowerShell { script: invoke_item_script(exec_path@) },
        ),
        platform == Platform::Other ==> plan_model(plan) == Err::<LaunchPlanModel, _>(
            LauncherErrorModel::UnsupportedPlatformOperation,
        ),
{
    match platform {
        Platform::Linux => {
            let parent = path_parent(exec_path);
            let file_name = path_file_name(exec_path);
            launch_desktop_entry(parent, file_name)
        },
        Platform::Windows => {
            let mut script = String::from_str("invoke-item '");
            script.append(exec_path);
            script.append("'");
            Ok(LaunchPlan::PowerShell { script })
        },
        Platform::Other => Err(LauncherError::UnsupportedPlatformOperation),
    }
}

/// How `url` is opened: by the opener that the system has for it.
pub fn open_url(url: String) -> (plan: LaunchPlan)
    ensures
        plan@ == (LaunchPlanModel::OpenDefault { target: url@ }),
{
    LaunchPlan::OpenDefault { target: url }
}

} // verus!
