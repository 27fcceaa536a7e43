use whiskers_core::error::LauncherError;
use whiskers_core::extension::LaunchMode;
use whiskers_core::launcher::{
    extension_process, launch_desktop_entry, open_app, open_url, LaunchPlan, Platform, ProcessSpec,
};
use whiskers_core::model::{clone_optional_text, clone_optional_texts, clone_texts};

fn process(program: &str, args: Vec<&str>, working_dir: &str, hidden_window: bool) -> ProcessSpec {
    ProcessSpec {
        program: program.to_string(),
        args: args.into_iter().map(|a| a.to_string()).collect(),
        working_dir: working_dir.to_string(),
        hidden_window,
    }
}

#[test]
fn extension_runs_through_the_shell_on_linux() {
    let expected = process("sh", vec!["-c", "./extension"], "/home/u/ext/notes", false);
    assert_eq!(
        extension_process(Platform::Linux, "/home/u/ext/notes", LaunchMode::Foreground),
        Ok(expected.clone())
    );
    assert_eq!(
        extension_process(Platform::Linux, "/home/u/ext/notes", LaunchMode::Background),
        Ok(expected)
    );
}

#[test]
fn extension_runs_through_cmd_on_windows() {
    assert_eq!(
        extension_process(Platform::Windows, "C:\\ext\\notes", LaunchMode::Foreground),
        Ok(process("cmd", vec!["/C", "start /min extension"], "C:\\ext\\notes", false))
    );
}

#[test]
fn background_extension_hides_its_window_on_windows() {
    assert_eq!(
        extension_process(Platform::Windows, "C:\\ext\\notes", LaunchMode::Background),
        Ok(process("cmd", vec!["/C", "start /min extension"], "C:\\ext\\notes", true))
    );
}

#[test]
fn extension_cannot_run_on_other_platforms() {
    assert_eq!(
        extension_process(Platform::Other, "/ext", LaunchMode::Foreground),
        Err(LauncherError::UnsupportedPlatformOperation)
    );
    assert_eq!(
        extension_process(Platform::Other, "/ext", LaunchMode::Background),
        Err(LauncherError::UnsupportedPlatformOperation)
    );
}

#[test]
fn desktop_entry_is_launched_from_its_directory() {
    assert_eq!(
        launch_desktop_entry(
            Some("/usr/share/applications".to_string()),
            Some("firefox.desktop".to_string())
        ),
        Ok(LaunchPlan::Spawn {
            process: process(
                "gtk-launch",
                vec!["firefox.desktop"],
                "/usr/share/applications",
                false
            )
        })
    );
}

#[test]
fn desktop_entry_without_name_or_directory_cannot_launch() {
    assert_eq!(
        launch_desktop_entry(None, Some("firefox.desktop".to_string())),
        Err(LauncherError::ProcessLaunchFailure)
    );
    assert_eq!(
        launch_desktop_entry(Some("/usr".to_string()), None),
        Err(LauncherError::ProcessLaunchFailure)
    );
    assert_eq!(launch_desktop_entry(None, None), Err(LauncherError::ProcessLaunchFailure));
}

#[test]
fn open_app_on_linux_splits_the_path() {
    assert_eq!(
        open_app(Platform::Linux, "/usr/share/applications/firefox.desktop"),
        Ok(LaunchPlan::Spawn {
            process: process(
                "gtk-launch",
                vec!["firefox.desktop"],
                "/usr/share/applications",
                false
            )
        })
    );
}

#[test]
fn open_app_on_linux_with_a_bare_name() {
    assert_eq!(
        open_app(Platform::Linux, "firefox.desktop"),
        Ok(LaunchPlan::Spawn { process: process("gtk-launch", vec!["firefox.desktop"], "", false) })
    );
}

#[test]
fn open_app_on_linux_without_file_name_fails() {
    assert_eq!(open_app(Platform::Linux, "/"), Err(LauncherError::ProcessLaunchFailure));
    assert_eq!(open_app(Platform::Linux, ""), Err(LauncherError::ProcessLaunchFailure));
    assert_eq!(open_app(Platform::Linux, "/usr/.."), Err(LauncherError::ProcessLaunchFailure));
}

#[test]
fn open_app_on_windows_invokes_the_item() {
    assert_eq!(
        open_app(Platform::Windows, "C:\\Program Files\\App\\app.lnk"),
        Ok(LaunchPlan::PowerShell {
            script: "invoke-item 'C:\\Program Files\\App\\app.lnk'".to_string()
        })
    );
}

#[test]
fn open_app_elsewhere_is_unsupported() {
    assert_eq!(
        open_app(Platform::Other, "/Applications/Safari.app"),
        Err(LauncherError::UnsupportedPlatformOperation)
    );
}

#[test]
fn open_url_uses_the_system_opener() {
    assert_eq!(
        open_url("https://example.com/search?q=hello world".to_string()),
        LaunchPlan::OpenDefault { target: "https://example.com/search?q=hello world".to_string() }
    );
}

#[test]
fn text_copies_equal_what_was_copied() {
    let texts = vec!["a".to_string(), String::new(), "ünï".to_string()];
    assert_eq!(clone_texts(&texts), texts);
    assert_eq!(clone_texts(&vec![]), Vec::<String>::new());
    assert_eq!(clone_optional_texts(&Some(texts.clone())), Some(texts));
    assert_eq!(clone_optional_texts(&None), None);
    assert_eq!(clone_optional_text(&Some("x".to_string())), Some("x".to_string()));
    assert_eq!(clone_optional_text(&None), None);
}
