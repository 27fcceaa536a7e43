use whiskers_core::session::{is_wayland, names_wayland};

#[test]
fn wayland_session_is_recognised() {
    assert!(is_wayland(Some("wayland")));
}

#[test]
fn wayland_session_is_recognised_in_any_case() {
    assert!(is_wayland(Some("Wayland")));
    assert!(is_wayland(Some("WAYLAND")));
    assert!(is_wayland(Some("wAyLaNd")));
}

#[test]
fn other_sessions_are_not_wayland() {
    assert!(!is_wayland(Some("x11")));
    assert!(!is_wayland(Some("tty")));
    assert!(!is_wayland(Some("")));
    assert!(!is_wayland(Some("wayland ")));
    assert!(!is_wayland(Some("xwayland")));
}

#[test]
fn session_without_type_is_not_wayland() {
    assert!(!is_wayland(None));
}

#[test]
fn names_wayland_compares_exactly() {
    assert!(names_wayland("wayland"));
    assert!(!names_wayland("Wayland"));
    assert!(!names_wayland("waylan"));
    assert!(!names_wayland(""));
}
