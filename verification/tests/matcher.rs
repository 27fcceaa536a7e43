use whiskers_core::matcher::{
    app_entry, app_result, contains_text, fits_matcher, match_apps, MAX_MATCH_CHARS,
};
use whiskers_core::model::{IndexedApp, ResultAction, ResultItem};

fn app(name: &str, exec_path: &str, icon_path: Option<&str>) -> IndexedApp {
    IndexedApp {
        name: name.to_string(),
        exec_path: exec_path.to_string(),
        icon_path: icon_path.map(|p| p.to_string()),
    }
}

fn opens(name: &str, exec_path: &str) -> ResultItem {
    ResultItem::Text {
        label: name.to_string(),
        icon_path: None,
        tint_icon: true,
        action: ResultAction::OpenApp { exec_path: exec_path.to_string() },
    }
}

fn catalogue() -> Vec<IndexedApp> {
    vec![
        app("Firefox", "/usr/bin/firefox", None),
        app("Files", "/usr/bin/nautilus", None),
        app("Terminal", "/usr/bin/gnome-terminal", None),
        app("Firewall", "/usr/bin/firewall-config", None),
    ]
}

#[test]
fn match_lists_matching_apps_in_list_order() {
    assert_eq!(
        match_apps("fire", &catalogue(), &vec![]),
        vec![opens("Firefox", "/usr/bin/firefox"), opens("Firewall", "/usr/bin/firewall-config")]
    );
}

#[test]
fn match_does_not_rank_by_quality() {
    let apps = vec![
        app("a-x-b-x-c", "/bin/loose", None),
        app("abc", "/bin/exact", None),
        app("xabcx", "/bin/inner", None),
    ];
    assert_eq!(
        match_apps("abc", &apps, &vec![]),
        vec![
            opens("a-x-b-x-c", "/bin/loose"),
            opens("abc", "/bin/exact"),
            opens("xabcx", "/bin/inner")
        ]
    );
}

#[test]
fn match_is_fuzzy() {
    assert_eq!(
        match_apps("trm", &catalogue(), &vec![]),
        vec![opens("Terminal", "/usr/bin/gnome-terminal")]
    );
}

#[test]
fn match_ignores_case_for_lowercase_text() {
    assert_eq!(
        match_apps("files", &catalogue(), &vec![]),
        vec![opens("Files", "/usr/bin/nautilus")]
    );
}

#[test]
fn match_respects_case_for_text_with_capitals() {
    assert_eq!(match_apps("fIles", &catalogue(), &vec![]), vec![]);
    assert_eq!(
        match_apps("Files", &catalogue(), &vec![]),
        vec![opens("Files", "/usr/bin/nautilus")]
    );
}

#[test]
fn match_without_hit_lists_nothing() {
    assert_eq!(match_apps("zzz", &catalogue(), &vec![]), vec![]);
    assert_eq!(match_apps("fire", &vec![], &vec![]), vec![]);
}

#[test]
fn blacklisted_app_is_never_listed() {
    let blacklist = vec!["/usr/bin/firefox".to_string()];
    assert_eq!(
        match_apps("fire", &catalogue(), &blacklist),
        vec![opens("Firewall", "/usr/bin/firewall-config")]
    );
    assert_eq!(match_apps("Firefox", &catalogue(), &blacklist), vec![]);
}

#[test]
fn blacklist_goes_by_the_whole_path() {
    let blacklist = vec!["/usr/bin/fire".to_string(), "firefox".to_string()];
    assert_eq!(
        match_apps("firefox", &catalogue(), &blacklist),
        vec![opens("Firefox", "/usr/bin/firefox")]
    );
}

#[test]
fn blacklist_removes_every_app_at_the_path() {
    let apps = vec![
        app("Firefox", "/usr/bin/firefox", None),
        app("Firefox Private", "/usr/bin/firefox", None),
        app("Firefox Nightly", "/opt/nightly/firefox", None),
    ];
    assert_eq!(
        match_apps("fire", &apps, &vec!["/usr/bin/firefox".to_string()]),
        vec![opens("Firefox Nightly", "/opt/nightly/firefox")]
    );
}

#[test]
fn app_result_carries_the_icon_and_tints_without_one() {
    assert_eq!(
        app_result(&app("Code", "/usr/bin/code", Some("/icons/code.png"))),
        ResultItem::Text {
            label: "Code".to_string(),
            icon_path: Some("/icons/code.png".to_string()),
            tint_icon: false,
            action: ResultAction::OpenApp { exec_path: "/usr/bin/code".to_string() },
        }
    );
    assert_eq!(app_result(&app("Code", "/usr/bin/code", None)), opens("Code", "/usr/bin/code"));
}

#[test]
fn app_entry_goes_by_the_score_alone() {
    let firefox = app("Firefox", "/usr/bin/firefox", None);
    assert_eq!(app_entry(&firefox, Some(92)), Some(opens("Firefox", "/usr/bin/firefox")));
    assert_eq!(app_entry(&firefox, Some(0)), Some(opens("Firefox", "/usr/bin/firefox")));
    assert_eq!(app_entry(&firefox, Some(-7)), Some(opens("Firefox", "/usr/bin/firefox")));
    assert_eq!(app_entry(&firefox, None), None);
}

#[test]
fn contains_text_compares_whole_texts() {
    let list = vec!["/a".to_string(), "/b/c".to_string()];
    assert!(contains_text(&list, &"/b/c".to_string()));
    assert!(contains_text(&list, &"/a".to_string()));
    assert!(!contains_text(&list, &"/b".to_string()));
    assert!(!contains_text(&list, &"/A".to_string()));
    assert!(!contains_text(&vec![], &"/a".to_string()));
}

#[test]
fn match_limit_leaves_room_for_long_names() {
    assert_eq!(MAX_MATCH_CHARS, 1_048_576);
    let long_name = "x".repeat(4096) + "needle";
    let apps = vec![app(&long_name, "/bin/long", None)];
    assert_eq!(match_apps("needle", &apps, &vec![]), vec![opens(&long_name, "/bin/long")]);
}

/// Whether the characters of `typed` occur in `name` in their order,
/// without regard to ASCII case unless `typed` holds an ASCII capital.
fn occurs_in_order(name: &str, typed: &str) -> bool {
    let exact = typed.chars().any(|c| c.is_ascii_uppercase());
    let mut wanted = typed.chars().peekable();
    for c in name.chars() {
        match wanted.peek() {
            Some(&p) if (exact && c == p) || (!exact && c.eq_ignore_ascii_case(&p)) => {
                wanted.next();
            }
            _ => {}
        }
    }
    wanted.peek().is_none()
}

#[test]
fn match_is_occurrence_in_order() {
    let names = [
        "",
        "a",
        "A",
        "Firefox",
        "firefox",
        "FIREFOX",
        "Files",
        "Visual Studio Code",
        "gnome-terminal",
        "Éditeur de texte",
        "éditeur",
        "İstanbul",
        "straße",
        "K",
        "\u{212A}elvin",
        "xfce4-terminal",
        "a-x-b-x-c",
        "cba",
        "aabbcc",
        "日本語 入力",
    ];
    let typed = [
        "", "a", "A", "fire", "Fire", "FIRE", "fF", "ff", "xof", "fox", "vsc", "VSC", "v s c",
        "term", "é", "É", "edit", "i", "İ", "ss", "ß", "k", "K", "\u{212A}", "abc", "cba",
        "abcc", "ccc", "日本", "本日", " ", "-", "firefoxx",
    ];
    for name in names {
        let apps = vec![app(name, "/bin/app", None)];
        for text in typed {
            let listed = !match_apps(text, &apps, &vec![]).is_empty();
            assert_eq!(listed, occurs_in_order(name, text), "{:?} for {:?}", name, text);
        }
    }
}

#[test]
fn match_lists_every_app_for_empty_text() {
    let listed = match_apps("", &catalogue(), &vec![]);
    assert_eq!(listed.len(), 4);
    assert_eq!(listed[0], opens("Firefox", "/usr/bin/firefox"));
    assert_eq!(listed[3], opens("Firewall", "/usr/bin/firewall-config"));
}

#[test]
fn fits_matcher_goes_by_the_number_of_characters() {
    assert!(fits_matcher("fire", &catalogue()));
    assert!(fits_matcher("", &vec![]));
    let at_limit = "é".repeat(MAX_MATCH_CHARS);
    let beyond = "é".repeat(MAX_MATCH_CHARS + 1);
    assert!(fits_matcher(&at_limit, &vec![app(&at_limit, "/bin/a", None)]));
    assert!(!fits_matcher(&beyond, &catalogue()));
    assert!(!fits_matcher("fire", &vec![app("Firefox", "/a", None), app(&beyond, "/b", None)]));
}
