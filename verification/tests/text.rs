use whiskers_core::text::{chars_of, is_whitespace, parse_typed_text, substitute, trim};

#[test]
fn whitespace_is_what_std_calls_whitespace() {
    let mut code: u32 = 0;
    while code <= 0x10FFFF {
        if let Some(c) = char::from_u32(code) {
            assert_eq!(is_whitespace(c), c.is_whitespace(), "U+{:04X}", code);
        }
        code += 1;
    }
}

#[test]
fn whitespace_holds_the_common_blanks() {
    assert!(is_whitespace(' '));
    assert!(is_whitespace('\t'));
    assert!(is_whitespace('\n'));
    assert!(is_whitespace('\r'));
    assert!(is_whitespace('\u{A0}'));
    assert!(is_whitespace('\u{3000}'));
    assert!(!is_whitespace('a'));
    assert!(!is_whitespace('\u{8}'));
    assert!(!is_whitespace('\u{200B}'));
    assert!(!is_whitespace('\u{180E}'));
}

#[test]
fn chars_of_keeps_every_character_in_order() {
    assert_eq!(chars_of(""), Vec::<char>::new());
    assert_eq!(chars_of("a b"), vec!['a', ' ', 'b']);
    assert_eq!(chars_of("héé✓"), vec!['h', 'é', 'é', '✓']);
}

#[test]
fn trim_drops_surrounding_whitespace_only() {
    assert_eq!(trim(""), "");
    assert_eq!(trim("   "), "");
    assert_eq!(trim("abc"), "abc");
    assert_eq!(trim("  hello world \t\n"), "hello world");
    assert_eq!(trim("\u{3000}a\u{A0}b\u{2003}"), "a\u{A0}b");
    assert_eq!(trim(" é "), "é");
}

#[test]
fn trim_agrees_with_std() {
    let samples = [
        "",
        " ",
        "a",
        " a",
        "a ",
        " a b ",
        "\t\ttabs\t",
        "\n\r mixed \u{85}\u{1680}",
        "\u{2028}line\u{2029}",
        "no-trim",
        "  inner   space  kept  ",
    ];
    for sample in samples {
        assert_eq!(trim(sample), sample.trim(), "{:?}", sample);
    }
}

#[test]
fn parse_without_space_is_all_keyword() {
    let parsed = parse_typed_text("firefox");
    assert_eq!(parsed.keyword, "firefox");
    assert_eq!(parsed.search_text, "");
    assert!(!parsed.has_keyword);
}

#[test]
fn parse_empty_text() {
    let parsed = parse_typed_text("");
    assert_eq!(parsed.keyword, "");
    assert_eq!(parsed.search_text, "");
    assert!(!parsed.has_keyword);
}

#[test]
fn parse_keyword_and_rest() {
    let parsed = parse_typed_text("g hello world");
    assert_eq!(parsed.keyword, "g");
    assert_eq!(parsed.search_text, "hello world");
    assert!(parsed.has_keyword);
}

#[test]
fn parse_trims_the_rest() {
    let parsed = parse_typed_text("yt    cats and dogs  ");
    assert_eq!(parsed.keyword, "yt");
    assert_eq!(parsed.search_text, "cats and dogs");
    assert!(parsed.has_keyword);
}

#[test]
fn parse_splits_at_the_first_space_only() {
    let parsed = parse_typed_text("a b c");
    assert_eq!(parsed.keyword, "a");
    assert_eq!(parsed.search_text, "b c");
}

#[test]
fn parse_leading_space_gives_an_empty_keyword() {
    let parsed = parse_typed_text(" fire");
    assert_eq!(parsed.keyword, "");
    assert_eq!(parsed.search_text, "fire");
    assert!(parsed.has_keyword);
}

#[test]
fn parse_trailing_space_gives_an_empty_search_text() {
    let parsed = parse_typed_text("g ");
    assert_eq!(parsed.keyword, "g");
    assert_eq!(parsed.search_text, "");
    assert!(parsed.has_keyword);
}

#[test]
fn parse_only_a_space_splits() {
    let parsed = parse_typed_text(" ");
    assert_eq!(parsed.keyword, "");
    assert_eq!(parsed.search_text, "");
    assert!(parsed.has_keyword);
}

#[test]
fn parse_tab_is_no_separator() {
    let parsed = parse_typed_text("g\thello");
    assert_eq!(parsed.keyword, "g\thello");
    assert!(!parsed.has_keyword);
}

#[test]
fn parse_keeps_characters_beyond_ascii() {
    let parsed = parse_typed_text("wörter  süße Grüße ");
    assert_eq!(parsed.keyword, "wörter");
    assert_eq!(parsed.search_text, "süße Grüße");
}

#[test]
fn substitute_replaces_the_placeholder() {
    assert_eq!(
        substitute("https://example.com/search?q=%s", "hello world"),
        "https://example.com/search?q=hello world"
    );
}

#[test]
fn substitute_replaces_every_placeholder() {
    assert_eq!(substitute("%s and %s", "x"), "x and x");
    assert_eq!(substitute("%s%s", "ab"), "abab");
    assert_eq!(substitute("a%sb%sc", ""), "abc");
}

#[test]
fn substitute_without_placeholder_copies_the_template() {
    assert_eq!(substitute("https://example.com/", "hello"), "https://example.com/");
    assert_eq!(substitute("", "hello"), "");
    assert_eq!(substitute("100%", "x"), "100%");
    assert_eq!(substitute("%S %d s%", "x"), "%S %d s%");
}

#[test]
fn substitute_does_not_encode_the_text() {
    assert_eq!(substitute("q=%s", "a&b=c d/é?#"), "q=a&b=c d/é?#");
}

#[test]
fn substitute_does_not_rescan_the_text() {
    assert_eq!(substitute("q=%s", "%s"), "q=%s");
    assert_eq!(substitute("%s!", "100%s"), "100%s!");
}

#[test]
fn substitute_takes_placeholders_from_the_left() {
    assert_eq!(substitute("%%s", "x"), "%x");
    assert_eq!(substitute("%%ss", "x"), "%xs");
    assert_eq!(substitute("%s%", "x"), "x%");
}

#[test]
fn substitute_agrees_with_std_replace() {
    let templates = ["", "%s", "a%sb", "%%s%s%", "no placeholder", "é%sé", "%s %s %s", "s%s%"];
    let texts = ["", "x", "%s", "two words", "ünï"];
    for template in templates {
        for text in texts {
            assert_eq!(substitute(template, text), template.replace("%s", text));
        }
    }
}
