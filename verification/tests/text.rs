use status_panel::bounded::{StatusText, MAX_TEXT_BYTES};
use status_panel::decimal::decimal_text;
use status_panel::report::format_error;
use status_panel::text::{is_white_space, trim_trailing_whitespace, truncate_to_boundary};

#[test]
fn white_space_is_what_std_counts_as_such() {
    let mut count = 0;
    for n in 0..=0x10ffff_u32 {
        if let Some(c) = char::from_u32(n) {
            assert_eq!(is_white_space(c), c.is_whitespace(), "code point {n:#x}");
            if is_white_space(c) {
                count += 1;
            }
        }
    }
    assert_eq!(count, 25);
    assert!(is_white_space(' '));
    assert!(is_white_space('\n'));
    assert!(is_white_space('\u{a0}'));
    assert!(!is_white_space('a'));
    assert!(!is_white_space('\u{200b}'));
}

#[test]
fn trim_strips_trailing_whitespace() {
    assert_eq!(trim_trailing_whitespace("Alice  \n"), "Alice");
    assert_eq!(trim_trailing_whitespace("Alice\t\r\n "), "Alice");
    assert_eq!(trim_trailing_whitespace("  Alice"), "  Alice");
    assert_eq!(trim_trailing_whitespace("A l i c e "), "A l i c e");
    assert_eq!(trim_trailing_whitespace(" \n\t"), "");
    assert_eq!(trim_trailing_whitespace(""), "");
    assert_eq!(trim_trailing_whitespace("caf\u{e9}\u{a0}\u{3000}"), "caf\u{e9}");
}

#[test]
fn trim_twice_is_trim_once() {
    let once = trim_trailing_whitespace("Alice  \n");
    assert_eq!(once, "Alice");
    assert_eq!(trim_trailing_whitespace(once), "Alice");
    for text in ["", " ", "a ", " a", "a \n b \n", "\u{2003}x\u{2003}"] {
        let once = trim_trailing_whitespace(text);
        assert_eq!(trim_trailing_whitespace(once), once);
    }
}

#[test]
fn trim_agrees_with_std() {
    for text in ["", "x", "x ", " x \u{85}", "tab\t", "nbsp\u{a0}", "zwsp\u{200b}", "\u{1680}"] {
        assert_eq!(trim_trailing_whitespace(text), text.trim_end());
    }
}

#[test]
fn truncation_keeps_short_text() {
    assert_eq!(truncate_to_boundary("", 32), "");
    assert_eq!(truncate_to_boundary("Alice", 32), "Alice");
    assert_eq!(truncate_to_boundary("Alice", 5), "Alice");
    let full = "01234567890123456789012345678901";
    assert_eq!(full.len(), 32);
    assert_eq!(truncate_to_boundary(full, 32), full);
}

#[test]
fn truncation_cuts_at_the_budget() {
    assert_eq!(truncate_to_boundary("Alice", 4), "Alic");
    assert_eq!(truncate_to_boundary("Alice", 0), "");
    let long = "0123456789012345678901234567890123456789";
    assert_eq!(truncate_to_boundary(long, 32), "01234567890123456789012345678901");
}

#[test]
fn truncation_stops_before_a_split_character() {
    // 31 ASCII bytes, then a two-byte character that would end at byte 33.
    let text = "0123456789012345678901234567890\u{e9}z";
    assert_eq!(truncate_to_boundary(text, 32), "0123456789012345678901234567890");
    // A four-byte character at each budget that would split it.
    let text = "ab\u{1f600}cd";
    assert_eq!(truncate_to_boundary(text, 2), "ab");
    assert_eq!(truncate_to_boundary(text, 3), "ab");
    assert_eq!(truncate_to_boundary(text, 4), "ab");
    assert_eq!(truncate_to_boundary(text, 5), "ab");
    assert_eq!(truncate_to_boundary(text, 6), "ab\u{1f600}");
    assert_eq!(truncate_to_boundary(text, 7), "ab\u{1f600}c");
    assert_eq!(truncate_to_boundary("\u{20ac}", 2), "");
}

#[test]
fn status_text_holds_what_fits() {
    assert_eq!(MAX_TEXT_BYTES, 32);
    let empty = StatusText::new();
    assert_eq!(empty.as_str(), "");
    assert!(empty.is_empty());
    assert_eq!(empty.len(), 0);

    let alice = StatusText::from_text("Alice").unwrap();
    assert_eq!(alice.as_str(), "Alice");
    assert_eq!(alice.len(), 5);
    assert!(!alice.is_empty());

    let full = "01234567890123456789012345678901";
    assert_eq!(StatusText::from_text(full).unwrap().as_str(), full);
    assert!(StatusText::from_text("012345678901234567890123456789012").is_none());
    // 17 two-byte characters take 34 bytes.
    assert!(StatusText::from_text(&"\u{e9}".repeat(17)).is_none());
    assert!(StatusText::from_text(&"\u{e9}".repeat(16)).is_some());
}

#[test]
fn status_text_truncates_what_does_not_fit() {
    let cut = StatusText::truncated_from("012345678901234567890123456789012345");
    assert_eq!(cut.as_str(), "01234567890123456789012345678901");
    let cut = StatusText::truncated_from(&"\u{20ac}".repeat(11));
    assert_eq!(cut.as_str(), "\u{20ac}".repeat(10));
    assert_eq!(cut.len(), 30);
    assert_eq!(StatusText::truncated_from("Alice").as_str(), "Alice");
}

#[test]
fn status_text_compares_by_characters() {
    let a = StatusText::from_text("Alice").unwrap();
    let b = StatusText::truncated_from("Alice");
    let c = StatusText::from_text("Alice ").unwrap();
    assert!(a.same_text(&b));
    assert!(!a.same_text(&c));
    assert!(a.same_text(&c.trim_end()));
    assert!(!StatusText::new().same_text(&a));
    assert!(StatusText::new().same_text(&StatusText::new()));
}

#[test]
fn status_text_push_stops_when_full() {
    let mut text = StatusText::new();
    for _ in 0..31 {
        assert!(text.push('a').is_ok());
    }
    assert_eq!(text.len(), 31);
    // Two bytes no longer fit; the text stays as it was.
    assert!(text.push('\u{e9}').is_err());
    assert_eq!(text.len(), 31);
    assert!(text.push('b').is_ok());
    assert_eq!(text.len(), 32);
    assert!(text.push('c').is_err());
    assert_eq!(text.as_str(), format!("{}b", "a".repeat(31)));
}

#[test]
fn status_text_trim_end() {
    let text = StatusText::from_text("Alice  \n").unwrap();
    let once = text.trim_end();
    assert_eq!(once.as_str(), "Alice");
    assert_eq!(once.trim_end().as_str(), "Alice");
}

#[test]
fn long_error_description_fits_the_panel() {
    let description = "x".repeat(200);
    let text = format_error("Err", &description);
    assert!(text.len() <= 32);
    assert_eq!(text.as_str(), format!("Err: {}", "x".repeat(27)));
    assert!(core::str::from_utf8(text.as_str().as_bytes()).is_ok());
}

#[test]
fn long_error_description_is_cut_between_characters() {
    // "Err: " takes 5 bytes; 13 two-byte characters take 26 more, a 14th would
    // end at byte 33.
    let description = "\u{e9}".repeat(100);
    let text = format_error("Err", &description);
    assert_eq!(text.as_str(), format!("Err: {}", "\u{e9}".repeat(13)));
    assert_eq!(text.len(), 31);
    // Three-byte characters: 9 of them take 27 bytes.
    let text = format_error("Err", &"\u{20ac}".repeat(70));
    assert_eq!(text.as_str(), format!("Err: {}", "\u{20ac}".repeat(9)));
    assert_eq!(text.len(), 32);
}

#[test]
fn short_error_is_shown_whole() {
    assert_eq!(format_error("Err", "timeout").as_str(), "Err: timeout");
    assert_eq!(format_error("SP Error", "404").as_str(), "SP Error: 404");
    assert_eq!(format_error("", "").as_str(), ": ");
}

#[test]
fn link_error_prefix_leaves_two_bytes() {
    let text = format_error("Failed to connect to network", "Disconnected");
    assert_eq!(text.as_str(), "Failed to connect to network: Di");
    assert_eq!(text.len(), 32);
}

#[test]
fn decimal_text_writes_digits() {
    assert_eq!(decimal_text(0), "0");
    assert_eq!(decimal_text(7), "7");
    assert_eq!(decimal_text(10), "10");
    assert_eq!(decimal_text(404), "404");
    assert_eq!(decimal_text(65535), "65535");
    assert_eq!(decimal_text(1234567890), "1234567890");
    assert_eq!(decimal_text(u64::MAX), "18446744073709551615");
}
