use deezer_tui::text::{sanitize, MAX_FIELD_LEN, u64_to_string, parse_u64};

#[test]
fn strips_bel_and_escape() {
    assert_eq!(
        sanitize("Song\x07\x1b]52;c;cGF5bG9hZA==\x07"),
        "Song]52;c;cGF5bG9hZA=="
    );
    assert_eq!(sanitize("Song\x1b[2J"), "Song[2J");
}

#[test]
fn strips_newlines_and_c1() {
    assert_eq!(sanitize("Line\nBreak\r\t"), "LineBreak");
    assert_eq!(sanitize("A\u{0090}B"), "AB");
}

#[test]
fn keeps_normal_text_and_truncates() {
    assert_eq!(sanitize("Björk — Jóga (Live)"), "Björk — Jóga (Live)");
    assert_eq!(sanitize(&"a".repeat(250)).chars().count(), MAX_FIELD_LEN);
}

#[test]
fn sanitize_counts_kept_characters_not_dropped_ones() {
    let input = format!("{}{}", "\x07".repeat(50), "b".repeat(120));
    assert_eq!(sanitize(&input), "b".repeat(100));
    assert_eq!(sanitize(""), "");
}

#[test]
fn decimal_rendering_and_parsing() {
    assert_eq!(u64_to_string(0), "0");
    assert_eq!(u64_to_string(1234567890), "1234567890");
    assert_eq!(parse_u64("42"), Some(42));
    assert_eq!(parse_u64("+7"), Some(7));
    assert_eq!(parse_u64("18446744073709551615"), Some(u64::MAX));
    assert_eq!(parse_u64("18446744073709551616"), None);
    assert_eq!(parse_u64(""), None);
    assert_eq!(parse_u64("-1"), None);
    assert_eq!(parse_u64("12a"), None);
}
