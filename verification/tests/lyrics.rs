use ferrosonic::lyrics::{parse_timestamp, LyricLine, ParsedLyrics};

fn line(ts: Option<u128>, text: &str) -> LyricLine {
    LyricLine { timestamp: ts, text: text.to_string() }
}

#[test]
fn parse_timestamp_minutes_seconds() {
    assert_eq!(parse_timestamp("01:02"), Some(62_000));
    assert_eq!(parse_timestamp("00:00"), Some(0));
}

#[test]
fn parse_timestamp_hundredths_and_millis() {
    assert_eq!(parse_timestamp("01:02.50"), Some(62_500));
    assert_eq!(parse_timestamp("01:02:05"), Some(62_050));
    assert_eq!(parse_timestamp("00:10.123"), Some(10_123));
}

#[test]
fn parse_timestamp_other_sub_second_lengths_are_ignored() {
    assert_eq!(parse_timestamp("00:10.1"), Some(10_000));
    assert_eq!(parse_timestamp("00:10.1234"), Some(10_000));
    assert_eq!(parse_timestamp("00:10."), Some(10_000));
    assert_eq!(parse_timestamp("00:10.5.7"), Some(10_000));
}

#[test]
fn parse_timestamp_rejects_non_numbers() {
    assert_eq!(parse_timestamp("ar:Artist"), None);
    assert_eq!(parse_timestamp("12"), None);
    assert_eq!(parse_timestamp(""), None);
    assert_eq!(parse_timestamp("00:1x"), None);
    assert_eq!(parse_timestamp("00:10.ab"), None);
    assert_eq!(parse_timestamp("-1:10"), None);
}

#[test]
fn parse_timestamp_plus_sign_and_byte_lengths() {
    // `str::parse::<u64>` accepts a leading '+'.
    assert_eq!(parse_timestamp("+1:+2"), Some(62_000));
    assert_eq!(parse_timestamp("00:01.+5"), Some(1_050));
    // A lone '+' is no number.
    assert_eq!(parse_timestamp("+:00"), None);
    // "é" takes two bytes, so it is read as hundredths and fails.
    assert_eq!(parse_timestamp("00:01.é"), None);
    // Seconds may exceed 59 and minutes are unbounded.
    assert_eq!(parse_timestamp("2:75"), Some(195_000));
}

#[test]
fn parse_timestamp_largest_u64_values() {
    assert_eq!(parse_timestamp("0:18446744073709551615"), Some(18_446_744_073_709_551_615u128 * 1000));
    assert_eq!(parse_timestamp("0:18446744073709551616"), None);
}

#[test]
fn parsed_lyrics_plain_text_is_not_synced() {
    let p = ParsedLyrics::new("Hello\n\n  World  \n");
    assert!(!p.is_synced);
    assert_eq!(p.lines, vec![line(None, "Hello"), line(None, "World")]);
}

#[test]
fn parsed_lyrics_synced_lines() {
    let p = ParsedLyrics::new("[00:01.00] First\n[00:02.50]Second\r\n[00:03]  \n");
    assert!(p.is_synced);
    assert_eq!(
        p.lines,
        vec![line(Some(1_000), "First"), line(Some(2_500), "Second"), line(Some(3_000), "")]
    );
}

#[test]
fn parsed_lyrics_are_sorted_stably_with_untimed_lines_first() {
    let p = ParsedLyrics::new("[00:05]E\n[ar:Someone]\n[00:01]A\nplain\n[00:05]F\n[00:03]C");
    assert!(p.is_synced);
    assert_eq!(
        p.lines,
        vec![
            line(None, "[ar:Someone]"),
            line(None, "plain"),
            line(Some(1_000), "A"),
            line(Some(3_000), "C"),
            line(Some(5_000), "E"),
            line(Some(5_000), "F"),
        ]
    );
}

#[test]
fn parsed_lyrics_bracket_without_close_or_timestamp() {
    let p = ParsedLyrics::new("[unclosed\n[xx]text");
    assert!(!p.is_synced);
    assert_eq!(p.lines, vec![line(None, "[unclosed"), line(None, "[xx]text")]);
}

#[test]
fn parsed_lyrics_empty_input() {
    let p = ParsedLyrics::new("");
    assert!(!p.is_synced);
    assert!(p.lines.is_empty());
    let d = ParsedLyrics::default();
    assert!(!d.is_synced && d.lines.is_empty());
}

#[test]
fn parsed_lyrics_unicode_whitespace_is_trimmed() {
    let p = ParsedLyrics::new("\u{3000}[00:01]\u{a0}Hi\u{2003}\n\t \u{85}");
    assert_eq!(p.lines, vec![line(Some(1_000), "Hi")]);
}

#[test]
fn current_index_follows_position() {
    let p = ParsedLyrics::new("[00:01]a\n[00:02]b\n[00:03]c");
    assert_eq!(p.current_index(0), Some(0));
    assert_eq!(p.current_index(999), Some(0));
    assert_eq!(p.current_index(1_000), Some(0));
    assert_eq!(p.current_index(2_000), Some(1));
    assert_eq!(p.current_index(2_999), Some(1));
    assert_eq!(p.current_index(60_000), Some(2));
}

#[test]
fn current_index_skips_untimed_lines() {
    let p = ParsedLyrics {
        lines: vec![line(Some(1_000), "a"), line(None, "x"), line(Some(3_000), "b"), line(None, "y")],
        is_synced: true,
    };
    assert_eq!(p.current_index(2_000), Some(0));
    assert_eq!(p.current_index(3_000), Some(2));
    assert_eq!(p.current_index(10_000), Some(2));
}

#[test]
fn current_index_none_when_not_synced_or_empty() {
    let p = ParsedLyrics::new("just text");
    assert_eq!(p.current_index(5_000), None);
    let e = ParsedLyrics { lines: vec![], is_synced: true };
    assert_eq!(e.current_index(5_000), None);
}

#[test]
fn current_index_never_moves_back_as_time_passes() {
    let p = ParsedLyrics::new("[00:01]a\n[00:04]b\n[00:02]c\nx\n[00:09]d");
    let mut last = 0;
    for ms in (0..12_000u128).step_by(250) {
        let idx = p.current_index(ms).unwrap();
        assert!(idx >= last);
        assert!(idx < p.lines.len());
        last = idx;
    }
}

#[test]
fn sorted_lyrics_keep_every_line() {
    let raw = "[00:09]z\n[00:01]a\nb\n[00:01]a\n[00:05]m";
    let p = ParsedLyrics::new(raw);
    let mut texts: Vec<String> = p.lines.iter().map(|l| l.text.clone()).collect();
    texts.sort();
    assert_eq!(texts, vec!["a", "a", "b", "m", "z"]);
    let keys: Vec<u128> = p.lines.iter().map(|l| l.timestamp.unwrap_or(0)).collect();
    assert!(keys.windows(2).all(|w| w[0] <= w[1]));
}
