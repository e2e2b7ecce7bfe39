use friconvert::probe::{duration_from_probe, is_space_char, parse_duration};

const REPORT: &str = "Input #0, mov,mp4,m4a,3gp,3g2,mj2, from 'clip.mp4':\n  Metadata:\n    major_brand     : isom\n  Duration: 00:01:23.45, start: 0.000000, bitrate: 128 kb/s\n  Stream #0:0: Audio: aac\n";

#[test]
fn duration_is_read_from_the_duration_line() {
    assert_eq!(parse_duration(REPORT), "00:01:23.45");
}

#[test]
fn duration_line_alone() {
    let text = "  Duration: 00:01:23.45, start: 0.000000, bitrate: 128 kb/s";
    assert_eq!(parse_duration(text), "00:01:23.45");
}

#[test]
fn first_duration_line_wins() {
    let text = "a\n  Duration: 00:00:05.00, start: 0\n  Duration: 00:09:00.00, start: 0\n";
    assert_eq!(parse_duration(text), "00:00:05.00");
}

#[test]
fn carriage_returns_are_white_space() {
    let text = "header\r\n  Duration: 01:02:03.04,\r\nrest\r\n";
    assert_eq!(parse_duration(text), "01:02:03.04");
}

#[test]
fn no_duration_line_gives_zero() {
    assert_eq!(parse_duration("Input #0\n  Stream #0:0: Video: h264\n"), "0");
    assert_eq!(parse_duration(""), "0");
}

#[test]
fn marker_broken_over_two_lines_is_not_found() {
    assert_eq!(parse_duration("Dura\ntion: 00:00:01.00,"), "0");
}

#[test]
fn duration_line_with_one_word_gives_zero() {
    assert_eq!(parse_duration("  Duration:   \nnext line"), "0");
    assert_eq!(parse_duration("Duration:"), "0");
}

#[test]
fn second_word_is_taken_even_without_a_leading_marker_word() {
    assert_eq!(parse_duration("xDuration: 12.5 start"), "12.5");
}

#[test]
fn commas_around_the_word_are_stripped() {
    assert_eq!(parse_duration("Duration: ,,7.25,, x"), "7.25");
    assert_eq!(parse_duration("Duration: ,,, x"), "");
}

#[test]
fn unicode_white_space_separates_words() {
    assert_eq!(parse_duration("Duration:\u{3000}00:00:09.00,\u{a0}start"), "00:00:09.00");
    assert!(is_space_char('\u{2009}'));
    assert!(!is_space_char('\u{200b}'));
    assert!(!is_space_char('x'));
}

#[test]
fn failed_probe_gives_zero() {
    assert_eq!(duration_from_probe(None), "0");
    assert_eq!(duration_from_probe(Some(REPORT)), "00:01:23.45");
}
