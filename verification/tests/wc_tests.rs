use ccwc::args::measure;
use ccwc::args::render;
use ccwc::args::request_from_kinds;
use ccwc::args::Args;
use ccwc::args::MeasurementKind;
use ccwc::count::add_whitespace_if_not_empty;
use ccwc::count::decimal_string;
use ccwc::count::Count;
use ccwc::counts::fetch_byte_count;
use ccwc::counts::fetch_char_count;
use ccwc::counts::fetch_line_count;
use ccwc::counts::fetch_word_count;

fn flags(bytes: bool, chars: bool, lines: bool, words: bool) -> Args {
    Args {
        should_display_bytes: bytes,
        should_display_chars: chars,
        should_display_lines: lines,
        should_display_words: words,
        file_path: None,
    }
}

#[test]
fn default_scenario_sample_file() {
    let args = flags(false, false, false, false);
    let line = args.execute("foo bar\nbaz\n", "sample.txt");
    assert_eq!(line, "2 3 12 sample.txt");
}

#[test]
fn bytes_flag_only_scenario() {
    let args = flags(true, false, false, false);
    let line = args.execute("foo bar\nbaz\n", "sample.txt");
    assert_eq!(line, "12 sample.txt");
}

#[test]
fn chars_flag_only_scenario() {
    let args = flags(false, true, false, false);
    let line = args.execute("foo bar\nbaz\n", "sample.txt");
    assert_eq!(line, "12 sample.txt");
}

#[test]
fn empty_standard_input_scenario() {
    let args = flags(false, false, false, false);
    let line = args.execute("", "");
    assert_eq!(line, "0 0 0 ");
}

#[test]
fn all_flags_scenario() {
    let args = flags(true, true, true, true);
    let line = args.execute("foo bar\nbaz\n", "sample.txt");
    assert_eq!(line, "2 3 12 12 sample.txt");
}

#[test]
fn chars_only_measures_only_chars() {
    let args = flags(false, true, false, false);
    let count = measure("foo bar\nbaz\n", &args);
    assert_eq!(count.chars, Some(12));
    assert_eq!(count.bytes, None);
    assert_eq!(count.lines, None);
    assert_eq!(count.words, None);
}

#[test]
fn empty_request_defaults_to_lines_words_bytes() {
    let args = flags(false, false, false, false);
    let count = measure("foo bar\nbaz\n", &args);
    assert_eq!(count.lines, Some(2));
    assert_eq!(count.words, Some(3));
    assert_eq!(count.bytes, Some(12));
    assert_eq!(count.chars, None);
}

#[test]
fn byte_count_reflects_multibyte_encoding() {
    assert_eq!(fetch_byte_count("h\u{e9}llo"), 6);
    assert_eq!(fetch_char_count("h\u{e9}llo"), 5);
    assert_eq!(fetch_byte_count(""), 0);
}

#[test]
fn ascii_byte_count_equals_char_count() {
    assert_eq!(fetch_byte_count("foo bar"), fetch_char_count("foo bar"));
    assert_eq!(fetch_byte_count("foo bar"), 7);
}

#[test]
fn whitespace_only_text_has_no_words() {
    assert_eq!(fetch_word_count(""), 0);
    assert_eq!(fetch_word_count(" \t\r\n"), 0);
    assert_eq!(fetch_word_count("   "), 0);
}

#[test]
fn words_are_maximal_nonseparator_runs() {
    assert_eq!(fetch_word_count("  foo   bar "), 2);
    assert_eq!(fetch_word_count("foo bar\nbaz\n"), 3);
    assert_eq!(fetch_word_count("one"), 1);
}

#[test]
fn line_count_without_terminator() {
    assert_eq!(fetch_line_count("abc"), 1);
    assert_eq!(fetch_line_count(""), 0);
}

#[test]
fn trailing_terminator_adds_no_line() {
    assert_eq!(fetch_line_count("abc\n"), 1);
    assert_eq!(fetch_line_count("a\nb"), 2);
    assert_eq!(fetch_line_count("\n\n"), 2);
}

#[test]
fn rendering_is_order_stable() {
    let one = request_from_kinds(&vec![
        MeasurementKind::Words,
        MeasurementKind::Bytes,
        MeasurementKind::Lines,
    ]);
    let two = request_from_kinds(&vec![
        MeasurementKind::Lines,
        MeasurementKind::Bytes,
        MeasurementKind::Words,
        MeasurementKind::Words,
    ]);
    let line_one = one.execute("foo bar\nbaz\n", "sample.txt");
    let line_two = two.execute("foo bar\nbaz\n", "sample.txt");
    assert_eq!(line_one, line_two);
    assert_eq!(line_one, "2 3 12 sample.txt");
}

#[test]
fn request_from_kinds_sets_exactly_named_flags() {
    let args = request_from_kinds(&vec![MeasurementKind::Chars, MeasurementKind::Lines]);
    assert!(args.should_display_chars);
    assert!(args.should_display_lines);
    assert!(!args.should_display_bytes);
    assert!(!args.should_display_words);
    assert!(args.file_path.is_none());
}

#[test]
fn count_renders_in_fixed_display_order() {
    let count = Count {
        bytes: Some(12345),
        chars: Some(7),
        lines: Some(0),
        words: Some(42),
    };
    assert_eq!(count.to_string(), "0 42 12345 7");
}

#[test]
fn empty_count_renders_empty() {
    assert_eq!(Count::new().to_string(), "");
}

#[test]
fn new_count_is_empty() {
    assert!(Count::new().is_empty());
    let mut count = Count::new();
    count.words = Some(1);
    assert!(!count.is_empty());
}

#[test]
fn decimal_rendering_exact_values() {
    assert_eq!(decimal_string(0), "0");
    assert_eq!(decimal_string(7), "7");
    assert_eq!(decimal_string(10), "10");
    assert_eq!(decimal_string(100), "100");
    assert_eq!(decimal_string(12345), "12345");
    assert_eq!(decimal_string(9876543210), "9876543210");
}

#[test]
fn whitespace_added_only_when_nonempty() {
    let mut buffer = String::new();
    add_whitespace_if_not_empty(&mut buffer);
    assert_eq!(buffer, "");
    buffer.push('x');
    add_whitespace_if_not_empty(&mut buffer);
    assert_eq!(buffer, "x ");
}

#[test]
fn render_keeps_trailing_space_for_empty_name() {
    let count = Count {
        bytes: Some(3),
        chars: None,
        lines: None,
        words: None,
    };
    assert_eq!(render(&count, ""), "3 ");
    assert_eq!(render(&count, "data.txt"), "3 data.txt");
}
