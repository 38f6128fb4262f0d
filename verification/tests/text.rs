use botlib::text::{chars_of, contains, decimal, is_space, same_text, split_words};

#[test]
fn decimal_writes_whole_numbers() {
    assert_eq!(decimal(0), "0");
    assert_eq!(decimal(7), "7");
    assert_eq!(decimal(10), "10");
    assert_eq!(decimal(2018), "2018");
    assert_eq!(decimal(-1), "-1");
    assert_eq!(decimal(-120), "-120");
    assert_eq!(decimal(i128::MAX), i128::MAX.to_string());
    assert_eq!(decimal(i128::MIN), i128::MIN.to_string());
    assert_eq!(decimal(i64::MIN as i128), i64::MIN.to_string());
}

#[test]
fn chars_of_keeps_every_character() {
    assert_eq!(chars_of(""), Vec::<char>::new());
    assert_eq!(chars_of("a\u{e9}\u{4e16}b"), vec!['a', '\u{e9}', '\u{4e16}', 'b']);
}

#[test]
fn same_text_compares_character_by_character() {
    assert!(same_text("", ""));
    assert!(same_text("report", "report"));
    assert!(!same_text("report", "Report"));
    assert!(!same_text("report", "reports"));
    assert!(!same_text("reports", "report"));
}

#[test]
fn contains_finds_a_text_anywhere() {
    assert!(contains("<@U123> report 1 2", "U123"));
    assert!(contains("report 1 2 <@U123>", "U123"));
    assert!(contains("U123", "U123"));
    assert!(!contains("U12", "U123"));
    assert!(!contains("<@U124> report", "U123"));
    assert!(!contains("", "U123"));
    assert!(contains("aab", "ab"));
    assert!(contains("h\u{e9}llo w\u{f6}rld", "w\u{f6}r"));
}

#[test]
fn every_text_contains_the_empty_text() {
    assert!(contains("", ""));
    assert!(contains("anything", ""));
}

#[test]
fn white_space_is_what_unicode_calls_so() {
    for code in 0..=0x10FFFFu32 {
        if let Some(c) = char::from_u32(code) {
            assert_eq!(is_space(c), c.is_whitespace(), "U+{:04X}", code);
        }
    }
}

#[test]
fn split_words_cuts_at_any_run_of_white_space() {
    assert_eq!(split_words("<@U1> report 12 34"), vec!["<@U1>", "report", "12", "34"]);
    assert_eq!(split_words("  a \t b\n\nc  "), vec!["a", "b", "c"]);
    assert_eq!(split_words("one"), vec!["one"]);
    assert_eq!(split_words("a\u{a0}b\u{3000}c"), vec!["a", "b", "c"]);
}

#[test]
fn split_words_of_blank_text_is_empty() {
    assert_eq!(split_words(""), Vec::<String>::new());
    assert_eq!(split_words(" \t\n "), Vec::<String>::new());
}

#[test]
fn split_words_agrees_with_split_whitespace() {
    for text in [
        "",
        " ",
        "a",
        " a",
        "a ",
        "report 1 2",
        "\u{2003}x\u{2003}\u{2003}y z\r\n",
        "<@U024BE7LH> report   7\t42 extra",
    ] {
        let expected: Vec<String> = text.split_whitespace().map(|s| s.to_owned()).collect();
        assert_eq!(split_words(text), expected, "{:?}", text);
    }
}
