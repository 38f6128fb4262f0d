use botlib::document::{fractions_short, Json, Number};

fn number(positive: bool, mantissa: u64, exponent: i16) -> Number {
    Number { positive, mantissa, exponent }
}

fn whole(n: u64) -> Json {
    Json::Number(number(true, n, 0), n.to_string())
}

#[test]
fn parse_rejects_text_that_is_not_json() {
    assert!(Json::parse("").is_none());
    assert!(Json::parse("{").is_none());
    assert!(Json::parse("{\"a\": }").is_none());
    assert!(Json::parse("<html></html>").is_none());
}

#[test]
fn parse_copies_every_kind_of_value() {
    assert_eq!(Json::parse("null"), Some(Json::Null));
    assert_eq!(Json::parse("true"), Some(Json::Bool(true)));
    assert_eq!(Json::parse("false"), Some(Json::Bool(false)));
    assert_eq!(Json::parse("\"abc\""), Some(Json::Text("abc".to_owned())));
    assert_eq!(
        Json::parse("\"a text that is longer than thirty bytes in all\""),
        Some(Json::Text("a text that is longer than thirty bytes in all".to_owned()))
    );
    assert_eq!(Json::parse("42"), Some(whole(42)));
    assert_eq!(
        Json::parse("-1.5"),
        Some(Json::Number(number(false, 15, -1), "-1.5".to_owned()))
    );
    assert_eq!(
        Json::parse("[1, \"x\", []]"),
        Some(Json::Array(vec![whole(1), Json::Text("x".to_owned()), Json::Array(vec![])]))
    );
    assert_eq!(
        Json::parse("{\"b\": 1, \"a\": {\"c\": null}}"),
        Some(Json::Object(vec![
            ("b".to_owned(), whole(1)),
            ("a".to_owned(), Json::Object(vec![("c".to_owned(), Json::Null)])),
        ]))
    );
}

#[test]
fn get_finds_members_of_objects_only() {
    let doc = Json::parse("{\"sprint\": {\"name\": \"S1\"}, \"n\": 3}").unwrap();
    assert_eq!(doc.get("sprint").get("name"), &Json::Text("S1".to_owned()));
    assert_eq!(doc.get("n"), &whole(3));
    assert_eq!(doc.get("missing"), &Json::Null);
    assert_eq!(doc.get("missing").get("deeper"), &Json::Null);
    assert_eq!(doc.get("n").get("x"), &Json::Null);
    assert_eq!(Json::Array(vec![Json::Null]).get("0"), &Json::Null);
}

#[test]
fn get_takes_the_first_member_of_a_key() {
    let doc = Json::Object(vec![
        ("k".to_owned(), Json::Bool(true)),
        ("k".to_owned(), Json::Bool(false)),
    ]);
    assert_eq!(doc.get("k"), &Json::Bool(true));
}

#[test]
fn items_of_arrays_only() {
    let list = Json::parse("[10, 20, 30]").unwrap();
    assert_eq!(list.item_count(), 3);
    assert_eq!(list.item(0), &whole(10));
    assert_eq!(list.item(2), &whole(30));
    assert_eq!(Json::parse("{\"a\": 1}").unwrap().item_count(), 0);
    assert_eq!(Json::Text("abc".to_owned()).item_count(), 0);
    assert_eq!(Json::Null.item_count(), 0);
}

#[test]
fn text_of_strings_only() {
    assert_eq!(Json::Text("abc".to_owned()).as_text(), Some("abc"));
    assert_eq!(Json::Text(String::new()).as_text(), Some(""));
    assert_eq!(Json::Null.as_text(), None);
    assert_eq!(Json::Bool(true).as_text(), None);
    assert_eq!(whole(1).as_text(), None);
}

#[test]
fn whole_number_of_numbers_only() {
    assert_eq!(Json::parse("36000").unwrap().whole_i64(), Some(36000));
    assert_eq!(Json::parse("36000.0").unwrap().whole_i64(), Some(36000));
    assert_eq!(Json::parse("-7").unwrap().whole_i64(), Some(-7));
    assert_eq!(Json::parse("\"36000\"").unwrap().whole_i64(), None);
    assert_eq!(Json::Null.whole_i64(), None);
    assert_eq!(Json::Bool(true).whole_i64(), None);
}

#[test]
fn whole_number_rounds_toward_zero() {
    assert_eq!(number(true, 35999, -1).whole_i64(), Some(3599));
    assert_eq!(number(false, 35999, -1).whole_i64(), Some(-3599));
    assert_eq!(number(true, 5, -1).whole_i64(), Some(0));
    assert_eq!(number(false, 5, -1).whole_i64(), Some(0));
    assert_eq!(number(true, 123456, -3).whole_i64(), Some(123));
    assert_eq!(number(true, u64::MAX, -19).whole_i64(), Some(1));
    assert_eq!(number(true, u64::MAX, -20).whole_i64(), Some(0));
    assert_eq!(number(true, u64::MAX, i16::MIN).whole_i64(), Some(0));
    assert_eq!(Json::parse("3.6e4").unwrap().whole_i64(), Some(36000));
    assert_eq!(Json::parse("1e-30").unwrap().whole_i64(), Some(0));
}

#[test]
fn whole_number_scales_by_the_exponent() {
    assert_eq!(number(true, 36, 3).whole_i64(), Some(36000));
    assert_eq!(number(false, 36, 3).whole_i64(), Some(-36000));
    assert_eq!(number(true, 0, 300).whole_i64(), Some(0));
    assert_eq!(number(false, 0, i16::MAX).whole_i64(), Some(0));
    assert_eq!(number(true, 1, 18).whole_i64(), Some(1_000_000_000_000_000_000));
}

#[test]
fn whole_number_that_fits_no_i64_is_none() {
    assert_eq!(number(true, i64::MAX as u64, 0).whole_i64(), Some(i64::MAX));
    assert_eq!(number(true, i64::MAX as u64 + 1, 0).whole_i64(), None);
    assert_eq!(number(false, i64::MAX as u64 + 1, 0).whole_i64(), Some(i64::MIN));
    assert_eq!(number(false, i64::MAX as u64 + 2, 0).whole_i64(), None);
    assert_eq!(number(true, u64::MAX, 0).whole_i64(), None);
    assert_eq!(number(true, 1, 19).whole_i64(), None);
    assert_eq!(number(true, 1, 20).whole_i64(), None);
    assert_eq!(number(true, 1, i16::MAX).whole_i64(), None);
    assert_eq!(number(false, 922337203685477581, 1).whole_i64(), None);
    assert_eq!(number(true, 922337203685477580, 1).whole_i64(), Some(9223372036854775800));
    assert_eq!(Json::parse("1e40").unwrap().whole_i64(), None);
}

#[test]
fn number_keeps_the_text_that_json_prints() {
    for (text, printed) in [
        ("7", "7"),
        ("-7", "-7"),
        ("1.50", "1.50"),
        ("36000.0", "36000.0"),
        ("0.25", "0.25"),
        ("1e3", "1000"),
        ("12e30", "1.2e31"),
    ] {
        match Json::parse(text) {
            Some(Json::Number(_, shown)) => assert_eq!(shown, printed, "{}", text),
            other => panic!("{:?}", other),
        }
    }
}

#[test]
fn number_with_a_long_fraction_is_not_read() {
    let zeros = |n: usize| "0".repeat(n);
    let short = format!("0.{}", zeros(32767));
    assert!(fractions_short(&short));
    assert_eq!(Json::parse(&short).unwrap().whole_i64(), Some(0));
    for text in [
        format!("0.{}", zeros(32768)),
        format!("0.{}", zeros(40000)),
        format!("{{\"value\": 0.{}}}", zeros(32769)),
        format!("[1, -0.{}, 2]", zeros(32768)),
        format!("12.{}", "5".repeat(32768)),
        format!("[\"a \\\" b\", 0.{}]", zeros(32768)),
        format!("{{\"0.{}\": 0.{}}}", zeros(5), zeros(32768)),
    ] {
        assert!(!fractions_short(&text));
        assert_eq!(Json::parse(&text), None);
    }
}

#[test]
fn long_runs_of_digits_elsewhere_are_read() {
    let zeros = |n: usize| "0".repeat(n);
    let in_a_string = format!("\"0.{}\"", zeros(40000));
    assert!(fractions_short(&in_a_string));
    assert_eq!(Json::parse(&in_a_string), Some(Json::Text(format!("0.{}", zeros(40000)))));
    let after_an_escape = format!("\"\\\"0.{}\"", zeros(40000));
    assert_eq!(
        Json::parse(&after_an_escape),
        Some(Json::Text(format!("\"0.{}", zeros(40000))))
    );
    let in_a_key = format!("{{\"1.{}\": true}}", zeros(32768));
    assert_eq!(Json::parse(&in_a_key).unwrap().item_count(), 0);
    assert_eq!(
        Json::parse(&in_a_key).unwrap().get(&format!("1.{}", zeros(32768))),
        &Json::Bool(true)
    );
    let whole = format!("[1{}]", zeros(32767));
    assert!(fractions_short(&whole));
    match Json::parse(&whole).unwrap().item(0) {
        Json::Number(n, _) => assert_eq!(n.whole_i64(), None),
        other => panic!("{:?}", other),
    }
    let split = format!("[0.{}, 0.{}]", zeros(32767), zeros(32767));
    assert_eq!(Json::parse(&split).unwrap().item_count(), 2);
    let exponent = format!("1e{}", zeros(40000));
    assert!(fractions_short(&exponent));
    assert!(Json::parse(&exponent).is_some());
}

#[test]
fn scan_goes_by_quotes_and_backslashes() {
    let zeros = "0".repeat(32768);
    assert!(fractions_short(""));
    assert!(fractions_short("{\"a\": [1, 22, 3.33]}"));
    assert!(fractions_short(&format!("\"\\\\\\\"0.{}\"", zeros)));
    assert!(!fractions_short(&format!("\"\\\\\"0.{}", zeros)));
    assert!(!fractions_short(&format!("\"\" 0.{}", zeros)));
    assert!(fractions_short(&format!("x.{}", zeros)));
    assert!(fractions_short(&format!(".{}", zeros)));
    assert!(fractions_short(&format!("0.{}x{}", "0".repeat(32767), "0".repeat(32767))));
    assert!(!fractions_short(&format!("0.1.{}", zeros)));
}

#[test]
fn long_text_without_long_runs_is_read() {
    let mut text = String::from("[");
    for i in 0..20000 {
        text.push_str(&format!("{{\"key\": \"BOT-{}\", \"n\": {}.5}},", i, i));
    }
    text.push_str("null]");
    assert!(text.len() > 400000);
    let doc = Json::parse(&text).unwrap();
    assert_eq!(doc.item_count(), 20001);
    assert_eq!(doc.item(19999).get("n").whole_i64(), Some(19999));
}
