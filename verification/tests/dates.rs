use botlib::date::{
    days_between, days_in_month, is_leap_year, ordinal, ordinal_suffix, parse_tracker_date,
    pretty_date, DateFields, DateTime,
};
use botlib::document::Json;
use botlib::error::{ReportError, ReportErrorReason};
use botlib::report::get_start_end_dates;
use chrono::{Datelike, NaiveDate, NaiveDateTime, NaiveTime, Timelike};

fn load_data() -> Json {
    Json::parse(
        r#"{
            "sprint": {
                "id": 7,
                "name": "Sprint 7",
                "startDate": "03/Jan/18 10:48 AM",
                "endDate": "17/Jan/18 10:48 AM"
            },
            "contents": {}
        }"#,
    )
    .unwrap()
}

fn naive(date: &DateTime) -> NaiveDateTime {
    let d = NaiveDate::from_ymd_opt(date.year(), date.month(), date.day()).unwrap();
    let t = NaiveTime::from_hms_opt(date.hour(), date.minute(), date.second()).unwrap();
    NaiveDateTime::new(d, t)
}

fn fields_of(date: NaiveDateTime) -> DateFields {
    DateFields {
        year: date.year(),
        month: date.month(),
        day: date.day(),
        hour: date.hour(),
        minute: date.minute(),
        second: date.second(),
        weekday: date.weekday().num_days_from_monday(),
        timestamp: date.and_utc().timestamp(),
    }
}

fn at(year: i32, month: u32, day: u32, hour: u32, minute: u32, second: u32) -> NaiveDateTime {
    NaiveDate::from_ymd_opt(year, month, day).unwrap().and_hms_opt(hour, minute, second).unwrap()
}

#[test]
fn parse_dates() {
    let d = NaiveDate::from_ymd_opt(2018, 1, 3).unwrap();
    let end_d = NaiveDate::from_ymd_opt(2018, 1, 17).unwrap();
    let t = NaiveTime::from_hms_opt(10, 48, 0).unwrap();

    let start = NaiveDateTime::new(d, t);
    let end = NaiveDateTime::new(end_d, t);
    let data = load_data();
    let (s, e) = get_start_end_dates(data.get("sprint")).unwrap();
    assert_eq!(naive(&s), start);
    assert_eq!(naive(&e), end);
}

#[test]
fn check_pretty_date() {
    let results = vec![
        "1st", "2nd", "3rd", "4th", "5th", "6th", "7th", "8th", "9th", "10th", "11th", "12th",
        "13th", "14th", "15th", "16th", "17th", "18th", "19th", "20th", "21st", "22nd", "23rd",
        "24th", "25th", "26th", "27th", "28th", "29th", "30th", "31st",
    ];

    for i in 0..results.len() {
        let day = parse_tracker_date(&format!("{:02}/Jan/18 12:00 AM", i + 1)).unwrap();
        assert_eq!(day.year(), 2018);
        assert_eq!(day.month(), 1);
        assert_eq!(day.day() as usize, i + 1);
        assert_eq!(results[i].to_string(), ordinal(&day));
    }
}

#[test]
fn tracker_date_gives_every_field() {
    let date = parse_tracker_date("03/Jan/18 10:48 AM").unwrap();
    assert_eq!(
        date.fields(),
        DateFields {
            year: 2018,
            month: 1,
            day: 3,
            hour: 10,
            minute: 48,
            second: 0,
            weekday: 2,
            timestamp: 1514976480,
        }
    );
}

#[test]
fn tracker_date_reads_afternoon_and_midnight() {
    let afternoon = parse_tracker_date("17/Jan/18 10:48 PM").unwrap();
    assert_eq!((afternoon.hour(), afternoon.minute()), (22, 48));
    let midnight = parse_tracker_date("01/Feb/18 12:05 AM").unwrap();
    assert_eq!((midnight.month(), midnight.hour(), midnight.minute()), (2, 0, 5));
    let noon = parse_tracker_date("01/Feb/18 12:05 PM").unwrap();
    assert_eq!(noon.hour(), 12);
}

#[test]
fn tracker_date_years_fall_between_1970_and_2069() {
    assert_eq!(parse_tracker_date("01/Dec/69 01:00 AM").unwrap().year(), 2069);
    assert_eq!(parse_tracker_date("01/Dec/70 01:00 AM").unwrap().year(), 1970);
}

#[test]
fn iso_date_is_a_bad_date() {
    assert_eq!(
        parse_tracker_date("2018-01-03"),
        Err(ReportError(ReportErrorReason::BadDate))
    );
}

#[test]
fn any_deviation_from_the_shape_is_a_bad_date() {
    let bad = ReportError(ReportErrorReason::BadDate);
    for text in [
        "",
        "3/Jan/18 10:48 AM",
        "03/jan/18 10:48 AM",
        "03/JAN/18 10:48 AM",
        "03/Jan/18 10:48 am",
        "03/Jan/18 10:48AM",
        "03/Jan/18  10:48 AM",
        " 03/Jan/18 10:48 AM",
        "03/Jan/18 10:48 AM ",
        "03/Jan/2018 10:48 AM",
        "03-Jan-18 10:48 AM",
        "03/Jan/18 10.48 AM",
        "03/January/18 10:48 AM",
        "03/Jan/18 10:48 XM",
    ] {
        assert_eq!(parse_tracker_date(text), Err(bad), "{:?}", text);
    }
}

#[test]
fn well_shaped_text_that_names_no_date_is_a_bad_date() {
    let bad = ReportError(ReportErrorReason::BadDate);
    for text in [
        "31/Feb/18 10:48 AM",
        "00/Jan/18 10:48 AM",
        "32/Jan/18 10:48 AM",
        "03/Foo/18 10:48 AM",
        "03/Jan/18 13:48 AM",
        "03/Jan/18 00:48 AM",
        "03/Jan/18 10:60 AM",
    ] {
        assert_eq!(parse_tracker_date(text), Err(bad), "{:?}", text);
    }
}

#[test]
fn leap_day_is_a_date_in_a_leap_year_only() {
    assert!(parse_tracker_date("29/Feb/20 09:00 AM").is_ok());
    assert!(parse_tracker_date("29/Feb/18 09:00 AM").is_err());
}

#[test]
fn suffix_table_for_the_days_of_a_month() {
    for day in 1..=31u32 {
        let expected = match day {
            1 | 21 | 31 => "st",
            2 | 22 => "nd",
            3 | 23 => "rd",
            _ => "th",
        };
        assert_eq!(ordinal_suffix(day), expected, "day {}", day);
    }
}

#[test]
fn suffix_goes_by_the_last_two_digits() {
    assert_eq!(ordinal_suffix(0), "th");
    assert_eq!(ordinal_suffix(101), "st");
    assert_eq!(ordinal_suffix(111), "th");
    assert_eq!(ordinal_suffix(112), "th");
    assert_eq!(ordinal_suffix(113), "th");
    assert_eq!(ordinal_suffix(122), "nd");
}

#[test]
fn pretty_date_names_weekday_month_day_and_year() {
    let start = parse_tracker_date("03/Jan/18 10:48 AM").unwrap();
    assert_eq!(pretty_date(&start), "Wednesday, January 3rd, 2018");
    let end = parse_tracker_date("22/Sep/19 11:59 PM").unwrap();
    assert_eq!(pretty_date(&end), "Sunday, September 22nd, 2019");
}

#[test]
fn pretty_date_agrees_with_chrono_on_every_day_of_a_year() {
    let mut day = NaiveDate::from_ymd_opt(2020, 1, 1).unwrap();
    while day < NaiveDate::from_ymd_opt(2021, 1, 1).unwrap() {
        let text = day.format("%d/%b/%y 08:30 AM").to_string();
        let date = parse_tracker_date(&text).unwrap();
        let expected = format!(
            "{} {}, {}",
            day.format("%A, %B"),
            ordinal(&date),
            day.format("%Y")
        );
        assert_eq!(pretty_date(&date), expected);
        day = day.succ_opt().unwrap();
    }
}

#[test]
fn from_fields_takes_the_fields_of_a_date_only() {
    let fields = DateFields {
        year: 2018,
        month: 1,
        day: 3,
        hour: 10,
        minute: 48,
        second: 0,
        weekday: 2,
        timestamp: 1514976480,
    };
    let date = DateTime::from_fields(fields).unwrap();
    assert_eq!(date.fields(), fields);
    assert_eq!(date.weekday(), 2);
    assert_eq!(date.timestamp(), 1514976480);
    assert_eq!(Ok(date), parse_tracker_date("03/Jan/18 10:48 AM"));
    assert!(DateTime::from_fields(DateFields { month: 0, ..fields }).is_none());
    assert!(DateTime::from_fields(DateFields { month: 13, ..fields }).is_none());
    assert!(DateTime::from_fields(DateFields { day: 0, ..fields }).is_none());
    assert!(DateTime::from_fields(DateFields { day: 32, ..fields }).is_none());
    assert!(DateTime::from_fields(DateFields { hour: 24, ..fields }).is_none());
    assert!(DateTime::from_fields(DateFields { minute: 60, ..fields }).is_none());
    assert!(DateTime::from_fields(DateFields { second: 60, ..fields }).is_none());
    assert!(DateTime::from_fields(DateFields { weekday: 7, ..fields }).is_none());
}

#[test]
fn from_fields_refuses_a_day_that_the_month_has_not() {
    let feb = fields_of(at(2018, 2, 28, 0, 0, 0));
    assert!(DateTime::from_fields(feb).is_some());
    for day in 29..=31 {
        for weekday in 0..7 {
            let fields = DateFields {
                day,
                weekday,
                timestamp: feb.timestamp + (day - 28) as i64 * 86400,
                ..feb
            };
            assert!(DateTime::from_fields(fields).is_none());
        }
    }
    let monday = DateFields {
        year: 2018,
        month: 2,
        day: 31,
        hour: 0,
        minute: 0,
        second: 0,
        weekday: 0,
        timestamp: 0,
    };
    assert!(DateTime::from_fields(monday).is_none());
    let april = fields_of(at(2018, 4, 30, 0, 0, 0));
    let fields = DateFields { day: 31, weekday: 1, timestamp: april.timestamp + 86400, ..april };
    assert!(DateTime::from_fields(fields).is_none());
}

#[test]
fn from_fields_refuses_a_weekday_or_time_stamp_of_another_day() {
    let fields = fields_of(at(2018, 1, 3, 10, 48, 0));
    assert!(DateTime::from_fields(fields).is_some());
    for weekday in [0, 1, 3, 4, 5, 6] {
        assert!(DateTime::from_fields(DateFields { weekday, ..fields }).is_none());
    }
    for shift in [-86400, -1, 1, 60, 3600, 86400, 7 * 86400] {
        let timestamp = fields.timestamp + shift;
        assert!(DateTime::from_fields(DateFields { timestamp, ..fields }).is_none());
    }
    assert!(DateTime::from_fields(DateFields { timestamp: 0, ..fields }).is_none());
}

#[test]
fn from_fields_refuses_a_year_outside_the_calendar() {
    let first = fields_of(at(-262143, 1, 1, 0, 0, 0));
    assert!(DateTime::from_fields(first).is_some());
    let last = fields_of(at(262142, 12, 31, 23, 59, 59));
    assert!(DateTime::from_fields(last).is_some());
    let before = DateFields {
        year: -262144,
        month: 12,
        day: 31,
        weekday: (first.weekday + 6) % 7,
        timestamp: first.timestamp - 86400,
        ..first
    };
    assert!(DateTime::from_fields(before).is_none());
    let after = DateFields {
        year: 262143,
        month: 1,
        day: 1,
        hour: 0,
        minute: 0,
        second: 0,
        weekday: (last.weekday + 1) % 7,
        timestamp: last.timestamp + 1,
    };
    assert!(DateTime::from_fields(after).is_none());
    assert!(DateTime::from_fields(DateFields { year: i32::MAX, ..after }).is_none());
    assert!(DateTime::from_fields(DateFields { year: i32::MIN, ..before }).is_none());
}

#[test]
fn calendar_agrees_with_chrono_on_every_day_of_six_centuries() {
    let mut day = NaiveDate::from_ymd_opt(1600, 1, 1).unwrap();
    let end = NaiveDate::from_ymd_opt(2200, 1, 1).unwrap();
    let mut count = 0u32;
    while day < end {
        let moment = day.and_hms_opt(count % 24, count % 60, (count / 7) % 60).unwrap();
        let fields = fields_of(moment);
        assert_eq!(DateTime::from_fields(fields).map(|d| d.fields()), Some(fields), "{}", moment);
        day = day.succ_opt().unwrap();
        count += 1;
    }
}

#[test]
fn calendar_agrees_with_chrono_round_the_year_zero_and_at_its_ends() {
    for (from, to) in [(-401, 401), (-262143, -262140), (262140, 262142), (-100004, -99996)] {
        let mut day = NaiveDate::from_ymd_opt(from, 1, 1).unwrap();
        let end = NaiveDate::from_ymd_opt(to, 12, 31).unwrap();
        while day <= end {
            let fields = fields_of(day.and_hms_opt(23, 59, 59).unwrap());
            assert_eq!(DateTime::from_fields(fields).map(|d| d.fields()), Some(fields), "{}", day);
            match day.succ_opt() {
                Some(next) => day = next,
                None => break,
            }
        }
    }
}

#[test]
fn leap_years_and_month_lengths() {
    for (year, leap) in [
        (2000, true),
        (1900, false),
        (2018, false),
        (2020, true),
        (2100, false),
        (0, true),
        (-4, true),
        (-1, false),
        (-100, false),
        (-400, true),
        (i32::MAX, false),
        (i32::MIN, true),
    ] {
        assert_eq!(is_leap_year(year), leap, "{}", year);
        assert_eq!(days_in_month(year, 2), if leap { 29 } else { 28 });
    }
    let lengths = [31, 28, 31, 30, 31, 30, 31, 31, 30, 31, 30, 31];
    for month in 1..=12u32 {
        assert_eq!(days_in_month(2018, month), lengths[month as usize - 1]);
    }
}

#[test]
fn pretty_date_writes_the_year_as_chrono_does() {
    for (year, text) in [
        (18, "0018"),
        (0, "0000"),
        (7, "0007"),
        (999, "0999"),
        (1000, "1000"),
        (9999, "9999"),
        (10000, "+10000"),
        (262142, "+262142"),
        (-1, "-0001"),
        (-18, "-0018"),
        (-9999, "-9999"),
        (-262143, "-262143"),
    ] {
        let moment = at(year, 1, 1, 0, 0, 0);
        let date = DateTime::from_fields(fields_of(moment)).unwrap();
        assert_eq!(moment.format("%Y").to_string(), text);
        let expected = format!("{} 1st, {}", moment.format("%A, %B"), text);
        assert_eq!(pretty_date(&date), expected);
    }
    let date = DateTime::from_fields(fields_of(at(18, 1, 1, 0, 0, 0))).unwrap();
    assert_eq!(pretty_date(&date), "Monday, January 1st, 0018");
}

#[test]
fn pretty_date_is_the_same_all_day() {
    let morning = DateTime::from_fields(fields_of(at(2018, 1, 3, 0, 0, 0))).unwrap();
    let night = DateTime::from_fields(fields_of(at(2018, 1, 3, 23, 59, 59))).unwrap();
    assert_ne!(morning, night);
    assert_eq!(pretty_date(&morning), pretty_date(&night));
}

#[test]
fn days_between_rounds_toward_zero() {
    assert_eq!(days_between(0, 86400 * 14), 14);
    assert_eq!(days_between(0, 86400 * 14 - 1), 13);
    assert_eq!(days_between(0, 86399), 0);
    assert_eq!(days_between(86399, 0), 0);
    assert_eq!(days_between(86400, 0), -1);
    assert_eq!(days_between(86400 * 3 + 5, 0), -3);
    assert_eq!(days_between(i64::MIN, i64::MAX), 213503982334601);
    assert_eq!(days_between(i64::MAX, i64::MIN), -213503982334601);
}

#[test]
fn days_between_two_tracker_dates() {
    let start = parse_tracker_date("03/Jan/18 10:48 AM").unwrap();
    let end = parse_tracker_date("17/Jan/18 10:48 AM").unwrap();
    assert_eq!(days_between(start.timestamp(), end.timestamp()), 14);
    let late = parse_tracker_date("03/Jan/18 10:49 AM").unwrap();
    assert_eq!(days_between(late.timestamp(), end.timestamp()), 13);
}
