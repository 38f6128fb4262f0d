use botlib::measure::{percent_tenths, percent_text, whole_hours};

#[test]
fn whole_hours_round_toward_zero() {
    assert_eq!(whole_hours(0), 0);
    assert_eq!(whole_hours(3599), 0);
    assert_eq!(whole_hours(3600), 1);
    assert_eq!(whole_hours(36000), 10);
    assert_eq!(whole_hours(7199), 1);
    assert_eq!(whole_hours(-3599), 0);
    assert_eq!(whole_hours(-3600), -1);
    assert_eq!(whole_hours(-7199), -1);
    assert_eq!(whole_hours(i64::MAX as i128), 2562047788015215);
}

#[test]
fn shares_of_ten_and_five_hours_in_fifteen() {
    assert_eq!(percent_tenths(10, 15), Some(667));
    assert_eq!(percent_tenths(5, 15), Some(333));
    assert_eq!(percent_text(10, 15), "66.7%");
    assert_eq!(percent_text(5, 15), "33.3%");
}

#[test]
fn share_in_a_total_of_zero_is_not_available() {
    assert_eq!(percent_tenths(0, 0), None);
    assert_eq!(percent_tenths(5, 0), None);
    assert_eq!(percent_text(0, 0), "N/A");
    assert_eq!(percent_text(-3, 0), "N/A");
}

#[test]
fn shares_are_rounded_to_the_nearest_tenth() {
    assert_eq!(percent_tenths(0, 4), Some(0));
    assert_eq!(percent_tenths(4, 4), Some(1000));
    assert_eq!(percent_tenths(1, 3), Some(333));
    assert_eq!(percent_tenths(2, 3), Some(667));
    assert_eq!(percent_tenths(1, 7), Some(143));
    assert_eq!(percent_tenths(1, 2000), Some(1));
    assert_eq!(percent_tenths(1, 2001), Some(0));
    assert_eq!(percent_tenths(1, 16), Some(63));
    assert_eq!(percent_tenths(3, 2), Some(1500));
}

#[test]
fn shares_with_a_sign() {
    assert_eq!(percent_tenths(-1, 3), Some(-333));
    assert_eq!(percent_tenths(1, -3), Some(-333));
    assert_eq!(percent_tenths(-1, -3), Some(333));
    assert_eq!(percent_tenths(-1, 2000), Some(-1));
    assert_eq!(percent_text(-1, 3), "-33.3%");
    assert_eq!(percent_text(-1, 2001), "0.0%");
}

#[test]
fn percent_text_has_one_decimal_place() {
    assert_eq!(percent_text(0, 6), "0.0%");
    assert_eq!(percent_text(6, 6), "100.0%");
    assert_eq!(percent_text(1, 8), "12.5%");
    assert_eq!(percent_text(1, 1000), "0.1%");
    assert_eq!(percent_text(25, 2), "1250.0%");
}

#[test]
fn shares_at_the_limit() {
    let limit: i128 = 100_000_000_000_000_000_000_000_000_000_000_000;
    assert_eq!(percent_tenths(limit, limit), Some(1000));
    assert_eq!(percent_tenths(-limit, limit), Some(-1000));
    assert_eq!(percent_tenths(limit, 1), Some(1000 * limit));
    assert_eq!(percent_tenths(1, limit), Some(0));
}
