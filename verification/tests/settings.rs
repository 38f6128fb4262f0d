use botlib::error::{BotError, ReportError, ReportErrorReason};
use botlib::jira::{Credentials, ReferencePoint};

fn some(text: &str) -> Option<String> {
    Some(text.to_owned())
}

#[test]
fn user_name_and_password_choose_basic() {
    assert_eq!(
        Credentials::select(some("bot"), some("secret"), None),
        Ok(Credentials::Basic { username: "bot".to_owned(), password: "secret".to_owned() })
    );
}

#[test]
fn session_id_chooses_the_cookie() {
    let cookie = Credentials::Cookie { name: "JSESSIONID".to_owned(), value: "abc".to_owned() };
    assert_eq!(Credentials::select(None, None, some("abc")), Ok(cookie.duplicate()));
    assert_eq!(Credentials::select(some("bot"), None, some("abc")), Ok(cookie.duplicate()));
    assert_eq!(Credentials::select(some("bot"), some("secret"), some("abc")), Ok(cookie));
}

#[test]
fn settings_without_credentials_are_missing_configuration() {
    assert_eq!(Credentials::select(None, None, None), Err(BotError::ConfigMissing));
    assert_eq!(Credentials::select(some("bot"), None, None), Err(BotError::ConfigMissing));
    assert_eq!(Credentials::select(None, some("secret"), None), Err(BotError::ConfigMissing));
}

#[test]
fn duplicate_is_equal_to_what_it_copies() {
    let basic = Credentials::Basic { username: "u".to_owned(), password: "p".to_owned() };
    assert_eq!(basic.duplicate(), basic);
    let cookie = Credentials::Cookie { name: "n".to_owned(), value: "v".to_owned() };
    assert_eq!(cookie.duplicate(), cookie);
    assert_ne!(basic.duplicate(), cookie);
}

#[test]
fn reference_point_is_named_by_its_setting() {
    assert_eq!(ReferencePoint::from_setting(None), Ok(ReferencePoint::Now));
    assert_eq!(ReferencePoint::from_setting(Some("now")), Ok(ReferencePoint::Now));
    assert_eq!(ReferencePoint::from_setting(Some("sprint_start")), Ok(ReferencePoint::SprintStart));
}

#[test]
fn unknown_reference_point_is_missing_configuration() {
    for text in ["", "Now", "start", "sprint start", "now "] {
        assert_eq!(ReferencePoint::from_setting(Some(text)), Err(BotError::ConfigMissing));
    }
}

#[test]
fn each_reason_has_its_description() {
    assert_eq!(
        ReportError(ReportErrorReason::BadDate).description(),
        "Was not able to parse a date in the sprint report"
    );
    assert_eq!(
        ReportError(ReportErrorReason::ReportParsingError).description(),
        "Error parsing returned JSON"
    );
    assert_eq!(
        ReportError(ReportErrorReason::FailedRequest).description(),
        "Using basic auth failed for making a JIRA request"
    );
}
