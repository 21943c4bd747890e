use holidayapi_rust::api::HolidayAPI;
use holidayapi_rust::error::HolidayAPIError;
use holidayapi_rust::response::{check_reply, error_from_message};

const EXPIRED_KEY: &str = "daaaaaab-aaaa-aaaa-aaaa-2aaaada37e14";
const INVALID_KEY: &str = "invalid-key-format";
const BASE: &str = "https://holidayapi.com/v1/";

#[test]
fn test_valid_key() {
    match HolidayAPI::new(EXPIRED_KEY) {
        Ok(_) => assert!(true),
        Err(_) => unreachable!("Should not return an error on valid key"),
    }
    match HolidayAPI::new(INVALID_KEY) {
        Ok(_) => unreachable!("Should return an error on invalid key"),
        Err(_) => assert!(true),
    }
}

#[test]
fn key_shapes_accepted_and_rejected() {
    assert!(HolidayAPI::is_valid_key("00000000-0000-0000-0000-000000000000").is_ok());
    assert!(HolidayAPI::is_valid_key("0123abcd-ef01-2345-6789-abcdef012345").is_ok());
    let rejected = [
        "",
        "0123ABCD-ef01-2345-6789-abcdef012345",
        "0123abcd-ef012345-6789-abcdef012345-",
        "0123abcd_ef01_2345_6789_abcdef012345",
        "0123abc-ef01-2345-6789-abcdef0123456",
        "0123abcd-ef01-2345-6789-abcdef01234",
        "x0123abcd-ef01-2345-6789-abcdef012345",
        "0123abcd-ef01-2345-6789-abcdef012345 ",
        "0123abcg-ef01-2345-6789-abcdef012345",
    ];
    for key in rejected {
        match HolidayAPI::is_valid_key(key) {
            Err(HolidayAPIError::InvalidKeyFormat(k)) => assert_eq!(k, key),
            other => panic!("{:?} accepted: {:?}", key, other),
        }
    }
}

#[test]
fn versions_outside_the_set_fail() {
    for v in [0, 2, -1, i32::MAX, i32::MIN] {
        match HolidayAPI::is_valid_version(&v) {
            Err(HolidayAPIError::InvalidVersion(_)) => {}
            other => panic!("version {} gave {:?}", v, other),
        }
    }
    assert!(HolidayAPI::is_valid_version(&1).is_ok());
}

#[test]
fn invalid_version_message() {
    match HolidayAPI::is_valid_version(&2) {
        Err(HolidayAPIError::InvalidVersion(m)) => {
            assert_eq!(m, "Invalid version: 2, please choose: [1]")
        }
        other => panic!("{:?}", other),
    }
    match HolidayAPI::is_valid_version(&-7) {
        Err(HolidayAPIError::InvalidVersion(m)) => {
            assert_eq!(m, "Invalid version: -7, please choose: [1]")
        }
        other => panic!("{:?}", other),
    }
}

#[test]
fn default_client_targets_v1() {
    let api = HolidayAPI::new(EXPIRED_KEY).unwrap();
    assert_eq!(api.base_url(), BASE);
    assert!(api.base_url().contains("v1"));
    assert_eq!(api.key(), EXPIRED_KEY);
    let api = HolidayAPI::with_version(EXPIRED_KEY, 1).unwrap();
    assert_eq!(api.base_url(), BASE);
}

#[test]
fn unsupported_version_fails_before_any_request() {
    match HolidayAPI::with_version(EXPIRED_KEY, 2) {
        Err(HolidayAPIError::InvalidVersion(m)) => {
            assert_eq!(m, "Invalid version: 2, please choose: [1]")
        }
        other => panic!("{:?}", other),
    }
}

#[test]
fn key_error_comes_before_version_error() {
    match HolidayAPI::with_version(INVALID_KEY, 2) {
        Err(HolidayAPIError::InvalidKeyFormat(k)) => assert_eq!(k, INVALID_KEY),
        other => panic!("{:?}", other),
    }
}

#[test]
fn holidays_query_carries_all_parameters() {
    let api = HolidayAPI::new(EXPIRED_KEY).unwrap();
    let url = api.holidays("us", 2020).month(12).upcoming().url();
    assert_eq!(
        url,
        format!(
            "{}holidays?key={}&country=us&year=2020&month=12&upcoming=true",
            BASE, EXPIRED_KEY
        )
    );
}

#[test]
fn holidays_month_last_write_wins() {
    let api = HolidayAPI::new(EXPIRED_KEY).unwrap();
    let url = api.holidays("us", 2020).month(12).upcoming().month(10).url();
    assert_eq!(
        url,
        format!(
            "{}holidays?key={}&country=us&year=2020&month=10&upcoming=true",
            BASE, EXPIRED_KEY
        )
    );
    assert!(!url.contains("month=12"));
}

#[test]
fn holidays_all_setters() {
    let api = HolidayAPI::new(EXPIRED_KEY).unwrap();
    let url = api.holidays("gb", -1).day(20).public().month(3).url();
    assert_eq!(
        url,
        format!(
            "{}holidays?key={}&country=gb&year=-1&day=20&public=true&month=3",
            BASE, EXPIRED_KEY
        )
    );
}

#[test]
fn countries_search_is_form_encoded() {
    let api = HolidayAPI::new(EXPIRED_KEY).unwrap();
    let url = api.countries().search("united states").public().url();
    assert_eq!(
        url,
        format!("{}countries?key={}&search=united+states&public=true", BASE, EXPIRED_KEY)
    );
}

#[test]
fn countries_without_parameters() {
    let api = HolidayAPI::new(EXPIRED_KEY).unwrap();
    assert_eq!(api.countries().url(), format!("{}countries?key={}", BASE, EXPIRED_KEY));
}

#[test]
fn languages_search_escapes_reserved_characters() {
    let api = HolidayAPI::new(EXPIRED_KEY).unwrap();
    let url = api.languages().search("a&b=c").url();
    assert_eq!(url, format!("{}languages?key={}&search=a%26b%3Dc", BASE, EXPIRED_KEY));
}

#[test]
fn workday_query() {
    let api = HolidayAPI::new(EXPIRED_KEY).unwrap();
    let url = api.workday("us", "2021-01-04", 100).url();
    assert_eq!(
        url,
        format!("{}workday?key={}&country=us&start=2021-01-04&days=100", BASE, EXPIRED_KEY)
    );
}

#[test]
fn workdays_query() {
    let api = HolidayAPI::new(EXPIRED_KEY).unwrap();
    let url = api.workdays("us", "2021-01-04", "2021-02-01").url();
    assert_eq!(
        url,
        format!("{}workdays?key={}&country=us&start=2021-01-04&end=2021-02-01", BASE, EXPIRED_KEY)
    );
}

#[test]
fn builders_from_one_client_are_independent() {
    let api = HolidayAPI::new(EXPIRED_KEY).unwrap();
    let first = api.holidays("us", 2020).month(1);
    let second = api.holidays("de", 2021).month(2).public();
    let first = first.day(5);
    assert_eq!(
        first.url(),
        format!("{}holidays?key={}&country=us&year=2020&month=1&day=5", BASE, EXPIRED_KEY)
    );
    assert_eq!(
        second.url(),
        format!("{}holidays?key={}&country=de&year=2021&month=2&public=true", BASE, EXPIRED_KEY)
    );
}

#[test]
fn custom_request_lowercases_endpoint() {
    let api = HolidayAPI::new(EXPIRED_KEY).unwrap();
    let params = vec![("country".to_string(), "US".to_string()), ("q".to_string(), "a b".to_string())];
    let url = api.custom_request_url("CounTries", &params);
    assert_eq!(url, format!("{}countries?key={}&country=US&q=a+b", BASE, EXPIRED_KEY));
}

#[test]
fn error_status_with_message_becomes_request_error() {
    match check_reply(401, r#"{"error": "Unauthorized"}"#) {
        Err(HolidayAPIError::RequestError(Some(s), m)) => {
            assert_eq!(s, 401);
            assert_eq!(m, "Unauthorized");
        }
        other => panic!("{:?}", other),
    }
    match check_reply(500, r#"{"status": 500, "error": "Server exploded"}"#) {
        Err(HolidayAPIError::RequestError(Some(s), m)) => {
            assert_eq!(s, 500);
            assert_eq!(m, "Server exploded");
        }
        other => panic!("{:?}", other),
    }
}

#[test]
fn error_status_without_message_is_decode_error() {
    for body in ["not json", r#"{"message": "x"}"#, r#"{"error": 3}"#, "[1, 2]"] {
        match check_reply(404, body) {
            Err(HolidayAPIError::DecodeError(b)) => assert_eq!(b, body),
            other => panic!("{:?}", other),
        }
    }
}

#[test]
fn success_statuses_pass() {
    assert!(check_reply(200, "{}").is_ok());
    assert!(check_reply(204, "").is_ok());
    assert!(check_reply(302, "not json").is_ok());
    assert!(check_reply(399, r#"{"error": "x"}"#).is_ok());
    assert!(check_reply(600, r#"{"error": "x"}"#).is_ok());
}

#[test]
fn error_from_message_cases() {
    match error_from_message(429, Some("Too many".to_string()), "{}") {
        HolidayAPIError::RequestError(Some(429), m) => assert_eq!(m, "Too many"),
        other => panic!("{:?}", other),
    }
    match error_from_message(429, None, "oops") {
        HolidayAPIError::DecodeError(b) => assert_eq!(b, "oops"),
        other => panic!("{:?}", other),
    }
}

#[test]
fn error_messages() {
    let e = HolidayAPIError::RequestError(Some(404), "Not found".to_string());
    assert_eq!(e.message(), "404: Not found");
    let e = HolidayAPIError::RequestError(None, "timed out".to_string());
    assert_eq!(e.message(), "Request failed: timed out");
    let e = HolidayAPIError::InvalidKeyFormat("abc".to_string());
    assert_eq!(e.message(), "Invalid key: abc");
    let e = HolidayAPIError::InvalidOrExpiredKey("abc".to_string());
    assert_eq!(e.message(), "Invalid or expired key: abc");
    let e = HolidayAPIError::DecodeError("{".to_string());
    assert_eq!(e.message(), "Undecodable reply: {");
    match HolidayAPI::with_version(EXPIRED_KEY, 3) {
        Err(e) => assert_eq!(e.message(), "Invalid version: Invalid version: 3, please choose: [1]"),
        Ok(_) => panic!("version 3 accepted"),
    }
}
