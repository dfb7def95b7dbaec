use rocket_rest_quickstart::auth::{end_session, session_cookie, Auth};
use rocket_rest_quickstart::decimal::{format_i32, parse_i32};

#[test]
fn format_matches_display() {
    for n in [0, 1, 9, 10, 42, 100, -1, -10, 2147483647, -2147483648, 1000000, -987654321] {
        assert_eq!(format_i32(n), n.to_string());
    }
}

#[test]
fn parse_matches_std() {
    let cases = [
        "", "-", "+", "0", "-0", "+5", "007", "42", "-42", " 1", "1 ", "1a", "a1", "2147483647",
        "2147483648", "-2147483648", "-2147483649", "99999999999999999999", "--1", "+-1", "١",
    ];
    for s in cases {
        assert_eq!(parse_i32(s), s.parse::<i32>().ok(), "input {:?}", s);
    }
}

#[test]
fn format_then_parse_roundtrips() {
    for n in [0, 5, -5, 123456, i32::MAX, i32::MIN] {
        assert_eq!(parse_i32(&format_i32(n)), Some(n));
    }
}

#[test]
fn session_cookie_authenticates() {
    for id in [1, 0, -3, i32::MAX, i32::MIN] {
        let cookie = session_cookie(id);
        assert_eq!(cookie.name(), "user_id");
        assert_eq!(Auth::from_request(Some(&cookie.value())), Ok(Auth(id)));
    }
}

#[test]
fn missing_or_bad_cookie_is_forbidden() {
    assert_eq!(Auth::from_request(None), Err(403));
    assert_eq!(Auth::from_request(Some("abc")), Err(403));
    assert_eq!(Auth::from_request(Some("")), Err(403));
    assert_eq!(Auth::from_request(Some("12")), Ok(Auth(12)));
    assert_eq!(end_session().value(), "");
}
