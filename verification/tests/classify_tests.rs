use acd::classify::{classify_parts, classify_response};
use acd::digest::ascii_eq_ignore_case;
use acd::retry::Observed;
use acd::text::{str_contains, str_eq};

#[test]
fn expired_token_is_detected_in_the_payload() {
    let body = br#"{"message":"Token has expired, please refresh"}"#.to_vec();
    assert!(matches!(classify_response(400, body), Observed::TokenExpired));
}

#[test]
fn successful_responses_are_never_inspected() {
    let body = br#"{"message":"Token has expired"}"#.to_vec();
    match classify_response(200, body.clone()) {
        Observed::Response { status, body: b } => {
            assert_eq!(status, 200);
            assert_eq!(b, body);
        }
        other => panic!("unexpected classification {:?}", other),
    }
}

#[test]
fn other_error_messages_are_delivered_untouched() {
    let body = br#"{"message":"Bad request"}"#.to_vec();
    match classify_response(400, body.clone()) {
        Observed::Response { status, body: b } => {
            assert_eq!(status, 400);
            assert_eq!(b, body);
        }
        other => panic!("unexpected classification {:?}", other),
    }
}

#[test]
fn bodies_that_are_not_json_are_delivered() {
    assert!(matches!(
        classify_response(500, b"<html>oops</html>".to_vec()),
        Observed::Response { status: 500, .. }
    ));
    assert!(matches!(
        classify_response(400, vec![0xff, 0xfe, 0x00]),
        Observed::Response { status: 400, .. }
    ));
}

#[test]
fn classify_parts_goes_by_the_message_alone() {
    let r = classify_parts(401, Vec::new(), Some("Token has expired".to_string()));
    assert!(matches!(r, Observed::TokenExpired));
    let r = classify_parts(401, Vec::new(), None);
    assert!(matches!(r, Observed::Response { status: 401, .. }));
}

#[test]
fn substring_search_finds_the_phrase() {
    assert!(str_contains("Token has expired", "Token has expired"));
    assert!(str_contains("xx Token has expired xx", "Token has expired"));
    assert!(!str_contains("Token has expire", "Token has expired"));
    assert!(!str_contains("", "a"));
    assert!(str_contains("anything", ""));
}

#[test]
fn string_equality_is_exact() {
    assert!(str_eq("abc", "abc"));
    assert!(!str_eq("abc", "abd"));
    assert!(!str_eq("abc", "ab"));
    assert!(str_eq("", ""));
}

#[test]
fn digest_comparison_ignores_ascii_case() {
    assert!(ascii_eq_ignore_case("900150983CD24FB0", "900150983cd24fb0"));
    assert!(!ascii_eq_ignore_case("900150983cd24fb0", "900150983cd24fb1"));
    assert!(!ascii_eq_ignore_case("abc", "abcd"));
}
