use consul::reply::{
    acknowledged, http_result, json_result, set_result, status_result, string_lists_result, STATUS_OK,
};
use consul::text::{concat_str, str_contains};
use consul::ConsulError;

#[test]
fn status_only_200_succeeds() {
    assert_eq!(STATUS_OK, 200);
    assert_eq!(status_result(200), Ok(()));
    assert_eq!(status_result(404), Err(ConsulError::RemoteFailure));
    assert_eq!(status_result(201), Err(ConsulError::RemoteFailure));
    assert_eq!(status_result(500), Err(ConsulError::RemoteFailure));
}

#[test]
fn transport_failures_are_http_failures() {
    assert_eq!(http_result(Some(5u8)), Ok(5u8));
    assert_eq!(http_result::<u8>(None), Err(ConsulError::HTTPFailure));
}

#[test]
fn decoding_failures_are_bad_json() {
    assert_eq!(json_result(Some("x")), Ok("x"));
    assert_eq!(json_result::<u8>(None), Err(ConsulError::BadJSON));
}

#[test]
fn set_reads_true_in_any_case() {
    assert_eq!(set_result(Some(String::from("true")), 200), Ok(true));
    assert_eq!(set_result(Some(String::from("TRUE")), 200), Ok(true));
    assert_eq!(set_result(Some(String::from("It is True.")), 200), Ok(true));
    assert_eq!(set_result(Some(String::from("false")), 200), Ok(false));
    assert_eq!(set_result(Some(String::new()), 200), Ok(false));
}

#[test]
fn set_failures() {
    assert_eq!(set_result(None, 200), Err(ConsulError::HTTPFailure));
    assert_eq!(set_result(None, 500), Err(ConsulError::HTTPFailure));
    assert_eq!(set_result(Some(String::from("true")), 500), Err(ConsulError::RemoteFailure));
}

#[test]
fn acknowledged_needs_lowercase_true() {
    assert!(acknowledged("true"));
    assert!(acknowledged("untrue"));
    assert!(!acknowledged("TRUE"));
    assert!(!acknowledged("tru"));
    assert!(!acknowledged(""));
}

#[test]
fn contains_as_std_does() {
    assert!(str_contains("hello", "ell"));
    assert!(str_contains("hello", ""));
    assert!(str_contains("", ""));
    assert!(!str_contains("", "a"));
    assert!(!str_contains("hel", "hello"));
    assert!(str_contains("héllo wörld", "ö"));
    assert!(!str_contains("abab", "bb"));
}

#[test]
fn concat_joins() {
    assert_eq!(concat_str("http://", "host"), "http://host");
    assert_eq!(concat_str("", ""), "");
}

#[test]
fn catalog_services_reply_decodes() {
    let body = String::from(
        "{\n  \"consul\": [],\n  \"redis\": [],\n  \"postgresql\": [\n    \"master\",\n    \"slave\"\n  ]\n}",
    );
    let reply = string_lists_result(Some(body)).unwrap();
    assert_eq!(reply.len(), 3);
    assert_eq!(reply.get("redis").unwrap().len(), 0);
    assert_eq!(reply.get("postgresql").unwrap(), &vec![String::from("master"), String::from("slave")]);
}

#[test]
fn string_lists_failures() {
    assert_eq!(string_lists_result(None), Err(ConsulError::HTTPFailure));
    assert_eq!(string_lists_result(Some(String::from("garbage response"))), Err(ConsulError::BadJSON));
    assert_eq!(string_lists_result(Some(String::from("{\"a\": 1}"))), Err(ConsulError::BadJSON));
}
