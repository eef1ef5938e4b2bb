//! Tests of the transport core: URL construction, query encoding and the
//! response-status dispatch.

use red_crab::errors::RedCrabError;
use red_crab::transport::Transport;

fn transport_at(base: &str) -> Transport {
    Transport::from(base.to_owned()).unwrap()
}

#[test]
fn new_uses_default_base_url() {
    let t = Transport::new().unwrap();
    assert_eq!(t.base_url, "http://127.0.0.1:8080/api/public/");
}

#[test]
fn from_keeps_base_url() {
    let t = transport_at("http://x/");
    assert_eq!(t.base_url, "http://x/");
}

#[test]
fn get_url_without_query_has_no_question_mark() {
    let t = transport_at("http://x/");
    let url = t.get_url("foo", None).unwrap();
    assert_eq!(url, "http://x/foo");
    assert!(!url.contains('?'));
}

#[test]
fn get_url_with_date_query() {
    let t = transport_at("http://x/");
    let pairs = vec![("date".to_owned(), "20220331".to_owned())];
    let url = t.get_url("foo", Some(&pairs)).unwrap();
    assert_eq!(url, "http://x/foo?date=20220331");
}

#[test]
fn get_url_normalizes_the_scheme() {
    let t = transport_at("HTTP://X/");
    let url = t.get_url("foo", None).unwrap();
    assert_eq!(url, "http://x/foo");
}

#[test]
fn get_url_encodes_query_values() {
    let t = transport_at("http://x/");
    let pairs = vec![("q".to_owned(), "a b&c".to_owned())];
    let url = t.get_url("foo", Some(&pairs)).unwrap();
    assert_eq!(url, "http://x/foo?q=a+b%26c");
}

#[test]
fn get_url_serializes_pairs_in_order() {
    let t = transport_at("http://x/");
    let pairs = vec![
        ("date".to_owned(), "20220331".to_owned()),
        ("symbol".to_owned(), "SZ002027".to_owned()),
    ];
    let url = t.get_url("foo", Some(&pairs)).unwrap();
    assert_eq!(url, "http://x/foo?date=20220331&symbol=SZ002027");
}

#[test]
fn get_url_rejects_a_malformed_base() {
    let t = transport_at("not a url");
    let r = t.get_url("foo", None);
    assert!(matches!(r, Err(RedCrabError::UrlParserError(_))));
}

#[test]
fn response_handler_passes_the_body_through_on_200() {
    let t = transport_at("http://x/");
    let r = t.response_handler(200, "[1,2]".to_owned());
    assert_eq!(r.unwrap(), "[1,2]");
}

#[test]
fn response_handler_maps_500_to_internal_server_error() {
    let t = transport_at("http://x/");
    let r = t.response_handler(500, "ignored".to_owned());
    assert!(matches!(r, Err(RedCrabError::InternalServerError)));
}

#[test]
fn response_handler_maps_503_to_service_unavailable() {
    let t = transport_at("http://x/");
    let r = t.response_handler(503, "ignored".to_owned());
    assert!(matches!(r, Err(RedCrabError::ServiceUnavailable)));
}

#[test]
fn response_handler_maps_401_to_unauthorized() {
    let t = transport_at("http://x/");
    let r = t.response_handler(401, "ignored".to_owned());
    assert!(matches!(r, Err(RedCrabError::Unauthorized)));
}

#[test]
fn response_handler_carries_the_body_of_a_400() {
    let t = transport_at("http://x/");
    let r = t.response_handler(400, "bad date".to_owned());
    match r {
        Err(RedCrabError::InvalidParameter(m)) => assert_eq!(m, "bad date"),
        other => panic!("expected an invalid-parameter error, got {:?}", other),
    }
}

#[test]
fn response_handler_reports_an_unknown_status() {
    let t = transport_at("http://x/");
    let r = t.response_handler(404, "ignored".to_owned());
    match r {
        Err(RedCrabError::UnkownResponse(m)) => assert_eq!(m, "Received response: 404"),
        other => panic!("expected an unknown-response error, got {:?}", other),
    }
    let r2 = t.response_handler(201, "ignored".to_owned());
    match r2 {
        Err(RedCrabError::UnkownResponse(m)) => assert_eq!(m, "Received response: 201"),
        other => panic!("expected an unknown-response error, got {:?}", other),
    }
}

#[test]
fn get_url_replaces_an_existing_query() {
    let t = transport_at("http://x/p?a=1");
    let pairs = vec![("b".to_owned(), "2".to_owned())];
    let url = t.get_url("", Some(&pairs)).unwrap();
    assert_eq!(url, "http://x/p?b=2");
}
