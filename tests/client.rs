use unleash_client::entity_tag::EntityTag;
use unleash_client::error::RemoteError;
use unleash_client::unleash_client::{
    check_post_status, classify_features_response, features_url, identity_headers, metrics_url,
    parse_etag_header, register_url, ResponseClass,
};

#[test]
fn not_modified_returns_known_tag() {
    let known = Some(EntityTag::new("t1"));
    match classify_features_response(304, &known, None) {
        Ok(ResponseClass::NotModified(t)) => assert_eq!(t.value(), "t1"),
        _ => panic!("expected not modified"),
    }
}

#[test]
fn not_modified_without_tag_is_an_error() {
    assert!(matches!(
        classify_features_response(304, &None, None),
        Err(RemoteError::NotModifiedWithoutTag)
    ));
}

#[test]
fn success_reads_tag_header() {
    match classify_features_response(200, &None, Some("W/\"t2\"")) {
        Ok(ResponseClass::Modified(Some(t))) => assert_eq!(t.value(), "t2"),
        _ => panic!("expected new data with a tag"),
    }
}

#[test]
fn success_with_invalid_or_missing_tag_header() {
    assert!(matches!(
        classify_features_response(200, &Some(EntityTag::new("old")), Some("t2")),
        Ok(ResponseClass::Modified(None))
    ));
    assert!(matches!(
        classify_features_response(204, &None, None),
        Ok(ResponseClass::Modified(None))
    ));
}

#[test]
fn error_statuses_are_errors() {
    for s in [400u16, 401, 404, 500, 503, 302, 100] {
        match classify_features_response(s, &Some(EntityTag::new("x")), None) {
            Err(RemoteError::Status(code)) => assert_eq!(code, s),
            _ => panic!("expected a status error"),
        }
    }
}

#[test]
fn etag_header_parsing() {
    assert_eq!(parse_etag_header(Some("W/\"abc\"")).unwrap().value(), "abc");
    assert!(parse_etag_header(Some("\"abc\"")).is_none());
    assert!(parse_etag_header(None).is_none());
}

#[test]
fn endpoint_urls() {
    assert_eq!(features_url("http://localhost:4242"), "http://localhost:4242/api/client/features");
    assert_eq!(register_url("http://h"), "http://h/api/client/register");
    assert_eq!(metrics_url("http://h"), "http://h/api/client/metrics");
}

#[test]
fn identity_headers_with_instance_id() {
    let h = identity_headers("app", &Some("i-1".to_string()), "a:b.c", "5.0.0");
    let expected = vec![
        ("UNLEASH-APPNAME".to_string(), "app".to_string()),
        ("Unleash-Client-Spec".to_string(), "5.0.0".to_string()),
        ("authorization".to_string(), "a:b.c".to_string()),
        ("UNLEASH-INSTANCEID".to_string(), "i-1".to_string()),
    ];
    assert_eq!(h, expected);
}

#[test]
fn identity_headers_without_instance_id() {
    let h = identity_headers("app", &None, "a:b.c", "5.0.0");
    assert_eq!(h.len(), 3);
    assert_eq!(h[2], ("authorization".to_string(), "a:b.c".to_string()));
}

#[test]
fn post_status_check() {
    assert!(check_post_status(200).is_ok());
    assert!(check_post_status(202).is_ok());
    assert!(matches!(check_post_status(404), Err(RemoteError::Status(404))));
    assert!(matches!(check_post_status(500), Err(RemoteError::Status(500))));
}
