use acd::cache::NodeCache;
use acd::digest::{accept_upload, md5_hex};
use acd::responses::{
    extend_listing, interpret_children_page, interpret_download_response, interpret_endpoint_response,
    interpret_mkdir_response, interpret_root_response, interpret_token_exchange,
    interpret_trash_response, interpret_upload_response,
};
use acd::session::{
    authorize_exchange_params, extract_auth_code, refresh_exchange_params, Credentials, Endpoint,
};
use acd::{Error, NodeId};

fn nid(s: &str) -> NodeId {
    NodeId::new(s.to_string())
}

#[test]
fn token_exchange_success_carries_the_pair() {
    let body =
        br#"{"access_token":"AT","refresh_token":"RT","token_type":"bearer","expires_in":3600}"#
            .to_vec();
    let t = interpret_token_exchange(200, body).unwrap();
    assert_eq!(t.access_token, "AT");
    assert_eq!(t.refresh_token, "RT");
    assert_eq!(t.token_type, "bearer");
}

#[test]
fn token_exchange_non_success_is_an_auth_failure() {
    match interpret_token_exchange(401, b"denied".to_vec()) {
        Err(Error::AuthFailure { status, body }) => {
            assert_eq!(status, 401);
            assert_eq!(body, b"denied".to_vec());
        }
        other => panic!("unexpected result {:?}", other),
    }
}

#[test]
fn malformed_exchange_bodies_are_classified() {
    assert!(matches!(
        interpret_token_exchange(200, b"not json".to_vec()),
        Err(Error::ResponseBadJson(_))
    ));
    assert!(matches!(
        interpret_token_exchange(200, vec![0xff, 0xfe]),
        Err(Error::ResponseNotUtf8(_))
    ));
    assert!(matches!(
        interpret_token_exchange(200, br#"{"access_token":"AT"}"#.to_vec()),
        Err(Error::ResponseBadJson(_))
    ));
}

#[test]
fn endpoint_response_yields_both_urls() {
    let body = br#"{"contentUrl":"https://c/","metadataUrl":"https://m/"}"#.to_vec();
    let (c, m) = interpret_endpoint_response(200, body).unwrap();
    assert_eq!(c, "https://c/");
    assert_eq!(m, "https://m/");
    assert!(matches!(
        interpret_endpoint_response(500, Vec::new()),
        Err(Error::UnknownServerError { status: 500, .. })
    ));
}

#[test]
fn children_page_yields_ids_and_continuation() {
    let body =
        br#"{"count":2,"nextToken":"tok","data":[{"id":"a"},{"id":"b"}]}"#.to_vec();
    let (ids, next) = interpret_children_page(200, body).unwrap();
    assert_eq!(ids, vec![nid("a"), nid("b")]);
    assert_eq!(next, Some("tok".to_string()));

    let last = br#"{"count":1,"data":[{"id":"z"}]}"#.to_vec();
    let (ids, next) = interpret_children_page(200, last).unwrap();
    assert_eq!(ids, vec![nid("z")]);
    assert_eq!(next, None);
}

#[test]
fn malformed_listings_are_bad_json() {
    assert!(matches!(
        interpret_children_page(200, br#"{"count":1,"data":"no"}"#.to_vec()),
        Err(Error::ResponseBadJson(_))
    ));
    assert!(matches!(
        interpret_children_page(200, br#"{"count":1,"data":[{"noid":1}]}"#.to_vec()),
        Err(Error::ResponseBadJson(_))
    ));
    assert!(matches!(
        interpret_children_page(200, b"{}".to_vec()),
        Err(Error::ResponseBadJson(_))
    ));
}

#[test]
fn a_continuation_token_that_is_not_a_string_counts_as_absent() {
    let body = br#"{"count":0,"nextToken":5,"data":[]}"#.to_vec();
    let (ids, next) = interpret_children_page(200, body).unwrap();
    assert!(ids.is_empty());
    assert_eq!(next, None);
}

#[test]
fn non_utf8_bodies_surface_their_raw_bytes() {
    match interpret_mkdir_response(201, vec![0xff, 0x00, 0x01]) {
        Err(Error::ResponseNotUtf8(b)) => assert_eq!(b, vec![0xff, 0x00, 0x01]),
        other => panic!("unexpected result {:?}", other),
    }
}

#[test]
fn listing_pages_accumulate_in_order() {
    let mut acc = vec![nid("a")];
    extend_listing(&mut acc, vec![nid("b"), nid("c")]);
    assert_eq!(acc, vec![nid("a"), nid("b"), nid("c")]);
}

#[test]
fn root_response_takes_the_first_node() {
    let body = br#"{"count":1,"data":[{"id":"rootid"}]}"#.to_vec();
    assert_eq!(interpret_root_response(200, body).unwrap(), nid("rootid"));
    let empty = br#"{"count":0,"data":[]}"#.to_vec();
    assert!(matches!(
        interpret_root_response(200, empty),
        Err(Error::UnknownServerError { status: 200, .. })
    ));
}

#[test]
fn mkdir_created_and_conflict_both_carry_the_id() {
    assert_eq!(
        interpret_mkdir_response(201, br#"{"id":"D"}"#.to_vec()).unwrap(),
        nid("D")
    );
    assert_eq!(
        interpret_mkdir_response(409, br#"{"info":{"nodeId":"E"}}"#.to_vec()).unwrap(),
        nid("E")
    );
    assert!(matches!(
        interpret_mkdir_response(500, b"x".to_vec()),
        Err(Error::UnknownServerError { status: 500, .. })
    ));
    assert!(matches!(
        interpret_mkdir_response(201, b"{}".to_vec()),
        Err(Error::ResponseBadJson(_))
    ));
}

#[test]
fn upload_conflict_is_node_exists() {
    assert!(matches!(
        interpret_upload_response(409, b"conflict".to_vec()),
        Err(Error::NodeExists)
    ));
}

#[test]
fn upload_created_carries_id_and_digest() {
    let body = br#"{"id":"F","contentProperties":{"md5":"abc123"}}"#.to_vec();
    let (id, md5) = interpret_upload_response(201, body).unwrap();
    assert_eq!(id, nid("F"));
    assert_eq!(md5, "abc123");
}

#[test]
fn download_delivers_the_body_only_on_success() {
    assert_eq!(
        interpret_download_response(200, b"bytes".to_vec()).unwrap(),
        b"bytes".to_vec()
    );
    assert!(matches!(
        interpret_download_response(404, b"gone".to_vec()),
        Err(Error::UnknownServerError { status: 404, .. })
    ));
}

#[test]
fn trash_succeeds_only_on_ok() {
    assert!(interpret_trash_response(200, Vec::new()).is_ok());
    assert!(matches!(
        interpret_trash_response(500, Vec::new()),
        Err(Error::UnknownServerError { status: 500, .. })
    ));
}

#[test]
fn md5_digests_match_the_reference_values() {
    assert_eq!(md5_hex(b""), "d41d8cd98f00b204e9800998ecf8427e");
    assert_eq!(md5_hex(b"abc"), "900150983cd24fb0d6963f7d28e17f72");
}

#[test]
fn matching_digest_caches_the_upload() {
    let mut cache = NodeCache::new();
    let expected = md5_hex(b"abc");
    let r = accept_upload(
        &mut cache,
        &nid("P"),
        &"f".to_string(),
        nid("F"),
        "900150983CD24FB0D6963F7D28E17F72".to_string(),
        &expected,
    );
    assert_eq!(r.unwrap(), nid("F"));
    assert_eq!(cache.get(&nid("P"), &"f".to_string()), Some(nid("F")));
}

#[test]
fn digest_mismatch_is_an_integrity_error_and_caches_nothing() {
    let mut cache = NodeCache::new();
    let expected = md5_hex(b"abc");
    let r = accept_upload(
        &mut cache,
        &nid("P"),
        &"f".to_string(),
        nid("F"),
        "00000000000000000000000000000000".to_string(),
        &expected,
    );
    match r {
        Err(Error::IntegrityError { expected: e, reported }) => {
            assert_eq!(e, expected);
            assert_eq!(reported, "00000000000000000000000000000000");
        }
        other => panic!("unexpected result {:?}", other),
    }
    assert_eq!(cache.len(), 0);
}

#[test]
fn auth_code_is_extracted_from_the_redirect_url() {
    assert_eq!(
        extract_auth_code("http://localhost:26619/?code=XYZ&scope=all").unwrap(),
        "XYZ"
    );
    assert_eq!(
        extract_auth_code("http://localhost:26619/?a=1&code=A%20B").unwrap(),
        "A B"
    );
    assert!(matches!(
        extract_auth_code("http://localhost:26619/?a=1"),
        Err(Error::BadAuthUrl)
    ));
    assert!(matches!(extract_auth_code("::not a url::"), Err(Error::BadAuthUrl)));
}

#[test]
fn credentials_lifecycle_keeps_the_refresh_token() {
    let mut creds = Credentials::empty();
    assert!(creds.current_token().is_none());
    assert!(!creds.is_authorized());
    let t = interpret_token_exchange(
        200,
        br#"{"access_token":"AT","refresh_token":"RT","token_type":"bearer"}"#.to_vec(),
    )
    .unwrap();
    creds.apply_token_response(t, 1700000000);
    assert_eq!(creds.current_token(), Some(&"AT".to_string()));
    assert_eq!(creds.refresh_token, "RT");
    assert_eq!(creds.issued_at, 1700000000);
    creds.invalidate();
    assert!(creds.current_token().is_none());
    assert_eq!(creds.refresh_token, "RT");
    creds.invalidate();
    assert!(creds.current_token().is_none());
}

#[test]
fn endpoint_freshness_window_is_72_hours() {
    let mut ep = Endpoint::new_stale();
    assert!(ep.is_fresh_at(0));
    assert!(ep.is_fresh_at(259199));
    assert!(!ep.is_fresh_at(259200));
    ep.apply_refresh("c".to_string(), "m".to_string(), 1000000);
    assert!(ep.is_fresh_at(1000000 + 259199));
    assert!(!ep.is_fresh_at(1000000 + 259200));
    assert_eq!(ep.content_url, "c");
    assert_eq!(ep.metadata_url, "m");
}

#[test]
fn exchange_forms_carry_the_expected_fields() {
    let a = authorize_exchange_params(
        &"thecode".to_string(),
        &"cid".to_string(),
        &"secret".to_string(),
    );
    assert_eq!(a[0], ("grant_type".to_string(), "authorization_code".to_string()));
    assert_eq!(a[1], ("code".to_string(), "thecode".to_string()));
    assert_eq!(a[4].1, "http://localhost:26619/");
    let r = refresh_exchange_params(&"RT".to_string(), &"cid".to_string(), &"secret".to_string());
    assert_eq!(r[0], ("grant_type".to_string(), "refresh_token".to_string()));
    assert_eq!(r[1], ("refresh_token".to_string(), "RT".to_string()));
}
