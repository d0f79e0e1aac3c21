use elastic_ermine::auth::AwsSigv4;
use elastic_ermine::request::{ElasticSearchMethodType, HeaderEntry, HttpRequest};
use elastic_ermine::sigv4::AwsCredentials;

fn fixed_creds() -> AwsCredentials {
    AwsCredentials {
        access_key_id: "AKIDEXAMPLE".to_owned(),
        secret_access_key: "wJalrXUtnFEMI/K7MDENG+bPxRfiCYEXAMPLEKEY".to_owned(),
        session_token: None,
    }
}

fn aws() -> AwsSigv4 {
    AwsSigv4 { region: "us-east-1".to_owned(), profile: None }
}

fn fresh_request() -> HttpRequest {
    HttpRequest {
        method: ElasticSearchMethodType::GET,
        url: "https://example.com:9200/".to_owned(),
        headers: Vec::new(),
        body: None,
    }
}

const FIXED_EPOCH: u64 = 1700000000;

#[test]
fn signing_injects_the_sigv4_headers() {
    let mut req = fresh_request();
    req.sign_sigv4(&aws(), &fixed_creds(), FIXED_EPOCH).unwrap();
    let names: Vec<&str> = req.headers.iter().map(|h| h.name.as_str()).collect();
    assert!(names.contains(&"x-amz-date"));
    assert!(names.contains(&"authorization"));
    assert!(names.contains(&"x-amz-content-sha256"));
    let date = req.headers.iter().find(|h| h.name == "x-amz-date").unwrap();
    assert_eq!(date.value, "20231114T221320Z");
    let auth_header = req.headers.iter().find(|h| h.name == "authorization").unwrap();
    assert!(auth_header.value.starts_with("AWS4-HMAC-SHA256 Credential=AKIDEXAMPLE/20231114/us-east-1/es/aws4_request"));
}

#[test]
fn an_absent_body_signs_as_the_empty_byte_sequence() {
    let mut req = fresh_request();
    req.sign_sigv4(&aws(), &fixed_creds(), FIXED_EPOCH).unwrap();
    let checksum = req.headers.iter().find(|h| h.name == "x-amz-content-sha256").unwrap();
    assert_eq!(
        checksum.value,
        "e3b0c44298fc1c149afbf4c8996fb92427ae41e4649b934ca495991b7852b855"
    );
}

#[test]
fn signing_is_deterministic() {
    let mut first = fresh_request();
    let mut second = fresh_request();
    first.sign_sigv4(&aws(), &fixed_creds(), FIXED_EPOCH).unwrap();
    second.sign_sigv4(&aws(), &fixed_creds(), FIXED_EPOCH).unwrap();
    assert_eq!(first.headers.len(), second.headers.len());
    for (a, b) in first.headers.iter().zip(second.headers.iter()) {
        assert_eq!(a.name, b.name);
        assert_eq!(a.value, b.value);
        assert_eq!(a.sensitive, b.sensitive);
    }
}

#[test]
fn signing_covers_the_body_bytes() {
    let mut with_body = fresh_request();
    with_body.method = ElasticSearchMethodType::POST;
    with_body.body = Some(br#"{"query":{"match_all":{}}}"#.to_vec());
    with_body.sign_sigv4(&aws(), &fixed_creds(), FIXED_EPOCH).unwrap();
    let mut without_body = fresh_request();
    without_body.method = ElasticSearchMethodType::POST;
    without_body.sign_sigv4(&aws(), &fixed_creds(), FIXED_EPOCH).unwrap();
    let sig_of = |req: &HttpRequest| {
        req.headers.iter().find(|h| h.name == "authorization").unwrap().value.clone()
    };
    assert_ne!(sig_of(&with_body), sig_of(&without_body));
}

#[test]
fn a_signed_header_that_is_already_taken_fails_the_request() {
    let mut req = fresh_request();
    req.headers.push(HeaderEntry {
        name: "x-amz-date".to_owned(),
        value: "20200101T000000Z".to_owned(),
        sensitive: false,
    });
    let before = req.headers.len();
    let e = req.sign_sigv4(&aws(), &fixed_creds(), FIXED_EPOCH).unwrap_err();
    assert_eq!(e.message, "sigv4 signed header collides with an existing request header");
    assert_eq!(req.headers.len(), before);
}

#[test]
fn signed_query_parameters_are_refused_not_dropped() {
    let mut req = fresh_request();
    let signed = vec![HeaderEntry {
        name: "x-amz-date".to_owned(),
        value: "20231114T221320Z".to_owned(),
        sensitive: false,
    }];
    let qparams = vec![("X-Amz-Signature".to_owned(), "abc123".to_owned())];
    let e = req.apply_signing_instructions(signed, qparams).unwrap_err();
    assert_eq!(e.message, "sigv4 signed results not all in request header format");
    assert!(req.headers.is_empty());
}

#[test]
fn clean_instructions_append_in_order() {
    let mut req = fresh_request();
    let signed = vec![
        HeaderEntry { name: "x-amz-date".to_owned(), value: "d".to_owned(), sensitive: false },
        HeaderEntry { name: "authorization".to_owned(), value: "a".to_owned(), sensitive: true },
    ];
    req.apply_signing_instructions(signed, Vec::new()).unwrap();
    assert_eq!(req.headers.len(), 2);
    assert_eq!(req.headers[0].name, "x-amz-date");
    assert_eq!(req.headers[1].name, "authorization");
    assert!(req.headers[1].sensitive);
}

#[test]
fn an_unsignable_url_fails_with_the_signing_error() {
    let mut req = fresh_request();
    req.url = "not a url".to_owned();
    let e = req.sign_sigv4(&aws(), &fixed_creds(), FIXED_EPOCH).unwrap_err();
    assert_eq!(e.message, "failed to compute aws sigv4 signature");
    assert_eq!(e.causes.len(), 1);
    assert!(req.headers.is_empty());
}

#[test]
fn a_timestamp_past_year_9999_is_refused() {
    let mut req = fresh_request();
    let e = req.sign_sigv4(&aws(), &fixed_creds(), 253402300800).unwrap_err();
    assert_eq!(e.message, "signing timestamp out of range");
    assert!(req.headers.is_empty());
}

#[test]
fn the_last_second_of_year_9999_still_signs() {
    let mut req = fresh_request();
    req.sign_sigv4(&aws(), &fixed_creds(), 253402300799).unwrap();
    let date = req.headers.iter().find(|h| h.name == "x-amz-date").unwrap();
    assert_eq!(date.value, "99991231T235959Z");
}

#[test]
fn a_url_without_a_host_is_refused() {
    let mut req = fresh_request();
    req.url = "/only/a/path".to_owned();
    let e = req.sign_sigv4(&aws(), &fixed_creds(), FIXED_EPOCH).unwrap_err();
    assert_eq!(e.message, "request url has no host to sign for");
    assert!(req.headers.is_empty());
}
