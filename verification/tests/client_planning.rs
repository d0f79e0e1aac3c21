use elastic_ermine::auth::{auth_from_choice, Auth, AuthChoice, AwsSigv4, BasicAuth};
use elastic_ermine::client::ElasticsearchClient;
use elastic_ermine::parse::parse_json;
use elastic_ermine::request::ElasticSearchMethodType;

fn client() -> ElasticsearchClient {
    ElasticsearchClient::new("https://example.com:9200".to_owned()).unwrap()
}

#[test]
fn new_rejects_a_malformed_url() {
    let e = ElasticsearchClient::new("not a url".to_owned()).unwrap_err();
    assert_eq!(e.message, "invalid elasticsearch url");
    assert!(ElasticsearchClient::new("/relative/only".to_owned()).is_err());
}

#[test]
fn connection_probe_hits_the_base_url() {
    let c = client();
    let req = c.test_connection_request().unwrap();
    assert_eq!(req.method, ElasticSearchMethodType::GET);
    assert_eq!(req.url, "https://example.com:9200/");
    assert!(req.headers.is_empty());
    assert!(req.body.is_none());
}

#[test]
fn index_catalog_request_uses_the_catalog_path() {
    let c = client();
    let req = c.get_indicies_request().unwrap();
    assert_eq!(req.method, ElasticSearchMethodType::GET);
    assert_eq!(req.url, "https://example.com:9200/_cat/indices?format=json");
}

#[test]
fn alias_catalog_request_uses_the_catalog_path() {
    let c = client();
    let req = c.get_aliases_request().unwrap();
    assert_eq!(req.url, "https://example.com:9200/_cat/aliases?format=json");
}

#[test]
fn operation_request_takes_path_and_body_verbatim() {
    let c = client();
    let body = parse_json(r#"{"size":10,"query":{"match_all":{}}}"#).unwrap();
    let req = c
        .operation_request(ElasticSearchMethodType::POST, "logs-1/_count", Some(&body))
        .unwrap();
    assert_eq!(req.method, ElasticSearchMethodType::POST);
    assert_eq!(req.url, "https://example.com:9200/logs-1/_count");
    assert_eq!(req.headers.len(), 1);
    assert_eq!(req.headers[0].name, "content-type");
    assert_eq!(req.headers[0].value, "application/json");
    let bytes = req.body.expect("body should be attached");
    assert_eq!(
        String::from_utf8(bytes).unwrap(),
        r#"{"query":{"match_all":{}},"size":10}"#
    );
}

#[test]
fn search_request_scopes_to_the_named_indices() {
    let c = client();
    let body = parse_json(r#"{"query":{"match_all":{}}}"#).unwrap();
    let names = vec!["logs-1".to_owned(), "logs-2".to_owned()];
    let req = c.search_request(&names, Some(&body)).unwrap();
    assert_eq!(req.method, ElasticSearchMethodType::POST);
    assert_eq!(req.url, "https://example.com:9200/logs-1,logs-2/_search");
    assert_eq!(
        String::from_utf8(req.body.unwrap()).unwrap(),
        r#"{"query":{"match_all":{}}}"#
    );
}

#[test]
fn search_request_over_all_indices_uses_a_star() {
    let c = client();
    let req = c.search_request(&Vec::new(), None).unwrap();
    assert_eq!(req.url, "https://example.com:9200/*/_search");
    assert!(req.body.is_none());
    assert!(req.headers.is_empty());
}

#[test]
fn basic_auth_adds_the_authorization_header() {
    let mut c = client();
    c.use_auth(Auth::BASIC(BasicAuth {
        username: "user".to_owned(),
        password: Some("pass".to_owned()),
    }));
    let req = c.test_connection_request().unwrap();
    assert_eq!(req.headers.len(), 1);
    assert_eq!(req.headers[0].name, "authorization");
    assert_eq!(req.headers[0].value, "Basic dXNlcjpwYXNz");
    assert!(req.headers[0].sensitive);
}

#[test]
fn basic_auth_without_password_encodes_a_bare_colon() {
    let mut c = client();
    c.use_auth(Auth::BASIC(BasicAuth { username: "user".to_owned(), password: None }));
    let req = c.test_connection_request().unwrap();
    assert_eq!(req.headers[0].value, "Basic dXNlcjo=");
}

#[test]
fn clearing_auth_returns_to_bare_requests() {
    let mut c = client();
    c.use_auth(Auth::BASIC(BasicAuth { username: "u".to_owned(), password: None }));
    c.use_no_auth();
    let req = c.test_connection_request().unwrap();
    assert!(req.headers.is_empty());
}

#[test]
fn aws_auth_adds_no_header_at_planning_time() {
    let mut c = client();
    c.use_auth(Auth::AWS(AwsSigv4 { region: "us-east-1".to_owned(), profile: None }));
    let req = c.test_connection_request().unwrap();
    assert!(req.headers.is_empty());
    match c.auth() {
        Some(Auth::AWS(a)) => assert_eq!(a.region, "us-east-1"),
        other => panic!("unexpected auth: {:?}", other),
    }
}

#[test]
fn auth_choice_maps_to_the_strategy() {
    let basic = BasicAuth { username: "u".to_owned(), password: None };
    let aws = AwsSigv4 { region: "eu-west-1".to_owned(), profile: Some("dev".to_owned()) };
    assert!(matches!(
        auth_from_choice(AuthChoice::Basic, basic.clone(), aws.clone()),
        Some(Auth::BASIC(_))
    ));
    assert!(matches!(
        auth_from_choice(AuthChoice::AWSSigV4, basic.clone(), aws.clone()),
        Some(Auth::AWS(_))
    ));
    assert!(auth_from_choice(AuthChoice::NoAuth, basic, aws).is_none());
}

#[test]
fn valid_pem_certificate_installs_and_rebuilds() {
    let generated = rcgen::generate_simple_self_signed(vec!["example.com".to_owned()]).unwrap();
    let pem = generated.cert.pem();
    let mut c = client();
    assert!(!c.has_custom_certificate());
    c.use_custom_pem_certificate_from_buf(pem.as_bytes()).unwrap();
    assert!(c.has_custom_certificate());
    // The client still plans requests against the new transport.
    assert!(c.test_connection_request().is_ok());
    c.use_default_certificates().unwrap();
    assert!(!c.has_custom_certificate());
}

#[test]
fn valid_der_certificate_installs() {
    let generated = rcgen::generate_simple_self_signed(vec!["example.com".to_owned()]).unwrap();
    let der: &[u8] = generated.cert.der();
    let mut c = client();
    c.use_custom_der_certificate_from_buf(der).unwrap();
    assert!(c.has_custom_certificate());
}

#[test]
fn invalid_certificate_bytes_fail_and_change_nothing() {
    let mut c = client();
    let garbage = b"-----BEGIN CERTIFICATE-----\nnot base64 at all!!\n-----END CERTIFICATE-----\n";
    let e = c.use_custom_pem_certificate_from_buf(garbage).unwrap_err();
    assert_eq!(e.message, "invalid pem certificate");
    assert_eq!(e.causes.len(), 1);
    assert!(!c.has_custom_certificate());
    let e2 = c.use_custom_der_certificate_from_buf(b"junk bytes").unwrap_err();
    assert_eq!(e2.message, "invalid der certificate");
    assert!(!c.has_custom_certificate());
    // The client is still usable with its previous configuration.
    assert!(c.test_connection_request().is_ok());
}

#[test]
fn body_and_credentials_headers_come_in_planning_order() {
    let mut c = client();
    c.use_auth(Auth::BASIC(BasicAuth {
        username: "user".to_owned(),
        password: Some("pass".to_owned()),
    }));
    let body = parse_json("{}").unwrap();
    let req = c
        .operation_request(ElasticSearchMethodType::POST, "_search", Some(&body))
        .unwrap();
    assert_eq!(req.headers.len(), 2);
    assert_eq!(req.headers[0].name, "content-type");
    assert_eq!(req.headers[1].name, "authorization");
}
