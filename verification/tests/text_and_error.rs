use elastic_ermine::base64::base64_string;
use elastic_ermine::error::ElasticSearchError;
use elastic_ermine::text::dec_string;

fn b64(s: &str) -> String {
    base64_string(&s.as_bytes().to_vec())
}

#[test]
fn base64_rfc_vectors() {
    assert_eq!(b64(""), "");
    assert_eq!(b64("f"), "Zg==");
    assert_eq!(b64("fo"), "Zm8=");
    assert_eq!(b64("foo"), "Zm9v");
    assert_eq!(b64("foob"), "Zm9vYg==");
    assert_eq!(b64("fooba"), "Zm9vYmE=");
    assert_eq!(b64("foobar"), "Zm9vYmFy");
}

#[test]
fn base64_binary_bytes() {
    assert_eq!(base64_string(&vec![0u8, 255, 128]), "AP+A");
    assert_eq!(b64("user:pass"), "dXNlcjpwYXNz");
    assert_eq!(b64("user:"), "dXNlcjo=");
}

#[test]
fn decimal_rendering() {
    assert_eq!(dec_string(0), "0");
    assert_eq!(dec_string(7), "7");
    assert_eq!(dec_string(503), "503");
    assert_eq!(dec_string(18446744073709551615), "18446744073709551615");
}

#[test]
fn error_report_without_causes() {
    let e = ElasticSearchError::new("boom".to_owned());
    assert_eq!(e.report(), "boom");
}

#[test]
fn error_report_chains_causes() {
    let mut e = ElasticSearchError::with_cause("outer".to_owned(), "middle".to_owned());
    e.push_cause("inner".to_owned());
    assert_eq!(
        e.report(),
        "outer\n\nCaused by: middle\n\nCaused by: inner"
    );
}
