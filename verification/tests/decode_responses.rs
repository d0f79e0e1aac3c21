use elastic_ermine::decode::{
    decode_aliases, decode_indicies, decode_search, test_connection_response,
};
use elastic_ermine::json::Json;

#[test]
fn connection_status_two_hundreds_pass() {
    assert!(test_connection_response(200).is_ok());
    assert!(test_connection_response(204).is_ok());
    assert!(test_connection_response(299).is_ok());
}

#[test]
fn connection_status_other_fail_with_status_in_message() {
    let e = test_connection_response(503).unwrap_err();
    assert!(e.message.contains("503"));
    assert_eq!(e.message, "unexpected http status: 503");
    assert!(test_connection_response(301).is_err());
    assert!(test_connection_response(404).is_err());
    assert!(test_connection_response(199).is_err());
}

#[test]
fn decodes_index_catalog_record() {
    let body = r#"[{"index":"logs-1","uuid":"abc","pri":"1","rep":"1","docs.count":"10","docs.deleted":null,"dataset.size":"1kb"}]"#;
    let v = decode_indicies(body).unwrap();
    assert_eq!(v.len(), 1);
    assert_eq!(v[0].name, "logs-1");
    assert_eq!(v[0].uuid, "abc");
    assert_eq!(v[0].primary_shard_count, "1");
    assert_eq!(v[0].replica_shard_count, "1");
    assert_eq!(v[0].docs_count.as_deref(), Some("10"));
    assert_eq!(v[0].docs_deleted_count, None);
    assert_eq!(v[0].dataset_size.as_deref(), Some("1kb"));
}

#[test]
fn index_counter_null_reads_as_absent() {
    let body = r#"[{"index":"a","uuid":"u","pri":"1","rep":"0","docs.count":null}]"#;
    let v = decode_indicies(body).unwrap();
    assert_eq!(v[0].docs_count, None);
    assert_eq!(v[0].docs_deleted_count, None);
    assert_eq!(v[0].dataset_size, None);
}

#[test]
fn index_counter_string_reads_as_present() {
    let body = r#"[{"index":"a","uuid":"u","pri":"1","rep":"0","docs.count":"7"}]"#;
    let v = decode_indicies(body).unwrap();
    assert_eq!(v[0].docs_count.as_deref(), Some("7"));
}

#[test]
fn index_counter_number_is_rejected() {
    let body = r#"[{"index":"a","uuid":"u","pri":"1","rep":"0","docs.count":10}]"#;
    let e = decode_indicies(body).unwrap_err();
    assert_eq!(e.message, "invalid index record, field docs.count");
}

#[test]
fn index_counter_object_is_rejected() {
    let body = r#"[{"index":"a","uuid":"u","pri":"1","rep":"0","docs.count":{"n":1}}]"#;
    assert!(decode_indicies(body).is_err());
}

#[test]
fn index_missing_required_field_is_rejected() {
    let body = r#"[{"uuid":"u","pri":"1","rep":"0"}]"#;
    let e = decode_indicies(body).unwrap_err();
    assert_eq!(e.message, "invalid index record, field index");
}

#[test]
fn index_non_string_name_is_rejected() {
    let body = r#"[{"index":7,"uuid":"u","pri":"1","rep":"0"}]"#;
    let e = decode_indicies(body).unwrap_err();
    assert_eq!(e.message, "invalid index record, field index");
}

#[test]
fn one_bad_record_fails_the_whole_catalog() {
    let body = r#"[{"index":"a","uuid":"u","pri":"1","rep":"0"},{"index":9}]"#;
    assert!(decode_indicies(body).is_err());
}

#[test]
fn index_catalog_must_be_an_array() {
    let e = decode_indicies(r#"{"index":"a"}"#).unwrap_err();
    assert_eq!(e.message, "expected a json array");
    let e2 = decode_indicies("not json").unwrap_err();
    assert_eq!(e2.message, "invalid json");
}

#[test]
fn decodes_alias_catalog() {
    let body = r#"[{"alias":"logs","index":"logs-1"},{"alias":"logs","index":"logs-2"}]"#;
    let v = decode_aliases(body).unwrap();
    assert_eq!(v.len(), 2);
    assert_eq!(v[0].name, "logs");
    assert_eq!(v[0].index_ref, "logs-1");
    assert_eq!(v[1].index_ref, "logs-2");
}

#[test]
fn alias_missing_index_is_rejected() {
    let body = r#"[{"alias":"logs"}]"#;
    let e = decode_aliases(body).unwrap_err();
    assert_eq!(e.message, "invalid alias record, field index");
}

#[test]
fn decodes_search_result() {
    let body = r#"{"took":12,"timed_out":false,"_shards":{"total":5,"successful":5,"skipped":0,"failed":0},"hits":{"max_score":null,"hits":[{"_id":"h1"},{"_id":"h2"}]}}"#;
    let r = decode_search(body).unwrap();
    assert_eq!(r.time_took_ms, "12");
    assert!(!r.timed_out);
    assert_eq!(r.shards_used.total, "5");
    assert_eq!(r.shards_used.successful, "5");
    assert_eq!(r.shards_used.failed, "0");
    assert_eq!(r.hits.hits.len(), 2);
    match &r.hits.hits[0] {
        Json::Obj(fields) => match elastic_ermine::json::lookup(fields, "_id") {
            Some(Json::Str(s)) => assert_eq!(s, "h1"),
            other => panic!("unexpected _id: {:?}", other),
        },
        other => panic!("expected an object hit, got {:?}", other),
    }
    assert!(r.aggregations.is_none());
}

#[test]
fn search_aggregations_are_kept_opaque() {
    let body = r#"{"took":1,"timed_out":true,"_shards":{"total":1,"successful":1,"failed":0},"hits":{"hits":[]},"aggregations":{"avg_price":{"value":3}}}"#;
    let r = decode_search(body).unwrap();
    assert!(r.timed_out);
    assert!(matches!(r.aggregations, Some(Json::Obj(_))));
    let with_null = r#"{"took":1,"timed_out":false,"_shards":{"total":1,"successful":1,"failed":0},"hits":{"hits":[]},"aggregations":null}"#;
    assert!(decode_search(with_null).unwrap().aggregations.is_none());
}

#[test]
fn search_missing_or_mistyped_fields_are_rejected() {
    let no_hits = r#"{"took":1,"timed_out":false,"_shards":{"total":1,"successful":1,"failed":0}}"#;
    assert_eq!(decode_search(no_hits).unwrap_err().message, "invalid search result, field hits");
    let bad_timed_out = r#"{"took":1,"timed_out":"no","_shards":{"total":1,"successful":1,"failed":0},"hits":{"hits":[]}}"#;
    assert_eq!(
        decode_search(bad_timed_out).unwrap_err().message,
        "invalid search result, field timed_out"
    );
    let no_took = r#"{"timed_out":false,"_shards":{"total":1,"successful":1,"failed":0},"hits":{"hits":[]}}"#;
    assert_eq!(decode_search(no_took).unwrap_err().message, "invalid search result, field took");
    let bad_shards = r#"{"took":1,"timed_out":false,"_shards":{"total":1,"successful":1},"hits":{"hits":[]}}"#;
    assert_eq!(
        decode_search(bad_shards).unwrap_err().message,
        "invalid search result, field _shards.failed"
    );
    let hits_not_array = r#"{"took":1,"timed_out":false,"_shards":{"total":1,"successful":1,"failed":0},"hits":{"hits":{}}}"#;
    assert_eq!(
        decode_search(hits_not_array).unwrap_err().message,
        "invalid search result, field hits.hits"
    );
}
