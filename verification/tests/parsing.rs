use rag_session::envs::config_from_values;
use rag_session::resp::bulk_string_to_str;
use rag_session::resp::from_redis_value_to_hm;
use rag_session::resp::RespValue;
use rag_session::resp::StringMap;
use rag_session::vector_store::build_knn_query;
use rag_session::vector_store::create_redis_client;
use rag_session::vector_store::create_redis_vector_store;
use rag_session::vector_store::get_context_from_result;
use rag_session::vector_store::VectorSearchResponse;
use rag_session::vector_store::VectorSearchResponses;

fn bulk(s: &str) -> RespValue {
    RespValue::BulkString(s.as_bytes().to_vec())
}

#[test]
fn bulk_string_decodes_utf8() {
    assert_eq!(bulk_string_to_str(&bulk("héllo")), Ok(String::from("héllo")));
}

#[test]
fn bulk_string_rejects_invalid_utf8() {
    let v = RespValue::BulkString(vec![0xff, 0xfe]);
    assert_eq!(bulk_string_to_str(&v), Err(()));
}

#[test]
fn bulk_string_rejects_other_shapes() {
    assert_eq!(bulk_string_to_str(&RespValue::Int(5)), Err(()));
    assert_eq!(bulk_string_to_str(&RespValue::Nil), Err(()));
}

#[test]
fn hm_reads_pairs_in_order() {
    let v = RespValue::Array(vec![bulk("a"), bulk("1"), bulk("b"), bulk("2")]);
    let m = from_redis_value_to_hm(&v).ok().unwrap();
    assert_eq!(m.get(&String::from("a")), Some(&String::from("1")));
    assert_eq!(m.get(&String::from("b")), Some(&String::from("2")));
    assert_eq!(m.get(&String::from("c")), None);
}

#[test]
fn hm_later_binding_wins() {
    let v = RespValue::Array(vec![bulk("k"), bulk("old"), bulk("k"), bulk("new")]);
    let m = from_redis_value_to_hm(&v).ok().unwrap();
    assert_eq!(m.get(&String::from("k")), Some(&String::from("new")));
}

#[test]
fn hm_drops_trailing_key_and_skips_bad_keys() {
    let v = RespValue::Array(vec![
        RespValue::Int(9),
        bulk("a"),
        bulk("1"),
        bulk("dangling"),
    ]);
    let m = from_redis_value_to_hm(&v).ok().unwrap();
    assert_eq!(m.get(&String::from("a")), Some(&String::from("1")));
    assert_eq!(m.get(&String::from("dangling")), None);
}

#[test]
fn hm_rejects_non_array() {
    assert!(from_redis_value_to_hm(&bulk("x")).is_err());
}

#[test]
fn string_map_insert_shadows() {
    let mut m = StringMap::new();
    m.insert(String::from("k"), String::from("v1"));
    m.insert(String::from("k"), String::from("v2"));
    assert_eq!(m.get(&String::from("k")), Some(&String::from("v2")));
    assert_eq!(m.get(&String::from("missing")), None);
}

fn meta(pairs: &[(&str, &str)]) -> RespValue {
    let mut items = Vec::new();
    for (k, v) in pairs {
        items.push(bulk(k));
        items.push(bulk(v));
    }
    RespValue::Array(items)
}

#[test]
fn search_reply_parses_ranked_passages() {
    let v = RespValue::Array(vec![
        RespValue::Int(2),
        bulk("doc:1"),
        meta(&[("text", "A"), ("vector_distance", "0.1")]),
        bulk("doc:2"),
        meta(&[("text", "B"), ("vector_distance", "0.2")]),
    ]);
    let rs = VectorSearchResponses::from_redis_value(&v).ok().unwrap();
    assert_eq!(rs.responses.len(), 2);
    assert_eq!(rs.responses[0].id, "doc:1");
    assert_eq!(
        rs.responses[0].metadata.get(&String::from("text")),
        Some(&String::from("A"))
    );
    assert_eq!(rs.responses[1].id, "doc:2");
}

#[test]
fn search_reply_empty_array_is_empty() {
    let rs = VectorSearchResponses::from_redis_value(&RespValue::Array(vec![])).ok().unwrap();
    assert_eq!(rs.responses.len(), 0);
}

#[test]
fn search_reply_non_array_is_error() {
    assert!(VectorSearchResponses::from_redis_value(&RespValue::Int(1)).is_err());
}

#[test]
fn context_preserves_passage_order() {
    let v = RespValue::Array(vec![
        RespValue::Int(2),
        bulk("doc:1"),
        meta(&[("text", "A")]),
        bulk("doc:2"),
        meta(&[("text", "B")]),
    ]);
    let rs = VectorSearchResponses::from_redis_value(&v).ok().unwrap();
    assert_eq!(get_context_from_result(&rs.responses), "A\nB\n");
}

#[test]
fn context_skips_passage_without_text() {
    let v = RespValue::Array(vec![
        RespValue::Int(2),
        bulk("doc:1"),
        meta(&[("other", "x")]),
        bulk("doc:2"),
        meta(&[("text", "B")]),
    ]);
    let rs = VectorSearchResponses::from_redis_value(&v).ok().unwrap();
    assert_eq!(rs.responses.len(), 2);
    assert_eq!(get_context_from_result(&rs.responses), "B\n");
}

#[test]
fn context_of_no_passages_is_empty() {
    let results: Vec<VectorSearchResponse> = Vec::new();
    assert_eq!(get_context_from_result(&results), "");
}

#[test]
fn knn_query_text_is_exact() {
    let q = build_knn_query(&String::from("idx:cv"), 3);
    assert_eq!(
        q,
        "@_index_name:(\"idx:cv\")=>[KNN 3 @embedding $vector AS vector_distance]"
    );
}

#[test]
fn redis_client_accepts_valid_url() {
    assert!(create_redis_client(String::from("redis://127.0.0.1/")).is_some());
}

#[test]
fn redis_client_rejects_invalid_url() {
    assert!(create_redis_client(String::from("this is not a url")).is_none());
}

#[test]
fn vector_store_keeps_index_name() {
    let c = config_from_values(None, None, None, None, None, None, None, None, None, None);
    let store = create_redis_vector_store(&c).unwrap();
    assert_eq!(store.index_name, "idx:cv");
}

#[test]
fn vector_store_rejects_bad_address() {
    let c = config_from_values(
        None,
        None,
        None,
        Some(String::from("::nope::")),
        None,
        None,
        None,
        None,
        None,
        None,
    );
    assert!(create_redis_vector_store(&c).is_none());
}
