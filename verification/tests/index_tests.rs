use meilisearch_bridge::errors::BridgeErrorCode;
use meilisearch_bridge::index::{
    document_window, documents_indexed_details, documents_page, documents_received_details,
    extract_external_id, filter_attributes, hit_fields, parse_ndjson_documents, saturate_u128_to_u32,
    saturate_u64_to_u32, search_query, search_window, settings_details, truncate_u64_to_u32,
    GetDocumentsOptions, IndexSettingsUpdate, SearchOptions,
};
use meilisearch_bridge::json::value_to_string;
use serde_json::Value;

fn object(text: &str) -> serde_json::Map<String, Value> {
    match serde_json::from_str::<Value>(text).unwrap() {
        Value::Object(m) => m,
        _ => panic!("not an object"),
    }
}

#[test]
fn ndjson_skips_blank_lines_and_keeps_objects_in_order() {
    let docs = parse_ndjson_documents("{\"id\":1}\n\n   \r\n  {\"id\":2, \"t\":\"x\"}  \r\n").unwrap();
    assert_eq!(docs.len(), 2);
    assert_eq!(docs[0], Value::Object(object("{\"id\":1}")));
    assert_eq!(docs[1], Value::Object(object("{\"id\":2,\"t\":\"x\"}")));
    assert!(parse_ndjson_documents("").unwrap().is_empty());
}

#[test]
fn ndjson_reports_the_line_of_invalid_json() {
    let e = parse_ndjson_documents("{\"id\":1}\n\n{oops\n[1]").unwrap_err();
    assert_eq!(e.code, BridgeErrorCode::InvalidArgument);
    let expected = serde_json::from_str::<Value>("{oops").unwrap_err().to_string();
    assert_eq!(e.message, format!("line 3: {expected}"));
}

#[test]
fn ndjson_refuses_values_that_are_not_objects() {
    let e = parse_ndjson_documents("{\"id\":1}\n[1,2]\n{bad").unwrap_err();
    assert_eq!(e.code, BridgeErrorCode::InvalidArgument);
    assert_eq!(e.message, "each document must be a JSON object");
}

#[test]
fn filtering_keeps_requested_fields_only() {
    let doc = object("{\"id\":\"1\",\"title\":\"Inception\",\"year\":2010}");
    let fields = vec!["title".to_string(), "missing".to_string(), "id".to_string(), "title".to_string()];
    let kept = filter_attributes(doc.clone(), Some(&fields));
    assert_eq!(kept, object("{\"title\":\"Inception\",\"id\":\"1\"}"));
    assert_eq!(filter_attributes(doc.clone(), None), doc);
    assert!(filter_attributes(doc, Some(&[])).is_empty());
}

#[test]
fn external_ids_come_from_the_primary_key_or_the_docid() {
    let doc = object("{\"id\":\"abc\",\"n\":12,\"b\":true,\"o\":{\"x\":[1,null]},\"s\":\"q\\\"\"}");
    assert_eq!(extract_external_id(&doc, Some("id"), 7), "abc");
    assert_eq!(extract_external_id(&doc, Some("n"), 7), "12");
    assert_eq!(extract_external_id(&doc, Some("b"), 7), "true");
    assert_eq!(extract_external_id(&doc, Some("o"), 7), "{\"x\":[1,null]}");
    assert_eq!(extract_external_id(&doc, Some("s"), 7), "q\"");
    assert_eq!(extract_external_id(&doc, Some("nope"), 7), "7");
    assert_eq!(extract_external_id(&doc, None, 42), "42");
    assert_eq!(value_to_string(&Value::Bool(false)), "false");
    assert_eq!(value_to_string(&Value::Null), "null");
}

#[test]
fn windows_default_to_offset_zero_limit_twenty() {
    assert_eq!(document_window(&None), (0, 20));
    let o = GetDocumentsOptions { offset: Some(5), limit: None, fields: None };
    assert_eq!(document_window(&Some(o)), (5, 20));
    let s = SearchOptions { offset: None, limit: Some(3), attributes_to_retrieve: None };
    assert_eq!(search_window(&Some(s)), (0, 3));
    assert_eq!(search_window(&Some(SearchOptions::default())), (0, 20));
}

#[test]
fn empty_queries_search_for_nothing_in_particular() {
    assert_eq!(search_query(""), None);
    assert_eq!(search_query("incep").as_deref(), Some("incep"));
}

#[test]
fn counts_are_reported_as_u32() {
    assert_eq!(saturate_u64_to_u32(5), 5);
    assert_eq!(saturate_u64_to_u32(1 << 40), u32::MAX);
    assert_eq!(saturate_u128_to_u32(1 << 100), u32::MAX);
    assert_eq!(truncate_u64_to_u32((1 << 32) + 3), 3);
    let page = documents_page(vec![Value::Null], 2, 10, 1 << 33);
    assert_eq!((page.offset, page.limit, page.total), (2, 10, u32::MAX));
    assert_eq!(page.results.len(), 1);
}

#[test]
fn task_details_of_additions_and_settings() {
    let d = documents_received_details(3);
    assert_eq!((d.received_documents, d.indexed_documents), (Some(3), None));
    let d = documents_indexed_details(3, (1 << 32) + 2);
    assert_eq!((d.received_documents, d.indexed_documents), (Some(3), Some(2)));
    let settings = IndexSettingsUpdate {
        searchable_attributes: Some(vec!["title".into(), "overview".into()]),
        ..IndexSettingsUpdate::default()
    };
    let d = settings_details(&settings);
    assert_eq!(d.searchable_attributes, Some(vec!["title".to_string(), "overview".to_string()]));
    assert_eq!(settings_details(&IndexSettingsUpdate::default()).searchable_attributes, None);
}

#[test]
fn a_hit_takes_its_id_before_projection() {
    let doc = object("{\"id\":\"abc\",\"title\":\"Inception\",\"year\":2010}");
    let fields = vec!["title".to_string()];
    let (id, projected) = hit_fields(doc.clone(), Some("id"), 3, Some(&fields));
    assert_eq!(id, "abc");
    assert_eq!(projected, object("{\"title\":\"Inception\"}"));
    let (id, whole) = hit_fields(doc.clone(), None, 3, None);
    assert_eq!(id, "3");
    assert_eq!(whole, doc);
}
