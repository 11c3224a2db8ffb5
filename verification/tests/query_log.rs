use anime_bot::query_log::{
    array_of, document_of, member_of, quote_all, record_query, Stored, UserEntry, UserQueries,
};
use std::collections::BTreeMap;

fn strings(items: &[&str]) -> Vec<String> {
    items.iter().map(|s| s.to_string()).collect()
}

#[test]
fn empty_log_document() {
    let log = UserQueries::new();
    assert_eq!(log.to_json(), "{\"queries\":{}}");
    assert!(log.entries().is_empty());
}

#[test]
fn first_query_creates_the_document() {
    let mut log = UserQueries::new();
    log.record("u1", "naruto");
    assert_eq!(log.to_json(), "{\"queries\":{\"u1\":[\"naruto\"]}}");
}

#[test]
fn second_query_is_appended() {
    let mut log = UserQueries::new();
    log.record("u1", "naruto");
    log.record("u1", "bleach");
    assert_eq!(log.to_json(), "{\"queries\":{\"u1\":[\"naruto\",\"bleach\"]}}");
}

#[test]
fn users_are_kept_apart() {
    let mut log = UserQueries::new();
    log.record("u1", "naruto");
    log.record("u2", "lain");
    log.record("u1", "bleach");
    assert_eq!(
        log.to_json(),
        "{\"queries\":{\"u1\":[\"naruto\",\"bleach\"],\"u2\":[\"lain\"]}}"
    );
    assert_eq!(log.queries_of("u1"), strings(&["naruto", "bleach"]));
    assert_eq!(log.queries_of("u2"), strings(&["lain"]));
    assert_eq!(log.queries_of("u3"), Vec::<String>::new());
    assert_eq!(log.entries().len(), 2);
}

#[test]
fn repeated_queries_are_all_kept() {
    let mut log = UserQueries::new();
    log.record("u1", "naruto");
    log.record("u1", "naruto");
    assert_eq!(log.queries_of("u1"), strings(&["naruto", "naruto"]));
}

#[test]
fn texts_are_escaped_in_the_document() {
    let mut log = UserQueries::new();
    log.record("a\"b", "x\\y\nz");
    assert_eq!(log.to_json(), "{\"queries\":{\"a\\\"b\":[\"x\\\\y\\nz\"]}}");
}

#[test]
fn document_is_read_back_by_a_json_parser() {
    let mut log = UserQueries::new();
    log.record("42", "Attack on Titan");
    log.record("42", "\u{9032}\u{6483}\u{306e}\u{5de8}\u{4eba}");
    log.record("7", "tab\there");
    let value: serde_json::Value = serde_json::from_str(&log.to_json()).unwrap();
    let queries = value.get("queries").unwrap();
    let first = queries.get("42").unwrap().as_array().unwrap();
    assert_eq!(first.len(), 2);
    assert_eq!(first[0].as_str(), Some("Attack on Titan"));
    assert_eq!(first[1].as_str(), Some("\u{9032}\u{6483}\u{306e}\u{5de8}\u{4eba}"));
    let second = queries.get("7").unwrap().as_array().unwrap();
    assert_eq!(second[0].as_str(), Some("tab\there"));
}

#[test]
fn extend_appends_in_order() {
    let mut log = UserQueries::new();
    log.extend("u1", &strings(&["a", "b"]));
    log.extend("u2", &strings(&[]));
    log.extend("u1", &strings(&["c"]));
    assert_eq!(log.queries_of("u1"), strings(&["a", "b", "c"]));
    assert_eq!(log.to_json(), "{\"queries\":{\"u1\":[\"a\",\"b\",\"c\"],\"u2\":[]}}");
}

#[test]
fn from_entries_merges_repeated_users() {
    let entries = vec![
        UserEntry { user: "u1".to_string(), queries: strings(&["a"]) },
        UserEntry { user: "u2".to_string(), queries: strings(&["b"]) },
        UserEntry { user: "u1".to_string(), queries: strings(&["c", "d"]) },
    ];
    let log = UserQueries::from_entries(&entries);
    assert_eq!(
        log.entries(),
        &vec![
            UserEntry { user: "u1".to_string(), queries: strings(&["a", "c", "d"]) },
            UserEntry { user: "u2".to_string(), queries: strings(&["b"]) },
        ]
    );
}

#[test]
fn from_entries_then_record() {
    let entries = vec![UserEntry { user: "u1".to_string(), queries: strings(&["naruto"]) }];
    let mut log = UserQueries::from_entries(&entries);
    log.record("u1", "bleach");
    assert_eq!(log.to_json(), "{\"queries\":{\"u1\":[\"naruto\",\"bleach\"]}}");
}

#[test]
fn document_pieces() {
    assert_eq!(array_of(&strings(&[])), "[]");
    assert_eq!(array_of(&strings(&["1"])), "[1]");
    assert_eq!(array_of(&strings(&["\"a\"", "\"b\""])), "[\"a\",\"b\"]");
    assert_eq!(member_of("\"k\"", "[]"), "\"k\":[]");
    assert_eq!(document_of(&strings(&[])), "{\"queries\":{}}");
    assert_eq!(document_of(&strings(&["\"a\":[]", "\"b\":[]"])), "{\"queries\":{\"a\":[],\"b\":[]}}");
}

#[test]
fn quoting_is_not_the_identity() {
    assert_eq!(quote_all(&strings(&["naruto", "a\"b", ""])), strings(&["\"naruto\"", "\"a\\\"b\"", "\"\""]));
}

fn stored_document(text: &str) -> Stored {
    let parsed: Result<BTreeMap<String, BTreeMap<String, Vec<String>>>, _> =
        serde_json::from_str(text);
    match parsed {
        Ok(mut document) => match document.remove("queries") {
            Some(queries) => Stored::Document(
                queries.into_iter().map(|(user, queries)| UserEntry { user, queries }).collect(),
            ),
            None => Stored::Malformed,
        },
        Err(_) => Stored::Malformed,
    }
}

#[test]
fn record_query_against_a_missing_store() {
    let first = record_query(&Stored::Missing, "u1", "naruto");
    assert_eq!(first.document, "{\"queries\":{\"u1\":[\"naruto\"]}}");
    assert!(first.create_storage);
    let second = record_query(&stored_document(&first.document), "u1", "bleach");
    assert_eq!(second.document, "{\"queries\":{\"u1\":[\"naruto\",\"bleach\"]}}");
    assert!(!second.create_storage);
    assert_eq!(second.log.queries_of("u1"), strings(&["naruto", "bleach"]));
}

#[test]
fn record_query_against_an_empty_document() {
    let first = record_query(&stored_document("{\"queries\":{}}"), "u1", "naruto");
    assert_eq!(first.document, "{\"queries\":{\"u1\":[\"naruto\"]}}");
    assert!(!first.create_storage);
}

#[test]
fn record_query_starts_anew_where_the_document_is_lost() {
    for stored in [Stored::Unreadable, Stored::Malformed, stored_document("not json")] {
        let recorded = record_query(&stored, "u1", "naruto");
        assert_eq!(recorded.document, "{\"queries\":{\"u1\":[\"naruto\"]}}");
        assert!(!recorded.create_storage);
    }
}

#[test]
fn record_query_keeps_the_other_users() {
    let stored = stored_document("{\"queries\":{\"a\":[\"x\"],\"b\":[\"y\",\"z\"]}}");
    let recorded = record_query(&stored, "b", "w");
    assert_eq!(
        recorded.document,
        "{\"queries\":{\"a\":[\"x\"],\"b\":[\"y\",\"z\",\"w\"]}}"
    );
    let again = record_query(&stored_document(&recorded.document), "c", "v");
    assert_eq!(
        again.document,
        "{\"queries\":{\"a\":[\"x\"],\"b\":[\"y\",\"z\",\"w\"],\"c\":[\"v\"]}}"
    );
}
