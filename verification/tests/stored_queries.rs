use base_search::db_types::{Filters, Query};
use base_search::stored_queries::{
    decode_component, decode_stored_queries, decode_stored_queries_with_fallback,
    encode_component, encode_stored_queries, keep_nonempty_queries, legacy_query_summary,
    QueryLabels, StoredQuery,
};

fn english_labels() -> QueryLabels {
    QueryLabels {
        year: "Year".to_string(),
        product_code: "Product code".to_string(),
        trademark: "Trademark".to_string(),
        description: "Description".to_string(),
        sender: "Sender".to_string(),
        recipient: "Recipient".to_string(),
        edrpou: "EDRPOU".to_string(),
        trade_country: "Trade country".to_string(),
        dispatch_country: "Dispatch country".to_string(),
        origin_country: "Origin country".to_string(),
        enter_query_hint: "Enter a query".to_string(),
        advanced: "Advanced".to_string(),
    }
}

#[test]
fn stored_queries_round_trip_full_query() {
    let query = Query {
        text: "Widget\tQ2%2024".into(),
        filters: Filters {
            year: "2024".into(),
            product_code: "SKU-42".into(),
            sender: "A\nB".into(),
            origin_country: "CN".into(),
            ..Filters::default()
        },
        advanced: None,
    };
    let stored = vec![StoredQuery {
        name: "Widget saved".into(),
        query: query.clone(),
    }];

    let encoded = encode_stored_queries(&stored);
    let decoded = decode_stored_queries(&encoded, &english_labels());

    assert_eq!(decoded.len(), 1);
    assert_eq!(decoded[0].name, "Widget saved");
    assert_eq!(decoded[0].query, query);
}

#[test]
fn stored_queries_fallback_reads_legacy_v1() {
    let legacy_query = Query {
        text: "legacy".into(),
        filters: Filters {
            year: "2024".into(),
            ..Filters::default()
        },
        advanced: None,
    };
    let legacy = vec![StoredQuery {
        name: "Legacy".into(),
        query: legacy_query.clone(),
    }];

    let decoded = decode_stored_queries_with_fallback(
        None,
        Some(encode_stored_queries(&legacy)),
        &english_labels(),
    );

    assert_eq!(decoded.len(), 1);
    assert_eq!(decoded[0].query, legacy_query);
}

#[test]
fn components_escape_separators_and_read_back() {
    assert_eq!(encode_component("a%b\tc\nd\re"), "a%25b%09c%0Ad%0De");
    assert_eq!(
        decode_component("a%25b%09c%0Ad%0De"),
        Some("a%b\tc\nd\re".to_string())
    );
    assert_eq!(decode_component("50%"), None);
    assert_eq!(decode_component("%zz"), None);
    assert_eq!(decode_component("%0a"), None);
    assert_eq!(decode_component("плюс"), Some("плюс".to_string()));
    assert_eq!(decode_component("%é"), None);
}

#[test]
fn decoding_skips_malformed_and_empty_lines() {
    let raw = "only\tthree\tfields\n\
               \t\t\t\t\t\t\t\t\t\t\t\n\
               bad%zz\tx\t\t\t\t\t\t\t\t\t\t\n\
               Named\ttext\t2023\t\t\t\t\t\t\t\t\t\r\n";
    let decoded = decode_stored_queries(raw, &english_labels());
    assert_eq!(decoded.len(), 1);
    assert_eq!(decoded[0].name, "Named");
    assert_eq!(decoded[0].query.text, "text");
    assert_eq!(decoded[0].query.filters.year, "2023");
    assert_eq!(decoded[0].query.filters.origin_country, "");
}

#[test]
fn blank_names_become_the_query_summary() {
    let raw = "  \t phones \t2024\t\t\t\t\t\t\t\t\tCN";
    let decoded = decode_stored_queries(raw, &english_labels());
    assert_eq!(decoded.len(), 1);
    assert_eq!(decoded[0].name, "phones В· Year: 2024 В· Origin country: CN");
}

#[test]
fn summary_of_empty_query_is_the_hint() {
    let summary = legacy_query_summary(&Query::default(), &english_labels());
    assert_eq!(summary, "Enter a query");
}

#[test]
fn v2_items_win_over_v1_when_any_constrains_something() {
    let labels = english_labels();
    let kept = StoredQuery {
        name: "kept".into(),
        query: Query {
            text: "steel".into(),
            filters: Filters::default(),
            advanced: None,
        },
    };
    let dropped = StoredQuery {
        name: "dropped".into(),
        query: Query::default(),
    };
    let v1 = encode_stored_queries(&[StoredQuery {
        name: "old".into(),
        query: Query {
            text: "copper".into(),
            filters: Filters::default(),
            advanced: None,
        },
    }]);
    let only_kept = keep_nonempty_queries(vec![dropped.clone(), kept.clone()]);
    assert_eq!(only_kept.len(), 1);
    assert_eq!(only_kept[0].name, "kept");

    let from_v2 = decode_stored_queries_with_fallback(
        Some(vec![dropped.clone(), kept.clone()]),
        Some(v1.clone()),
        &labels,
    );
    assert_eq!(from_v2.len(), 1);
    assert_eq!(from_v2[0].name, "kept");

    let from_v1 = decode_stored_queries_with_fallback(Some(vec![dropped]), Some(v1), &labels);
    assert_eq!(from_v1.len(), 1);
    assert_eq!(from_v1[0].name, "old");

    let nothing = decode_stored_queries_with_fallback(None, None, &labels);
    assert!(nothing.is_empty());
}
