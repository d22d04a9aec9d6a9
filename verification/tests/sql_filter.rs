use base_search::db_types::{Filters, Query};
use base_search::duck_filter::{push_contains, push_eq_i64, push_eq_text, push_prefix, sql_string, DuckFilter};

#[test]
fn sql_strings_double_their_quotes() {
    assert_eq!(sql_string("O'Neil"), "'O''Neil'");
    assert_eq!(sql_string(""), "''");
    assert_eq!(sql_string("''"), "''''''");
}

#[test]
fn conditions_follow_their_filters() {
    let mut c = Vec::new();
    push_eq_i64(&mut c, "year", " 2024 ");
    push_eq_i64(&mut c, "year", "20x4");
    push_eq_i64(&mut c, "year", "   ");
    push_eq_text(&mut c, "origin_key", " cn ");
    push_prefix(&mut c, "product_code", "84'");
    push_contains(&mut c, "sender_label", " ACME ");
    assert_eq!(
        c,
        vec![
            "year = 2024".to_string(),
            "upper(coalesce(origin_key, '')) = 'CN'".to_string(),
            "coalesce(product_code, '') LIKE '84''' || '%'".to_string(),
            "lower(coalesce(sender_label, '')) LIKE '%' || 'acme' || '%'".to_string(),
        ]
    );
}

#[test]
fn empty_query_has_an_empty_where_clause() {
    let filter = DuckFilter::from_query(&Query::default());
    assert!(filter.conditions.is_empty());
    assert_eq!(filter.where_sql(), "");
    assert_eq!(filter.where_extra_sql(), "WHERE");
}

#[test]
fn query_conditions_are_joined_with_and() {
    let query = Query {
        text: " Steel ".into(),
        filters: Filters {
            year: "2023".into(),
            trade_country: "de".into(),
            ..Filters::default()
        },
        advanced: None,
    };
    let filter = DuckFilter::from_query(&query);
    assert_eq!(filter.conditions.len(), 3);
    assert!(filter.conditions[0].ends_with("LIKE '%' || 'steel' || '%'"));
    assert!(filter.conditions[0].starts_with("lower(coalesce(description, '')"));
    assert_eq!(filter.conditions[1], "year = 2023");
    assert_eq!(filter.conditions[2], "upper(coalesce(trade_key, '')) = 'DE'");
    let clause = filter.where_sql();
    assert!(clause.starts_with("WHERE lower("));
    assert!(clause.ends_with(" AND year = 2023 AND upper(coalesce(trade_key, '')) = 'DE'"));
    assert!(filter.where_extra_sql().ends_with("'DE' AND"));
}
