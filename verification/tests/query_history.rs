use base_search::db_types::{AnalyticsFilterAction, AnalyticsFilterField, Filters, Query};
use base_search::history::{
    apply_analytics_filter, comparison_query, previous_year_comparison, quick_filter,
    remember_recent_query, remove_saved_query, same_query, save_current_query,
    RECENT_QUERY_LIMIT,
};
use base_search::search::{
    ConditionOp, ConditionValue, FieldRef, LogicOp, QueryCondition, QueryExpr, QueryGroup,
};
use base_search::stored_queries::StoredQuery;

fn text_query(text: &str) -> Query {
    Query { text: text.to_string(), ..Query::default() }
}

fn entry(name: &str, text: &str) -> StoredQuery {
    StoredQuery { name: name.to_string(), query: text_query(text) }
}

fn names(items: &[StoredQuery]) -> Vec<String> {
    items.iter().map(|s| s.name.clone()).collect()
}

fn advanced(value: &str) -> QueryExpr {
    QueryExpr::Group(QueryGroup {
        op: LogicOp::And,
        negated: false,
        children: vec![QueryExpr::Condition(QueryCondition {
            field: FieldRef::Column("description".to_string()),
            op: ConditionOp::IsAnyOf,
            value: ConditionValue::List(vec![value.to_string(), "b".to_string()]),
            negated: false,
        })],
    })
}

#[test]
fn same_query_compares_every_part() {
    let mut a = text_query("steel");
    let mut b = text_query("steel");
    assert!(same_query(&a, &b));
    b.filters.year = "2024".to_string();
    assert!(!same_query(&a, &b));
    a.filters.year = "2024".to_string();
    a.advanced = Some(advanced("a"));
    assert!(!same_query(&a, &b));
    b.advanced = Some(advanced("a"));
    assert!(same_query(&a, &b));
    b.advanced = Some(advanced("c"));
    assert!(!same_query(&a, &b));
}

#[test]
fn remembered_search_moves_to_front_without_duplicates() {
    let mut recent = vec![entry("one", "steel"), entry("two", "copper"), entry("three", "zinc")];
    remember_recent_query(&mut recent, entry("again", "copper"));
    assert_eq!(names(&recent), vec!["again", "one", "three"]);
    remember_recent_query(&mut recent, entry("again", "copper"));
    assert_eq!(names(&recent), vec!["again", "one", "three"]);
}

#[test]
fn empty_search_is_not_remembered() {
    let mut recent = vec![entry("one", "steel")];
    remember_recent_query(&mut recent, entry("blank", "   "));
    assert_eq!(names(&recent), vec!["one"]);
    let mut saved = Vec::new();
    save_current_query(&mut saved, entry("blank", ""));
    assert!(saved.is_empty());
}

#[test]
fn recent_list_is_capped() {
    let mut recent = Vec::new();
    for i in 0..20 {
        remember_recent_query(&mut recent, entry(&format!("q{i}"), &format!("text {i}")));
    }
    assert_eq!(recent.len(), RECENT_QUERY_LIMIT);
    assert_eq!(recent[0].name, "q19");
    assert_eq!(recent[RECENT_QUERY_LIMIT - 1].name, "q8");
}

#[test]
fn saved_list_is_not_capped_and_entries_can_be_removed() {
    let mut saved = Vec::new();
    for i in 0..15 {
        save_current_query(&mut saved, entry(&format!("s{i}"), &format!("text {i}")));
    }
    assert_eq!(saved.len(), 15);
    save_current_query(&mut saved, entry("renamed", "text 3"));
    assert_eq!(saved.len(), 15);
    assert_eq!(saved[0].name, "renamed");
    remove_saved_query(&mut saved, 0);
    assert_eq!(saved.len(), 14);
    assert_eq!(saved[0].name, "s14");
    remove_saved_query(&mut saved, 40);
    assert_eq!(saved.len(), 14);
}

#[test]
fn comparison_replaces_text_and_year_when_given() {
    let mut active = text_query("steel pipes");
    active.filters.year = "2023".to_string();
    active.filters.sender = "ACME".to_string();
    let same = comparison_query(&active, "  ", "");
    assert_eq!(same, active);
    let q = comparison_query(&active, "  copper wire ", " 2024 ");
    assert_eq!(q.text, "copper wire");
    assert_eq!(q.filters.year, "2024");
    assert_eq!(q.filters.sender, "ACME");
}

#[test]
fn analytics_drill_down_sets_one_filter() {
    let mut filters = Filters::default();
    filters.year = "2024".to_string();
    apply_analytics_filter(
        &mut filters,
        AnalyticsFilterAction { field: AnalyticsFilterField::OriginCountry, value: "PL".to_string() },
    );
    assert_eq!(filters.origin_country, "PL");
    assert_eq!(filters.year, "2024");
    assert_eq!(filters.dispatch_country, "");
}

#[test]
fn quick_filter_clears_other_criteria() {
    let mut text = "steel".to_string();
    let mut filters = Filters::default();
    filters.year = "2024".to_string();
    quick_filter(&mut text, &mut filters, AnalyticsFilterField::Edrpou, "12345678".to_string());
    assert_eq!(text, "");
    assert_eq!(filters.year, "");
    assert_eq!(filters.edrpou, "12345678");
}

#[test]
fn previous_year_button_fills_the_comparison() {
    let mut active = text_query("steel");
    active.filters.year = " 2024 ".to_string();
    let mut text = String::new();
    let mut year = "2020".to_string();
    previous_year_comparison(&active, &mut text, &mut year);
    assert_eq!(year, "2023");
    assert_eq!(text, "steel");
    let mut kept = "copper".to_string();
    active.filters.year = "last".to_string();
    previous_year_comparison(&active, &mut kept, &mut year);
    assert_eq!(year, "2023");
    assert_eq!(kept, "copper");
}
