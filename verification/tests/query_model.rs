use base_search::advanced::{
    add_advanced_condition, apply_advanced_chip_action, clear_filter, ensure_advanced_root,
    flat_filter_chips, toggle_expr_not, AdvancedChipAction,
};
use base_search::db_types::{analytics_should_run, Filters, Query};
use base_search::search::{
    condition_value_label, default_condition_for_field, default_field_catalog,
    default_value_for_op, ensure_value_matches_operator, expr_label, field_catalog,
    field_kind_for_column, field_label, ConditionOp, ConditionValue, FieldKind, FieldRef,
    LogicOp, QueryCondition, QueryExpr, QueryGroup,
};
use base_search::stored_queries::QueryLabels;

fn labels() -> QueryLabels {
    QueryLabels {
        year: "Year".to_string(),
        product_code: "Product code".to_string(),
        trademark: "Trademark".to_string(),
        description: "Description".to_string(),
        sender: "Sender".to_string(),
        recipient: "Recipient".to_string(),
        edrpou: "EDRPOU".to_string(),
        trade_country: "Trade country".to_string(),
        dispatch_country: "Dispatch country".to_string(),
        origin_country: "Origin country".to_string(),
        enter_query_hint: "Enter a query".to_string(),
        advanced: "Advanced".to_string(),
    }
}

fn sender_contains(value: &str) -> QueryCondition {
    QueryCondition {
        field: FieldRef::Column("sender".into()),
        op: ConditionOp::Contains,
        value: ConditionValue::Single(value.into()),
        negated: false,
    }
}

#[test]
fn empty_queries_do_not_run_analytics() {
    let mut query = Query::default();
    assert!(query.is_empty());
    assert!(!analytics_should_run(&query));
    query.filters.year = "   ".into();
    assert!(query.is_empty());
    query.advanced = Some(QueryExpr::Condition(sender_contains(" ")));
    assert!(query.is_empty());
    query.advanced = Some(QueryExpr::Condition(sender_contains("Widget")));
    assert!(!query.is_empty());
    assert!(analytics_should_run(&query));
    let mut filters = Filters::default();
    filters.edrpou = "1".into();
    assert!(!filters.is_empty());
    filters.clear();
    assert!(filters.is_empty());
}

#[test]
fn catalog_lists_year_schema_and_trimmed_extra_columns() {
    let catalog = field_catalog(vec![" Colour ".to_string(), "  ".to_string(), "Ship date".to_string()]);
    assert_eq!(catalog[0].id, "year");
    assert_eq!(catalog[0].kind, FieldKind::Year);
    let extra = &catalog[catalog.len() - 2];
    assert_eq!(extra.id, "extra:Colour");
    assert_eq!(extra.label, "Colour");
    assert_eq!(extra.kind, FieldKind::Text);
    assert_eq!(catalog[catalog.len() - 1].kind, FieldKind::Date);
    assert_eq!(catalog.len(), default_field_catalog().len() + 2);
    assert_eq!(field_kind_for_column("edrpou"), FieldKind::Code);
    assert_eq!(field_kind_for_column("net_kg"), FieldKind::Number);
    assert_eq!(field_kind_for_column("origin_country"), FieldKind::Country);
    assert_eq!(field_kind_for_column("anything"), FieldKind::Text);
}

#[test]
fn default_conditions_follow_the_field_kind() {
    let catalog = default_field_catalog();
    let code = catalog.iter().find(|f| f.id == "product_code").unwrap();
    let condition = default_condition_for_field(code);
    assert_eq!(condition.op, ConditionOp::StartsWith);
    assert_eq!(condition.value, ConditionValue::Single(String::new()));
    assert_eq!(default_value_for_op(ConditionOp::IsAnyOf), ConditionValue::List(vec![String::new()]));
    assert_eq!(
        default_value_for_op(ConditionOp::Range),
        ConditionValue::Range { from: None, to: None }
    );
    assert_eq!(default_value_for_op(ConditionOp::IsEmpty), ConditionValue::NoValue);
}

#[test]
fn values_are_reset_when_the_operator_changes() {
    let mut condition = sender_contains("Widget");
    ensure_value_matches_operator(&mut condition);
    assert_eq!(condition.value, ConditionValue::Single("Widget".into()));
    condition.op = ConditionOp::Range;
    ensure_value_matches_operator(&mut condition);
    assert_eq!(condition.value, ConditionValue::Range { from: None, to: None });
    ensure_value_matches_operator(&mut condition);
    assert_eq!(condition.value, ConditionValue::Range { from: None, to: None });
}

#[test]
fn labels_read_like_the_interface() {
    let catalog = default_field_catalog();
    let mut condition = sender_contains("Widget");
    condition.negated = true;
    let label = expr_label(&QueryExpr::Condition(condition), &catalog);
    assert!(label.starts_with("NOT "));
    assert!(label.ends_with(" contains Widget"));
    let group = QueryExpr::Group(QueryGroup { op: LogicOp::Or, negated: false, children: vec![] });
    assert_eq!(expr_label(&group, &catalog), "OR group");
    let empty = QueryCondition {
        field: FieldRef::Extra("Colour".into()),
        op: ConditionOp::IsEmpty,
        value: ConditionValue::NoValue,
        negated: false,
    };
    assert_eq!(expr_label(&QueryExpr::Condition(empty), &catalog), "extra:Colour is empty");
    assert_eq!(field_label(&FieldRef::Extra("Colour".into()), &catalog), "extra:Colour");
    assert_eq!(
        condition_value_label(&ConditionValue::List(vec!["a".into(), "b".into()])),
        "a, b"
    );
    assert_eq!(
        condition_value_label(&ConditionValue::Range { from: Some("1".into()), to: None }),
        "1.."
    );
}

#[test]
fn chip_actions_edit_the_root_group() {
    let mut query = Some(QueryExpr::Condition(sender_contains("A")));
    ensure_advanced_root(&mut query);
    match &query {
        Some(QueryExpr::Group(group)) => {
            assert_eq!(group.op, LogicOp::And);
            assert_eq!(group.children.len(), 1);
        }
        _ => panic!("expected a group"),
    }
    add_advanced_condition(&mut query, sender_contains("B"));
    apply_advanced_chip_action(&mut query, AdvancedChipAction::Duplicate(0));
    apply_advanced_chip_action(&mut query, AdvancedChipAction::ToggleNot(2));
    apply_advanced_chip_action(&mut query, AdvancedChipAction::Remove(1));
    apply_advanced_chip_action(&mut query, AdvancedChipAction::Remove(9));
    match &query {
        Some(QueryExpr::Group(group)) => {
            assert_eq!(group.children.len(), 2);
            assert_eq!(group.children[0], QueryExpr::Condition(sender_contains("A")));
            let mut negated_b = sender_contains("B");
            negated_b.negated = true;
            assert_eq!(group.children[1], QueryExpr::Condition(negated_b));
        }
        _ => panic!("expected a group"),
    }
    let mut none: Option<QueryExpr> = None;
    add_advanced_condition(&mut none, sender_contains("C"));
    match &none {
        Some(QueryExpr::Group(group)) => assert_eq!(group.children.len(), 1),
        _ => panic!("expected a group"),
    }
}

#[test]
fn toggling_negation_twice_restores_the_expression() {
    let original = QueryExpr::Condition(sender_contains("A"));
    let mut expr = QueryExpr::Condition(sender_contains("A"));
    toggle_expr_not(&mut expr);
    assert_ne!(expr, original);
    toggle_expr_not(&mut expr);
    assert_eq!(expr, original);
}

#[test]
fn filter_chips_show_set_filters_in_chip_order() {
    let mut filters = Filters {
        year: " 2024 ".into(),
        edrpou: "123".into(),
        product_code: "84".into(),
        description: "  ".into(),
        origin_country: "CN".into(),
        ..Filters::default()
    };
    let chips = flat_filter_chips(&filters, &labels());
    let shown: Vec<(String, String)> = chips.iter().map(|(l, v, _)| (l.clone(), v.clone())).collect();
    assert_eq!(
        shown,
        vec![
            ("Year".to_string(), "2024".to_string()),
            ("Product code".to_string(), "84".to_string()),
            ("EDRPOU".to_string(), "123".to_string()),
            ("Origin country".to_string(), "CN".to_string()),
        ]
    );
    let (_, _, slot) = chips[2];
    clear_filter(&mut filters, slot);
    assert_eq!(filters.edrpou, "");
    assert_eq!(flat_filter_chips(&filters, &labels()).len(), 3);
}
