use base_search::columns::{
    apply_column_preset, column_group, column_in_preset, field_cell_kind, field_glossary,
    field_matches_filter, hidden_result_ids, set_all_columns, visibility_for, CellKind,
    ColumnPreset,
};
use base_search::search::{operators_for_kind, FieldInfo, FieldKind, FieldRef};

fn column(id: &str, label: &str, kind: FieldKind) -> FieldInfo {
    FieldInfo {
        id: id.to_string(),
        label: label.to_string(),
        source: FieldRef::Column(id.to_string()),
        kind,
        operators: operators_for_kind(kind),
    }
}

fn extra(id: &str, kind: FieldKind) -> FieldInfo {
    FieldInfo {
        id: format!("extra:{id}"),
        label: id.to_string(),
        source: FieldRef::Extra(id.to_string()),
        kind,
        operators: operators_for_kind(kind),
    }
}

#[test]
fn basic_preset_keeps_working_columns() {
    let description = column("description", "Description", FieldKind::Text);
    let price = column("currency_control_value", "Value", FieldKind::Number);
    let contract = column("contract", "Contract", FieldKind::Text);

    assert!(column_in_preset(&description, ColumnPreset::Basic));
    assert!(column_in_preset(&price, ColumnPreset::Basic));
    assert!(!column_in_preset(&contract, ColumnPreset::Basic));
}

#[test]
fn columns_have_groups_and_visual_kinds() {
    let code = column("product_code", "Product code", FieldKind::Code);
    let value = column("currency_control_value", "Value", FieldKind::Number);

    assert_eq!(column_group(&code), "Goods");
    assert_eq!(column_group(&value), "Prices and payments");
    assert!(matches!(field_cell_kind(&code), CellKind::Code));
    assert!(matches!(field_cell_kind(&value), CellKind::Number));
}

#[test]
fn source_columns_are_grouped_and_shown_only_by_basic() {
    let source = extra("Colour", FieldKind::Text);
    assert_eq!(column_group(&source), "Source columns");
    assert!(column_in_preset(&source, ColumnPreset::Basic));
    assert!(!column_in_preset(&source, ColumnPreset::Prices));
    assert_eq!(field_cell_kind(&extra("Amount", FieldKind::Number)), CellKind::Number);
    assert_eq!(field_cell_kind(&extra("When", FieldKind::Date)), CellKind::Weak);
    assert!(field_glossary(&source).is_none());
    let other = column("mystery", "Mystery", FieldKind::Text);
    assert_eq!(column_group(&other), "Profile details");
    assert_eq!(field_cell_kind(&other), CellKind::Normal);
}

#[test]
fn column_search_looks_at_label_id_and_group() {
    let value = column("currency_control_value", "Value", FieldKind::Number);
    assert!(field_matches_filter(&value, ""));
    assert!(field_matches_filter(&value, "val"));
    assert!(field_matches_filter(&value, "payments"));
    assert!(field_matches_filter(&value, "currency_control"));
    assert!(!field_matches_filter(&value, "zzz"));
}

#[test]
fn presets_and_bulk_toggles_keep_a_column_visible() {
    let fields = vec![
        column("description", "Description", FieldKind::Text),
        column("delivery_terms", "Terms", FieldKind::Text),
        column("contract", "Contract", FieldKind::Text),
    ];
    let mut visible = vec![false, true, true, true];
    apply_column_preset(&fields, &mut visible, ColumnPreset::Logistics);
    assert_eq!(visible, vec![false, true, false, true]);

    let mut only_unknown = vec![false, false, false];
    let unknown = vec![column("contract", "Contract", FieldKind::Text)];
    apply_column_preset(&unknown, &mut only_unknown, ColumnPreset::Prices);
    assert_eq!(only_unknown, vec![true, false, false]);

    set_all_columns(&mut visible, false);
    assert_eq!(visible, vec![true, false, false, false]);
    set_all_columns(&mut visible, true);
    assert_eq!(visible, vec![true, true, true, true]);
}

#[test]
fn hidden_columns_stay_hidden_after_fields_change() {
    let fields = vec![
        column("description", "Description", FieldKind::Text),
        column("sender", "Sender", FieldKind::Text),
        column("edrpou", "EDRPOU", FieldKind::Code),
    ];
    let hidden = hidden_result_ids(&fields, &[true, false, false]);
    assert_eq!(hidden, vec!["sender".to_string(), "edrpou".to_string()]);
    let reordered = vec![
        column("edrpou", "EDRPOU", FieldKind::Code),
        column("recipient", "Recipient", FieldKind::Text),
        column("sender", "Sender", FieldKind::Text),
    ];
    assert_eq!(visibility_for(&reordered, &hidden), vec![false, true, false]);
}
