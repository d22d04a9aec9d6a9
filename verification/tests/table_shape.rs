use base_search::table::{ColumnRole, ColumnStorage, SemanticField, TableShape};

#[test]
fn table_shape_keeps_every_source_column_first_class() {
    let shape = TableShape::from_headers(vec![
        "SKU".to_string(),
        "Price EUR".to_string(),
        "Origin country".to_string(),
        "SKU".to_string(),
        "".to_string(),
    ]);

    assert_eq!(shape.columns.len(), 5);
    assert_eq!(shape.columns[0].id, "sku");
    assert_eq!(shape.columns[1].role, ColumnRole::Money);
    assert_eq!(shape.columns[2].role, ColumnRole::Country);
    assert_eq!(shape.columns[3].id, "sku_2");
    assert_eq!(shape.columns[4].header, "Column 5");
}

#[test]
fn table_shape_numbers_repeated_ids_and_blank_headers() {
    let shape = TableShape::from_headers(vec![
        "  Net   weight, kg ".to_string(),
        "Net weight kg".to_string(),
        "Net-weight/kg".to_string(),
        "***".to_string(),
        "Дата оформлення".to_string(),
    ]);
    assert_eq!(shape.columns[0].header, "Net weight, kg");
    assert_eq!(shape.columns[0].id, "net_weight_kg");
    assert_eq!(shape.columns[1].id, "net_weight_kg_2");
    assert_eq!(shape.columns[2].id, "net_weight_kg_3");
    assert_eq!(shape.columns[0].role, ColumnRole::Weight);
    assert_eq!(shape.columns[3].id, "column_4");
    assert_eq!(shape.columns[3].header, "***");
    assert_eq!(shape.columns[3].role, ColumnRole::Text);
    assert_eq!(shape.columns[4].id, "дата_оформлення");
    assert_eq!(shape.columns[4].role, ColumnRole::Date);
    for (i, column) in shape.columns.iter().enumerate() {
        assert_eq!(column.source_index, i);
        assert!(column.semantic.is_none());
        assert!(matches!(column.storage, ColumnStorage::SourceJson));
    }
}

#[test]
fn table_shape_roles_follow_header_words() {
    let shape = TableShape::from_headers(vec![
        "Year".to_string(),
        "Product code".to_string(),
        "Order number".to_string(),
        "Qty".to_string(),
        "Comment".to_string(),
    ]);
    assert_eq!(shape.columns[0].role, ColumnRole::Year);
    assert_eq!(shape.columns[1].role, ColumnRole::Code);
    assert_eq!(shape.columns[2].role, ColumnRole::Identifier);
    assert_eq!(shape.columns[3].role, ColumnRole::Number);
    assert_eq!(shape.columns[4].role, ColumnRole::Text);
}

#[test]
fn with_semantics_uses_the_last_pair_for_an_id() {
    let shape = TableShape::from_headers(vec!["Sender".to_string(), "Value".to_string()])
        .with_semantics(vec![
            ("sender".to_string(), SemanticField::Recipient),
            ("sender".to_string(), SemanticField::Sender),
            ("missing".to_string(), SemanticField::Value),
        ]);
    assert_eq!(shape.columns[0].semantic, Some(SemanticField::Sender));
    assert_eq!(shape.columns[1].semantic, None);
    assert_eq!(shape.columns[1].id, "value");
}
