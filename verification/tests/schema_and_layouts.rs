use base_search::header_map::{detect_mapping, norm_header, unmapped_columns, ColSrc, HeaderIndex};
use base_search::schema::{
    col_index, column_glossary, column_header_at, column_name_at, header_for, COLUMN_COUNT,
    DATE_COL,
};

fn strings(values: &[&str]) -> Vec<String> {
    values.iter().map(|v| v.to_string()).collect()
}

#[test]
fn schema_columns_have_names_and_source_headers() {
    assert_eq!(COLUMN_COUNT, 41);
    assert_eq!(column_name_at(DATE_COL), "declaration_date");
    assert_eq!(column_header_at(DATE_COL), "Дата");
    assert_eq!(col_index("product_code"), Some(9));
    assert_eq!(col_index("nothing"), None);
    assert_eq!(header_for("source_file"), "Файл");
    assert_eq!(header_for("edrpou"), "ЕДРПОУ");
    assert_eq!(header_for("nothing"), "");
    assert!(column_glossary("rfv_usd_kg").is_some());
    assert!(column_glossary("nothing").is_none());
}

#[test]
fn header_index_finds_repeated_and_fuzzy_headers() {
    let idx = HeaderIndex::new(&strings(&["Отримувач", "Дата оформлення", "Отримувач", "Мито, грн."]));
    assert_eq!(idx.get("Отримувач", 0), Some(0));
    assert_eq!(idx.get("Отримувач", 1), Some(2));
    assert_eq!(idx.get("Отримувач", 2), None);
    assert!(idx.has("Дата оформлення"));
    assert!(!idx.has(""));
    assert_eq!(idx.get_fuzzy("Мито", 0), Some(3));
    assert_eq!(idx.first_of(&[("Nothing", 0), ("Отримувач", 1)]), Some(2));
    assert_eq!(norm_header("Код  товару, №"), "кодтовару".chars().collect::<Vec<_>>());
}

#[test]
fn registry_layout_joins_split_declaration_numbers() {
    let headers = strings(&[
        "Номер декларації 1",
        "Номер декларації 2",
        "Номер декларації 3",
        "Дата оформлення",
        "Код товару",
        "Найменування товару",
        "Примітка",
    ]);
    let mapping = detect_mapping(&headers).expect("registry layout");
    assert_eq!(mapping.len(), COLUMN_COUNT);
    match &mapping[3] {
        ColSrc::Join(parts, sep) => {
            assert_eq!(parts, &vec![0, 1, 2]);
            assert_eq!(*sep, "/");
        }
        _ => panic!("declaration number should be joined"),
    }
    assert!(matches!(mapping[DATE_COL], ColSrc::Cell(3)));
    assert!(matches!(mapping[9], ColSrc::Cell(4)));
    assert!(matches!(mapping[10], ColSrc::Cell(5)));
    assert!(matches!(mapping[0], ColSrc::Missing));
    let extra = unmapped_columns(&headers, &mapping);
    assert_eq!(extra, vec![(6, "Примітка".to_string())]);
}

#[test]
fn generic_layout_uses_header_aliases() {
    let headers = strings(&["Опис", "HS code", "Weight", "Код"]);
    let mapping = detect_mapping(&headers).expect("generic layout");
    assert!(matches!(mapping[10], ColSrc::Cell(0)));
    assert!(matches!(mapping[9], ColSrc::Cell(1)));
    let unknown = strings(&["Alpha", "Beta"]);
    assert!(detect_mapping(&unknown).is_none());
    let no_description = strings(&["Код товару", "Відправник"]);
    assert!(detect_mapping(&no_description).is_none());
}
