use base_search::cli::{
    analytics_section_title, export_error_message, json_escape, parse_compact_options,
    parse_export_query, parse_positive_usize, parse_query, parse_search_args, parse_usize,
    price_metric_title, search_row_line, trunc,
};
use base_search::search::{FieldInfo, FieldKind, FieldRef};
use base_search::db_types::{AnalyticsSectionKind, PriceMetricKind};
use base_search::export::ExportError;

fn args(values: &[&str]) -> Vec<String> {
    values.iter().map(|value| (*value).to_string()).collect()
}

#[test]
fn parse_query_rejects_missing_filter_values() {
    assert!(parse_query(&args(&["--year"])).is_err());
    assert!(parse_query(&args(&["--code"])).is_err());
}

#[test]
fn parse_query_rejects_invalid_limit() {
    assert!(parse_query(&args(&["--limit", "nope"])).is_err());
}

#[test]
fn parse_query_rejects_unknown_flags() {
    assert!(parse_query(&args(&["--unknown"])).is_err());
}

#[test]
fn parse_export_query_rejects_limit() {
    assert!(parse_export_query(&args(&["--limit", "10"])).is_err());
}

#[test]
fn parse_compact_options_accepts_only_vacuum_flag() {
    assert!(!parse_compact_options(&[]).unwrap());
    assert!(parse_compact_options(&args(&["--vacuum"])).unwrap());
    assert!(parse_compact_options(&args(&["--unknown"])).is_err());
    assert!(parse_compact_options(&args(&["--vacuum", "--again"])).is_err());
}

#[test]
fn parse_query_reads_words_filters_and_limit() {
    let (query, limit) = parse_query(&args(&[
        "steel", "--year", "2024", "pipes", "--code", "7304", "--limit", "25", "--edrpou",
        "12345678",
    ]))
    .unwrap();
    assert_eq!(query.text, "steel pipes");
    assert_eq!(query.filters.year, "2024");
    assert_eq!(query.filters.product_code, "7304");
    assert_eq!(query.filters.edrpou, "12345678");
    assert_eq!(query.filters.sender, "");
    assert!(query.advanced.is_none());
    assert_eq!(limit, 25);

    let (_, default_limit) = parse_query(&args(&["anything"])).unwrap();
    assert_eq!(default_limit, 10);
}

#[test]
fn parse_query_error_messages() {
    assert_eq!(
        parse_query(&args(&["--year", "--code", "1"])).err().unwrap(),
        "--year requires a value"
    );
    assert_eq!(
        parse_query(&args(&["--limit", "0"])).err().unwrap(),
        "--limit must be a positive integer"
    );
    assert_eq!(
        parse_query(&args(&["--bogus"])).err().unwrap(),
        "Unknown query option: --bogus"
    );
    assert_eq!(
        parse_export_query(&args(&["--limit", "5"])).err().unwrap(),
        "--limit is not supported by export"
    );
    assert_eq!(
        parse_compact_options(&args(&["x"])).err().unwrap(),
        "Usage: base-search-cli compact <db> [--vacuum]"
    );
}

#[test]
fn search_args_split_options_from_query() {
    let (query_args, options) =
        parse_search_args(&args(&["a", "--repeat", "3", "--json", "b", "--warmups", "2"]))
            .unwrap();
    assert_eq!(query_args, vec!["a".to_string(), "b".to_string()]);
    assert_eq!(options.repeat, 3);
    assert_eq!(options.warmups, 2);
    assert!(options.json);
    assert!(!options.print_rows);

    assert_eq!(
        parse_search_args(&args(&["--repeat", "0"])).err().unwrap(),
        "--repeat must be at least 1"
    );
    assert_eq!(
        parse_search_args(&args(&["--warmups"])).err().unwrap(),
        "--warmups requires a value"
    );
}

#[test]
fn count_arguments_are_checked() {
    let five = "5".to_string();
    let minus = "-1".to_string();
    let zero = "0".to_string();
    assert_eq!(parse_usize(Some(&five), "--n"), Ok(5));
    assert_eq!(
        parse_usize(Some(&minus), "--n"),
        Err("--n must be a non-negative integer".to_string())
    );
    assert_eq!(parse_usize(None, "--n"), Err("--n requires a value".to_string()));
    assert_eq!(
        parse_positive_usize(Some(&zero), "--n"),
        Err("--n must be at least 1".to_string())
    );
    assert_eq!(parse_positive_usize(Some(&five), "--n"), Ok(5));
}

#[test]
fn json_escape_escapes_control_characters() {
    assert_eq!(json_escape("a\"b\\c\nd\re\tf"), "a\\\"b\\\\c\\nd\\re\\tf");
    assert_eq!(json_escape("plain"), "plain");
}

#[test]
fn trunc_keeps_leading_characters() {
    assert_eq!(trunc("Київ-Одеса", 4), "Київ");
    assert_eq!(trunc("abc", 10), "abc");
}

#[test]
fn text_titles_and_export_messages() {
    assert_eq!(
        analytics_section_title(AnalyticsSectionKind::Recipients),
        "Recipients / who received"
    );
    assert_eq!(price_metric_title(PriceMetricKind::RfvUsdKg), "RFV $/kg");
    assert_eq!(
        export_error_message(ExportError::TooManyRowsForXlsx(2_000_000)),
        "2000000 rows exceed the XLSX row limit; export CSV instead"
    );
    assert_eq!(
        export_error_message(ExportError::UnsupportedExtension(String::new())),
        "Unsupported export extension. Use .csv or .xlsx."
    );
    assert_eq!(
        export_error_message(ExportError::UnsupportedExtension("txt".to_string())),
        "Unsupported export extension: .txt. Use .csv or .xlsx."
    );
    assert_eq!(export_error_message(ExportError::Cancelled), "Export cancelled");
}

#[test]
fn search_row_line_skips_blank_values_and_caps_cells() {
    let field = |label: &str| FieldInfo {
        id: label.to_lowercase(),
        label: label.to_string(),
        kind: FieldKind::Text,
        source: FieldRef::Column(label.to_lowercase()),
        operators: Vec::new(),
    };
    let fields: Vec<FieldInfo> = ["A", "B", "C"].iter().map(|l| field(l)).collect();
    let long = "x".repeat(40);
    let row = vec!["one".to_string(), "  ".to_string(), long.clone(), "extra".to_string()];
    assert_eq!(search_row_line(&fields, &row), format!("A=one | C={}", "x".repeat(36)));
    let many: Vec<FieldInfo> = (0..10).map(|i| field(&format!("F{i}"))).collect();
    let values: Vec<String> = (0..10).map(|i| i.to_string()).collect();
    assert_eq!(
        search_row_line(&many, &values),
        "F0=0 | F1=1 | F2=2 | F3=3 | F4=4 | F5=5 | F6=6 | F7=7"
    );
}
