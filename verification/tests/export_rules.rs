use base_search::export::{
    csv_safe_cell, default_projection_path, export_extra_headers, export_plan, export_start_state,
    export_step, export_values, ExportAction, ExportError, ExportFormat, ExportState,
    OlapBenchmarkOptions, XLSX_MAX_ROWS,
};
use base_search::reader::RowRecord;

#[test]
fn default_benchmark_options_are_bounded_for_local_runs() {
    let options = OlapBenchmarkOptions::default();
    assert_eq!(options.repeat, 3);
    assert_eq!(options.warmups, 1);
    assert!(options.page_limit <= 500);
    assert!(options.section_limit <= 50);
    assert!(options.pivot_rows <= 50);
    assert!(options.pivot_cols <= 50);
}

#[test]
fn csv_cells_that_start_formulas_get_an_apostrophe() {
    assert_eq!(csv_safe_cell("=SUM(A1)"), "'=SUM(A1)");
    assert_eq!(csv_safe_cell("  +1"), "'  +1");
    assert_eq!(csv_safe_cell("\t-3"), "'\t-3");
    assert_eq!(csv_safe_cell("@x"), "'@x");
    assert_eq!(csv_safe_cell("a=b"), "a=b");
    assert_eq!(csv_safe_cell("   "), "   ");
    assert_eq!(csv_safe_cell(""), "");
}

#[test]
fn export_format_follows_the_extension() {
    assert_eq!(ExportFormat::from_extension(Some("csv")).unwrap(), ExportFormat::Csv);
    assert_eq!(ExportFormat::from_extension(Some("XLSX")).unwrap(), ExportFormat::Xlsx);
    match ExportFormat::from_extension(Some("TXT")) {
        Err(ExportError::UnsupportedExtension(ext)) => assert_eq!(ext, "txt"),
        other => panic!("unexpected {other:?}"),
    }
    match ExportFormat::from_extension(None) {
        Err(ExportError::UnsupportedExtension(ext)) => assert_eq!(ext, ""),
        other => panic!("unexpected {other:?}"),
    }
    assert_eq!(XLSX_MAX_ROWS, 1_048_575);
}

#[test]
fn export_format_follows_the_path() {
    assert_eq!(ExportFormat::from_path("out/result.CSV").unwrap(), ExportFormat::Csv);
    assert_eq!(ExportFormat::from_path("report.v2.xlsx").unwrap(), ExportFormat::Xlsx);
    match ExportFormat::from_path("notes.Txt") {
        Err(ExportError::UnsupportedExtension(ext)) => assert_eq!(ext, "txt"),
        other => panic!("unexpected {other:?}"),
    }
    match ExportFormat::from_path(".csv") {
        Err(ExportError::UnsupportedExtension(ext)) => assert_eq!(ext, ""),
        other => panic!("unexpected {other:?}"),
    }
}

#[test]
fn projection_sits_beside_the_database() {
    assert_eq!(default_projection_path("data/base_search.db"), "data/base_search.duckdb");
    assert_eq!(default_projection_path("base"), "base.duckdb");
}

#[test]
fn export_plan_refuses_oversized_xlsx() {
    assert!(export_plan(ExportFormat::Xlsx, XLSX_MAX_ROWS).is_ok());
    match export_plan(ExportFormat::Xlsx, XLSX_MAX_ROWS + 1) {
        Err(ExportError::TooManyRowsForXlsx(n)) => assert_eq!(n, XLSX_MAX_ROWS + 1),
        other => panic!("unexpected {other:?}"),
    }
    assert!(export_plan(ExportFormat::Csv, XLSX_MAX_ROWS + 1).is_ok());
}

#[test]
fn export_steps_count_batches_and_stop() {
    let start = export_start_state();
    assert_eq!(start, ExportState { written: 0, last_id: 0 });
    let (s1, a1) = export_step(start, false, 500, 812);
    assert_eq!(a1, ExportAction::WriteBatchThenReport(500));
    assert_eq!(s1, ExportState { written: 500, last_id: 812 });
    let (s2, a2) = export_step(s1, false, 20, 900);
    assert_eq!(a2, ExportAction::WriteBatchThenReport(520));
    assert_eq!(s2.last_id, 900);
    assert_eq!(export_step(s2, true, 7, 1000), (s2, ExportAction::Cancel));
    assert_eq!(export_step(s2, false, 0, 0), (s2, ExportAction::Finish));
}

#[test]
fn export_adds_extra_columns_in_order_of_first_appearance() {
    let record = |pairs: &[(&str, &str)]| RowRecord {
        hash: [0; 16],
        values: vec!["v".to_string()],
        extra: None,
        extra_pairs: pairs.iter().map(|(h, v)| (h.to_string(), v.to_string())).collect(),
    };
    let records = vec![
        record(&[("Colour", "red"), ("Size", "L")]),
        record(&[]),
        record(&[("Grade", "A"), ("Colour", "blue")]),
    ];
    let headers = export_extra_headers(&records);
    assert_eq!(headers, vec!["Colour", "Size", "Grade"]);
    assert_eq!(export_values(&records[0], &headers), vec!["v", "red", "L", ""]);
    assert_eq!(export_values(&records[1], &headers), vec!["v", "", "", ""]);
    assert_eq!(export_values(&records[2], &headers), vec!["v", "blue", "", "A"]);
}
