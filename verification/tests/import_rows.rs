use base_search::content_hash::{bytes_content_hash, content_hash_hex, ContentHasher};
use base_search::cells::{
    header_text, normalize_cell, normalize_date, normalize_value, row_hash_cells, CellValue,
};
use base_search::reader::{
    import_finish, import_start, ImportFinish, ImportStart, RowAssembler, RowReader, RowStep,
    HEADER_SCAN_ROWS,
};

fn text(s: &str) -> CellValue {
    CellValue::Text(s.to_string())
}

fn int_cell(v: i64) -> CellValue {
    CellValue::Int {
        value: v,
        serial_date: None,
    }
}

fn header_row() -> Vec<CellValue> {
    [
        "Номер МД",
        "Дата",
        "Відправник",
        "ЕДРПОУ",
        "Одержувач",
        "Код товару",
        "Опис товару",
        "Колір",
    ]
    .iter()
    .map(|h| text(h))
    .collect()
}

#[test]
fn day_first_dates_become_iso_dates() {
    assert_eq!(normalize_date("31.12.2024"), "2024-12-31");
    assert_eq!(normalize_date("1/2/2024"), "2024-02-01");
    assert_eq!(normalize_date("05-07-2023"), "2023-07-05");
    assert_eq!(normalize_date("2024-12-31"), "2024-12-31");
    assert_eq!(normalize_date("32.01.2024"), "32.01.2024");
    assert_eq!(normalize_date("01.13.2024"), "01.13.2024");
    assert_eq!(normalize_date("31.12.24"), "31.12.24");
    assert_eq!(normalize_date("a.b.cdef"), "a.b.cdef");
    assert_eq!(normalize_date(""), "");
    let once = normalize_date("7.3.2021");
    assert_eq!(once, "2021-03-07");
    assert_eq!(normalize_date(&once), once);
}

#[test]
fn cells_become_stored_text() {
    assert_eq!(normalize_value(&text("  Acme \t Ltd  ")), "Acme Ltd");
    assert_eq!(normalize_value(&int_cell(-42)), "-42");
    assert_eq!(normalize_value(&CellValue::Bool(true)), "TRUE");
    assert_eq!(normalize_value(&CellValue::Empty), "");
    assert_eq!(normalize_value(&CellValue::Error("#N/A".to_string())), "");
    let serial = CellValue::Int {
        value: 45000,
        serial_date: Some("2023-03-15".to_string()),
    };
    assert_eq!(normalize_cell(&serial, true), "2023-03-15");
    assert_eq!(normalize_cell(&serial, false), "45000");
    let float = CellValue::Float {
        shown: "2.50".to_string(),
        plain: "2.5".to_string(),
        serial_date: None,
    };
    assert_eq!(normalize_cell(&float, true), "2.5");
    let stamp = CellValue::DateTime {
        shown: "2024-01-02T03:04:05".to_string(),
        rendered: "2024-01-02 03:04:05".to_string(),
    };
    assert_eq!(normalize_value(&stamp), "2024-01-02 03:04:05");
}

#[test]
fn headers_read_the_display_text() {
    assert_eq!(header_text(&CellValue::Bool(false)), "false");
    assert_eq!(header_text(&CellValue::Error("#N/A".to_string())), "#N/A");
    assert_eq!(header_text(&text(" Код \n товару ")), "Код товару");
    assert_eq!(header_text(&int_cell(43)), "43");
    assert_eq!(header_text(&CellValue::Empty), "");
}

#[test]
fn row_hash_ignores_trailing_empty_cells() {
    let row = vec![text("a"), int_cell(1)];
    let padded = vec![text("a"), int_cell(1), CellValue::Empty, CellValue::Empty];
    assert_eq!(row_hash_cells(&row), row_hash_cells(&padded));
    assert_ne!(row_hash_cells(&row), row_hash_cells(&[text("a"), int_cell(2)]));
    let expected = xxhash_rust::xxh3::xxh3_128("a\u{1f}1".as_bytes()).to_le_bytes();
    assert_eq!(row_hash_cells(&row), expected);
    let empty = xxhash_rust::xxh3::xxh3_128(b"").to_le_bytes();
    assert_eq!(row_hash_cells(&[CellValue::Empty]), empty);
}

#[test]
fn reader_finds_the_header_row_and_stores_rows() {
    let mut reader = RowReader::new();
    assert!(matches!(
        reader.row(vec![text("Customs report")]),
        Ok(RowStep::Skipped)
    ));
    assert!(matches!(reader.row(header_row()), Ok(RowStep::Header)));
    let data = vec![
        text("UA100/2024/1"),
        text("31.12.2024"),
        text("Acme  Ltd"),
        int_cell(12345678),
        text("Buyer"),
        int_cell(84713000),
        text(" Widgets "),
        text("red"),
    ];
    let data_hash = row_hash_cells(&data);
    match reader.row(data) {
        Ok(RowStep::Record(record)) => {
            assert_eq!(record.values.len(), 41);
            assert_eq!(record.values[3], "UA100/2024/1");
            assert_eq!(record.values[4], "2024-12-31");
            assert_eq!(record.values[5], "Acme Ltd");
            assert_eq!(record.values[6], "12345678");
            assert_eq!(record.values[7], "Buyer");
            assert_eq!(record.values[9], "84713000");
            assert_eq!(record.values[10], "Widgets");
            assert_eq!(record.values[0], "");
            assert_eq!(record.extra, Some("[[\"Колір\",\"red\"]]".to_string()));
            assert_eq!(record.hash, data_hash);
        }
        _ => panic!("expected a record"),
    }
    let no_extra = vec![text("UA1"), text("2024-01-01")];
    match reader.row(no_extra) {
        Ok(RowStep::Record(record)) => assert_eq!(record.extra, None),
        _ => panic!("expected a record"),
    }
    assert!(matches!(
        reader.row(vec![CellValue::Empty, text("   ")]),
        Ok(RowStep::Blank)
    ));
    assert!(matches!(reader.finish(), Ok(rest) if rest.is_empty()));
}

#[test]
fn reader_imports_an_unrecognised_table_as_generic() {
    let mut reader = RowReader::new();
    let header = || vec![text("SKU"), text("Price EUR"), CellValue::Empty, text("Origin country")];
    assert!(matches!(reader.row(header()), Ok(RowStep::Skipped)));
    assert!(matches!(
        reader.row(vec![text("A-1"), text("12.5"), text("x"), text("PL")]),
        Ok(RowStep::Skipped)
    ));
    assert!(matches!(reader.row(vec![CellValue::Empty]), Ok(RowStep::Skipped)));
    let second = vec![text("B-2"), CellValue::Empty, CellValue::Empty, text("DE")];
    let second_hash = row_hash_cells(&second);
    assert!(matches!(reader.row(second), Ok(RowStep::Skipped)));
    match reader.finish() {
        Ok(records) => {
            assert_eq!(records.len(), 2);
            assert_eq!(records[0].values.len(), 41);
            assert!(records[0].values.iter().all(|v| v.is_empty()));
            assert_eq!(
                records[0].extra,
                Some("[[\"SKU\",\"A-1\"],[\"Price EUR\",\"12.5\"],[\"Column 3\",\"x\"],[\"Origin country\",\"PL\"]]".to_string())
            );
            assert_eq!(
                records[1].extra,
                Some("[[\"SKU\",\"B-2\"],[\"Origin country\",\"DE\"]]".to_string())
            );
            assert_eq!(records[1].hash, second_hash);
            assert_eq!(
                records[1].extra_pairs,
                vec![
                    ("SKU".to_string(), "B-2".to_string()),
                    ("Origin country".to_string(), "DE".to_string())
                ]
            );
        }
        Err(e) => panic!("refused: {e}"),
    }
    assert!(matches!(reader.row(vec![text("C-3")]), Ok(RowStep::Record(_))));
    assert!(matches!(reader.row(vec![CellValue::Empty]), Ok(RowStep::Blank)));
}

#[test]
fn reader_falls_back_to_generic_after_the_scan_rows() {
    let mut reader = RowReader::new();
    assert!(matches!(reader.row(vec![CellValue::Empty]), Ok(RowStep::Skipped)));
    assert!(matches!(reader.row(vec![text("Name"), text("Qty")]), Ok(RowStep::Skipped)));
    for i in 0..HEADER_SCAN_ROWS - 3 {
        assert!(matches!(
            reader.row(vec![text(&format!("item {i}")), int_cell(i as i64)]),
            Ok(RowStep::Skipped)
        ));
    }
    match reader.row(vec![text("last"), int_cell(99)]) {
        Ok(RowStep::Generic(records)) => {
            assert_eq!(records.len(), HEADER_SCAN_ROWS - 2);
            assert_eq!(records[0].extra, Some("[[\"Name\",\"item 0\"],[\"Qty\",\"0\"]]".to_string()));
        }
        _ => panic!("expected the generic fallback"),
    }
    match reader.row(vec![text("next"), int_cell(1)]) {
        Ok(RowStep::Record(record)) => {
            assert_eq!(record.extra, Some("[[\"Name\",\"next\"],[\"Qty\",\"1\"]]".to_string()))
        }
        _ => panic!("expected a record"),
    }
    assert!(matches!(reader.finish(), Ok(rest) if rest.is_empty()));
}

#[test]
fn reader_refuses_a_sheet_that_holds_nothing() {
    let mut reader = RowReader::new();
    for _ in 0..HEADER_SCAN_ROWS - 1 {
        assert!(matches!(reader.row(vec![CellValue::Empty]), Ok(RowStep::Skipped)));
    }
    let err = reader.row(vec![CellValue::Empty, text("  ")]).err().unwrap();
    assert_eq!(
        err,
        "__MISSING__Номер МД, Дата, Відправник, ЕДРПОУ, Одержувач, Код товару, Опис товару"
    );
    assert_eq!(
        RowReader::new().finish().err().unwrap(),
        "__MISSING__Номер МД, Дата, Відправник, ЕДРПОУ, Одержувач, Код товару, Опис товару"
    );
}

#[test]
fn assembler_fills_gaps_and_splits_rows() {
    let mut assembler = RowAssembler::new();
    assert!(assembler.push(0, 0, text("a")).is_none());
    assert!(assembler.push(0, 2, text("c")).is_none());
    let first = assembler.push(3, 1, text("x")).unwrap();
    assert_eq!(first.len(), 3);
    assert!(matches!(first[1], CellValue::Empty));
    assert_eq!(normalize_value(&first[2]), "c");
    let last = assembler.take().unwrap();
    assert_eq!(last.len(), 2);
    assert!(matches!(last[0], CellValue::Empty));
    assert!(assembler.take().is_none());
}

#[test]
fn import_start_and_finish_decisions() {
    assert_eq!(
        import_start(Some("march.xlsx".to_string())),
        ImportStart::SkipDuplicateOf("march.xlsx".to_string())
    );
    assert_eq!(import_start(None), ImportStart::Read);
    assert_eq!(import_finish(Ok(()), false), ImportFinish::Commit);
    assert_eq!(import_finish(Ok(()), true), ImportFinish::Rollback { error: None });
    assert_eq!(
        import_finish(Err("bad sheet".to_string()), false),
        ImportFinish::Rollback { error: Some("bad sheet".to_string()) }
    );
}

#[test]
fn content_hash_streams_and_formats_like_the_whole_file() {
    let data = b"Base Search import log".to_vec();
    let expected = format!("{:032x}", xxhash_rust::xxh3::xxh3_128(&data));
    assert_eq!(bytes_content_hash(&data), expected);
    let mut hasher = ContentHasher::new();
    hasher.update(&data[..4]);
    hasher.update(&data[4..]);
    assert_eq!(hasher.hex(), expected);
    assert_eq!(hasher.digest(), xxhash_rust::xxh3::xxh3_128(&data));
    assert_eq!(content_hash_hex(0xab), format!("{:032x}", 0xabu128));
    assert_eq!(content_hash_hex(u128::MAX), "f".repeat(32));
    assert_eq!(ContentHasher::new().hex(), format!("{:032x}", xxhash_rust::xxh3::xxh3_128(b"")));
}

#[test]
fn extra_columns_are_written_as_escaped_json() {
    let mut reader = RowReader::new();
    assert!(matches!(reader.row(vec![text("Note \"x\"")]), Ok(RowStep::Skipped)));
    match reader.finish() {
        Ok(records) => assert!(records.is_empty()),
        Err(e) => panic!("refused: {e}"),
    }
    assert!(matches!(
        reader.row(vec![text("a\"b\\c\u{1}d")]),
        Ok(RowStep::Record(record)) if record.extra == Some("[[\"Note \\\"x\\\"\",\"a\\\"b\\\\c\\u0001d\"]]".to_string())
    ));
}
