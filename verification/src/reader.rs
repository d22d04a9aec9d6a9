//! The row reader of an import: finds the header row near the top of a
//! sheet, fixes the column layout (a customs layout, or a generic table that
//! keeps every column of its header row), and turns each later row into the
//! values to store. Reading the file and writing batches are left to the
//! caller.

use vstd::prelude::*;
use crate::text::{join, views, join_strings};
use crate::schema::{required_header, required_header_at};
use crate::header_map::{
    ColSrc, ColSrcModel, HeaderIndex, detect, detect_mapping, unmapped, unmapped_columns,
    pairs_view, srcs_model, positions, ints,
};
use crate::table::{display_header, normalize_header_for_display};
use crate::content_hash::hex_char;
use crate::cells::{
    CellValue, cell_text, cell_header, header_text, normalize_cell, normalize_value,
    normalize_date, normalize_date_spec, row_hash_cells, row_hash_spec,
};

verus! {

/// Stage of an import, as progress reports name it.
#[derive(Clone, Copy, PartialEq, Eq, Debug, Structural)]
pub enum ImportPhase {
    /// File reading and parsing.
    Reading,
    /// Writing rows to the database.
    Inserting,
    /// Full-text index construction.
    Indexing,
}

/// Rows searched for the header row before the import gives up.
pub const HEADER_SCAN_ROWS: usize = 10;

/// The headers of a row.
pub open spec fn row_headers(row: Seq<CellValue>) -> Seq<Seq<char>> {
    Seq::new(row.len(), |i: int| cell_header(row[i]))
}

/// The non-empty texts of the cells a joined column reads, in order.
pub open spec fn pieces(parts: Seq<int>, row: Seq<CellValue>) -> Seq<Seq<char>>
    decreases parts.len(),
{
    if parts.len() == 0 {
        Seq::empty()
    } else {
        let p = pieces(parts.drop_last(), row);
        let pos = parts.last();
        if 0 <= pos < row.len() && cell_text(row[pos], false).len() > 0 {
            p.push(cell_text(row[pos], false))
        } else {
            p
        }
    }
}

/// The value one schema column takes from a row.
pub open spec fn col_value(src: ColSrcModel, row: Seq<CellValue>, is_date: bool) -> Seq<char> {
    match src {
        ColSrcModel::Missing => Seq::empty(),
        ColSrcModel::Cell(pos) => if 0 <= pos < row.len() {
            cell_text(row[pos], is_date)
        } else {
            Seq::empty()
        },
        ColSrcModel::Join(parts, sep) => join(pieces(parts, row), sep),
    }
}

/// The schema values of a row under a mapping, before date normalization.
pub open spec fn row_values(m: Seq<ColSrcModel>, row: Seq<CellValue>) -> Seq<Seq<char>> {
    Seq::new(m.len(), |i: int| col_value(m[i], row, i == 4))
}

pub open spec fn all_blank(vals: Seq<Seq<char>>) -> bool {
    forall|i: int| 0 <= i < vals.len() ==> (#[trigger] vals[i]).len() == 0
}

/// The values stored for a row: its date column normalized.
pub open spec fn stored_values(vals: Seq<Seq<char>>) -> Seq<Seq<char>> {
    vals.update(4, normalize_date_spec(vals[4]))
}

/// The unmapped columns of a row that hold a value: `(header, value)`.
pub open spec fn kept_pairs(extra: Seq<(int, Seq<char>)>, row: Seq<CellValue>) -> Seq<
    (Seq<char>, Seq<char>),
>
    decreases extra.len(),
{
    if extra.len() == 0 {
        Seq::empty()
    } else {
        let p = kept_pairs(extra.drop_last(), row);
        let idx = extra.last().0;
        let v = if 0 <= idx < row.len() {
            cell_text(row[idx], false)
        } else {
            Seq::empty()
        };
        if v.len() > 0 {
            p.push((extra.last().1, v))
        } else {
            p
        }
    }
}

/// One character inside a serde_json string: `"` and `\` are escaped by a
/// backslash; backspace, tab, line feed, form feed and carriage return
/// become `\b`, `\t`, `\n`, `\f` and `\r`; other control characters
/// below U+0020 become `\u00` and two lowercase hexadecimal digits; every
/// other character is written as it is.
pub open spec fn json_char(c: char) -> Seq<char> {
    if c == '"' {
        seq!['\\', '"']
    } else if c == '\\' {
        seq!['\\', '\\']
    } else if c == '\u{8}' {
        seq!['\\', 'b']
    } else if c == '\t' {
        seq!['\\', 't']
    } else if c == '\n' {
        seq!['\\', 'n']
    } else if c == '\u{c}' {
        seq!['\\', 'f']
    } else if c == '\r' {
        seq!['\\', 'r']
    } else if (c as u32) < 0x20 {
        seq!['\\', 'u', '0', '0', hex_char((c as u32 / 16) as nat), hex_char((c as u32 % 16) as nat)]
    } else {
        seq![c]
    }
}

/// The escaped characters of a string.
pub open spec fn json_body(s: Seq<char>) -> Seq<char>
    decreases s.len(),
{
    if s.len() == 0 {
        Seq::empty()
    } else {
        json_body(s.drop_last()) + json_char(s.last())
    }
}

/// A string as serde_json writes it: quoted, with its characters escaped.
pub open spec fn json_str(s: Seq<char>) -> Seq<char> {
    seq!['"'] + json_body(s) + seq!['"']
}

/// serde_json's compact text for a list of string pairs: a JSON array of
/// two-element arrays, with no spaces.
pub open spec fn json_string_pairs(pairs: Seq<(Seq<char>, Seq<char>)>) -> Seq<char> {
    seq!['['] + join(
        pairs.map_values(
            |p: (Seq<char>, Seq<char>)| seq!['['] + json_str(p.0) + seq![','] + json_str(p.1) + seq![']'],
        ),
        seq![','],
    ) + seq![']']
}

/// Calls `serde_json::to_string` on a list of string pairs: the compact
/// formatter writes a sequence and each tuple as a JSON array, elements
/// separated by commas, and escapes strings by its table of escapes.
/// Serializing strings and tuples cannot fail (no map keys, no fallible
/// `Serialize` impl is involved), so the error arm is never taken.
#[verifier::external_body]
fn pairs_to_json(pairs: &Vec<(String, String)>) -> (r: String)
    ensures
        r@ == json_string_pairs(pairs.deep_view()),
{
    serde_json::to_string(pairs).unwrap_or_default()
}

/// The `extra` payload of a row: absent when the file has no unmapped
/// columns or the row leaves them all empty.
pub open spec fn extra_spec(extra: Seq<(int, Seq<char>)>, row: Seq<CellValue>) -> Option<
    Seq<char>,
> {
    if extra.len() == 0 || kept_pairs(extra, row).len() == 0 {
        None
    } else {
        Some(json_string_pairs(kept_pairs(extra, row)))
    }
}

pub open spec fn opt_chars(o: Option<String>) -> Option<Seq<char>> {
    match o {
        Some(s) => Some(s@),
        None => None,
    }
}

/// The required headers of the standard layout that `hs` lacks, among the
/// first `k`, in order.
pub open spec fn missing_required(hs: Seq<Seq<char>>, k: nat) -> Seq<Seq<char>>
    decreases k,
{
    if k == 0 {
        Seq::empty()
    } else {
        let p = missing_required(hs, (k - 1) as nat);
        if positions(hs, required_header(k - 1)).len() > 0 {
            p
        } else {
            p.push(required_header(k - 1))
        }
    }
}

/// The error of a sheet that holds nothing in the rows read while looking
/// for its header row: a marker followed by the required headers missing
/// from the first row.
pub open spec fn missing_text(hs: Seq<Seq<char>>) -> Seq<char> {
    "__MISSING__"@ + join(missing_required(hs, 7), ", "@)
}

/// A row ready to store.
pub struct RowRecord {
    pub hash: [u8; 16],
    pub values: Vec<String>,
    /// Unmapped columns of the row that hold a value, as a JSON array of
    /// `[header, value]` pairs.
    pub extra: Option<String>,
    /// The same columns as `(header, value)` pairs, in column order.
    pub extra_pairs: Vec<(String, String)>,
}

/// What one row of the sheet turned out to be.
pub enum RowStep {
    /// The header row: the layout is fixed from here on.
    Header,
    /// A row above the header row (title noise).
    Skipped,
    /// A data row whose mapped values are all empty; nothing is stored.
    Blank,
    Record(RowRecord),
    /// No customs layout was found in the first `HEADER_SCAN_ROWS` rows: the
    /// sheet is a generic table whose header row is its first row holding
    /// anything. These are the records of the rows already read below that
    /// header row; later rows are read as data rows of the table.
    Generic(Vec<RowRecord>),
}

/// Whether `step` is what a data row gives under mapping `m` and unmapped
/// columns `extra`.
pub open spec fn data_step(
    m: Seq<ColSrcModel>,
    extra: Seq<(int, Seq<char>)>,
    row: Seq<CellValue>,
    step: RowStep,
) -> bool {
    let vals = row_values(m, row);
    if all_blank(vals) {
        step is Blank
    } else {
        match step {
            RowStep::Record(rec) => {
                &&& views(rec.values@) == stored_values(vals)
                &&& rec.hash@ == row_hash_spec(row)
                &&& opt_chars(rec.extra) == extra_spec(extra, row)
                &&& rec.extra_pairs.deep_view() == kept_pairs(extra, row)
            },
            _ => false,
        }
    }
}

/// A row ready to store, as plain values.
pub struct RecordModel {
    pub hash: Seq<u8>,
    pub values: Seq<Seq<char>>,
    pub extra: Option<Seq<char>>,
    pub pairs: Seq<(Seq<char>, Seq<char>)>,
}

pub open spec fn record_view(r: RowRecord) -> RecordModel {
    RecordModel {
        hash: r.hash@,
        values: views(r.values@),
        extra: opt_chars(r.extra),
        pairs: r.extra_pairs.deep_view(),
    }
}

pub open spec fn records_view(v: Seq<RowRecord>) -> Seq<RecordModel> {
    v.map_values(|r: RowRecord| record_view(r))
}

/// The cells of a list of rows.
pub open spec fn cell_rows(v: Seq<Vec<CellValue>>) -> Seq<Seq<CellValue>> {
    v.map_values(|r: Vec<CellValue>| r@)
}

/// The columns of a generic table: every column of its header row, by
/// position, under its display header (`Column n` for a blank one).
pub open spec fn generic_columns(hs: Seq<Seq<char>>) -> Seq<(int, Seq<char>)> {
    Seq::new(hs.len(), |i: int| (i, display_header(hs[i], i as nat)))
}

/// The schema values of a generic row: none of the schema columns is known.
pub open spec fn no_schema_values() -> Seq<Seq<char>> {
    Seq::new(41, |i: int| Seq::<char>::empty())
}

/// The record a generic table stores for a row: its columns that hold a
/// value, by header; no record for a row that holds nothing.
pub open spec fn generic_record(extra: Seq<(int, Seq<char>)>, row: Seq<CellValue>) -> Option<
    RecordModel,
> {
    match extra_spec(extra, row) {
        None => None,
        Some(x) => Some(
            RecordModel {
                hash: row_hash_spec(row),
                values: no_schema_values(),
                extra: Some(x),
                pairs: kept_pairs(extra, row),
            },
        ),
    }
}

/// Whether `step` is what a data row of a generic table gives.
pub open spec fn generic_step(extra: Seq<(int, Seq<char>)>, row: Seq<CellValue>, step: RowStep) -> bool {
    match generic_record(extra, row) {
        None => step is Blank,
        Some(m) => step matches RowStep::Record(rec) && record_view(rec) == m,
    }
}

/// The records of generic data rows, in order.
pub open spec fn generic_records(extra: Seq<(int, Seq<char>)>, rows: Seq<Seq<CellValue>>) -> Seq<
    RecordModel,
>
    decreases rows.len(),
{
    if rows.len() == 0 {
        Seq::empty()
    } else {
        let p = generic_records(extra, rows.drop_last());
        match generic_record(extra, rows.last()) {
            Some(m) => p.push(m),
            None => p,
        }
    }
}

/// A row holds something: one of its cells has a header text.
pub open spec fn has_header(row: Seq<CellValue>) -> bool {
    !all_blank(row_headers(row))
}

/// The first row that holds something.
pub open spec fn first_table_row(rows: Seq<Seq<CellValue>>) -> Option<int>
    decreases rows.len(),
{
    if rows.len() == 0 {
        None
    } else {
        match first_table_row(rows.drop_last()) {
            Some(i) => Some(i),
            None => if has_header(rows.last()) {
                Some(rows.len() - 1)
            } else {
                None
            },
        }
    }
}

/// Reading rows that held no customs header row as a generic table: its
/// header row is the first row that holds something, its columns are every
/// column of that row, and the rows below it are its data. `None` when no
/// row holds anything.
pub open spec fn generic_fallback(rows: Seq<Seq<CellValue>>) -> Option<
    (Seq<(int, Seq<char>)>, Seq<RecordModel>),
> {
    match first_table_row(rows) {
        None => None,
        Some(h) => {
            let ex = generic_columns(row_headers(rows[h]));
            Some((ex, generic_records(ex, rows.skip(h + 1))))
        },
    }
}

/// Abstract state of a row reader.
pub struct RowReaderModel {
    /// The customs layout, once its header row is found.
    pub mapping: Option<Seq<ColSrcModel>>,
    /// The sheet is read as a generic table.
    pub generic: bool,
    /// Columns kept by header beside the layout: position and header.
    pub extra: Seq<(int, Seq<char>)>,
    /// Rows read while looking for the header row.
    pub pending: Seq<Seq<CellValue>>,
    /// The headers of the first row, for the error message.
    pub first_headers: Seq<Seq<char>>,
}

pub struct RowReader {
    mapping: Option<Vec<ColSrc>>,
    generic: bool,
    extra_cols: Vec<(usize, String)>,
    pending: Vec<Vec<CellValue>>,
    first_row_headers: Vec<String>,
}

impl View for RowReader {
    type V = RowReaderModel;

    closed spec fn view(&self) -> RowReaderModel {
        RowReaderModel {
            mapping: match self.mapping {
                Some(m) => Some(srcs_model(m@)),
                None => None,
            },
            generic: self.generic,
            extra: pairs_view(self.extra_cols@),
            pending: cell_rows(self.pending@),
            first_headers: views(self.first_row_headers@),
        }
    }
}

/// The reader after falling back to a generic table.
pub open spec fn generic_reader(o: RowReaderModel, ex: Seq<(int, Seq<char>)>) -> RowReaderModel {
    RowReaderModel { mapping: None, generic: true, extra: ex, pending: Seq::empty(), ..o }
}

impl RowReader {
    /// At most `HEADER_SCAN_ROWS - 1` rows wait while the header row is
    /// looked for; a customs layout has its 41 columns; a generic table has
    /// no customs layout.
    pub closed spec fn wf(&self) -> bool {
        &&& self.pending@.len() < HEADER_SCAN_ROWS
        &&& match self.mapping {
            Some(m) => m@.len() == 41,
            None => true,
        }
        &&& self.generic ==> self.mapping is None
    }

    /// A reader that has not seen the header row yet.
    pub fn new() -> (r: RowReader)
        ensures
            r.wf(),
            r@.mapping is None,
            !r@.generic,
            r@.extra.len() == 0,
            r@.pending.len() == 0,
            r@.first_headers.len() == 0,
    {
        let r = RowReader {
            mapping: None,
            generic: false,
            extra_cols: Vec::new(),
            pending: Vec::new(),
            first_row_headers: Vec::new(),
        };
        assert(pairs_view(r.extra_cols@) =~= Seq::empty());
        assert(views(r.first_row_headers@) =~= Seq::empty());
        assert(cell_rows(r.pending@) =~= Seq::empty());
        r
    }

    /// Falls back to a generic table over the waiting rows.
    fn fall_back(&mut self) -> (r: Result<Vec<RowRecord>, String>)
        requires
            old(self)@.mapping is None,
            !old(self)@.generic,
            old(self).pending@.len() <= HEADER_SCAN_ROWS,
        ensures
            match generic_fallback(old(self)@.pending) {
                Some((ex, recs)) => {
                    &&& final(self)@ == generic_reader(old(self)@, ex)
                    &&& final(self).wf()
                    &&& r matches Ok(v) && records_view(v@) == recs
                },
                None => {
                    &&& final(self)@ == old(self)@
                    &&& r matches Err(e) && e@ == missing_text(old(self)@.first_headers)
                },
            },
    {
        let ghost rows = cell_rows(self.pending@);
        match first_table_row_exec(&self.pending) {
            None => Err(missing_error(&self.first_row_headers)),
            Some(h) => {
                let headers = row_header_texts(&self.pending[h]);
                let extra = generic_columns_exec(&headers);
                assert(rows[h as int] == self.pending@[h as int]@);
                let recs = generic_rows(&extra, &self.pending, h + 1);
                self.extra_cols = extra;
                self.generic = true;
                self.pending = Vec::new();
                assert(cell_rows(self.pending@) =~= Seq::empty());
                Ok(recs)
            },
        }
    }

    /// Reads one row. Before the header row is found, each row is tried as
    /// the header row of a customs layout and waits otherwise; when
    /// `HEADER_SCAN_ROWS` rows have been tried in vain, the sheet is read as
    /// a generic table (an error only when none of them holds anything).
    /// After that, each row is a data row.
    pub fn row(&mut self, row: Vec<CellValue>) -> (r: Result<RowStep, String>)
        requires
            old(self).wf(),
        ensures
            final(self).wf(),
            ({
                let o = old(self)@;
                let f = final(self)@;
                let hs = row_headers(row@);
                let fh = if o.first_headers.len() == 0 {
                    hs
                } else {
                    o.first_headers
                };
                &&& o.mapping is Some ==> {
                    &&& f == o
                    &&& r matches Ok(step) && data_step(o.mapping.unwrap(), o.extra, row@, step)
                }
                &&& o.generic ==> {
                    &&& f == o
                    &&& r matches Ok(step) && generic_step(o.extra, row@, step)
                }
                &&& (o.mapping is None && !o.generic) ==> match detect(hs) {
                    Some(m) => {
                        &&& f == RowReaderModel {
                            mapping: Some(m),
                            generic: false,
                            extra: unmapped(hs, m),
                            pending: Seq::empty(),
                            first_headers: fh,
                        }
                        &&& r matches Ok(RowStep::Header)
                    },
                    None => {
                        let p = o.pending.push(row@);
                        if p.len() < HEADER_SCAN_ROWS {
                            &&& f == RowReaderModel { pending: p, first_headers: fh, ..o }
                            &&& r matches Ok(RowStep::Skipped)
                        } else {
                            match generic_fallback(p) {
                                Some((ex, recs)) => {
                                    &&& f == generic_reader(
                                        RowReaderModel { first_headers: fh, ..o },
                                        ex,
                                    )
                                    &&& r matches Ok(RowStep::Generic(v)) && records_view(v@)
                                        == recs
                                },
                                None => {
                                    &&& f == RowReaderModel {
                                        pending: Seq::empty(),
                                        first_headers: fh,
                                        ..o
                                    }
                                    &&& r matches Err(e) && e@ == missing_text(fh)
                                },
                            }
                        }
                    },
                }
            }),
    {
        if self.generic {
            let step = generic_row(&self.extra_cols, &row);
            return Ok(step);
        }
        if self.mapping.is_none() {
            let headers = row_header_texts(&row);
            if self.first_row_headers.len() == 0 {
                self.first_row_headers = copy_strings(&headers);
            }
            match detect_mapping(&headers) {
                Some(mapping) => {
                    assert(srcs_model(mapping@).len() == 41);
                    self.extra_cols = unmapped_columns(&headers, &mapping);
                    self.mapping = Some(mapping);
                    self.pending = Vec::new();
                    assert(cell_rows(self.pending@) =~= Seq::empty());
                    return Ok(RowStep::Header);
                },
                None => {
                    let ghost before = self.pending@;
                    self.pending.push(row);
                    assert(cell_rows(self.pending@) =~= cell_rows(before).push(
                        self.pending@.last()@,
                    ));
                    if self.pending.len() < HEADER_SCAN_ROWS {
                        return Ok(RowStep::Skipped);
                    }
                    let res = self.fall_back();
                    match res {
                        Ok(recs) => {
                            return Ok(RowStep::Generic(recs));
                        },
                        Err(e) => {
                            self.pending = Vec::new();
                            assert(cell_rows(self.pending@) =~= Seq::empty());
                            return Err(e);
                        },
                    }
                },
            }
        }
        let step = match &self.mapping {
            Some(mapping) => data_row(mapping, &self.extra_cols, &row),
            None => RowStep::Blank,
        };
        Ok(step)
    }

    /// The end of the sheet. When the header row was never found, the rows
    /// read are a generic table and their records are returned (an error
    /// only when none of them holds anything); otherwise there is nothing
    /// left to return.
    pub fn finish(&mut self) -> (r: Result<Vec<RowRecord>, String>)
        requires
            old(self).wf(),
        ensures
            final(self).wf(),
            (old(self)@.mapping is Some || old(self)@.generic) ==> {
                &&& final(self)@ == old(self)@
                &&& r matches Ok(v) && v@.len() == 0
            },
            (old(self)@.mapping is None && !old(self)@.generic) ==> match generic_fallback(
                old(self)@.pending,
            ) {
                Some((ex, recs)) => {
                    &&& final(self)@ == generic_reader(old(self)@, ex)
                    &&& r matches Ok(v) && records_view(v@) == recs
                },
                None => {
                    &&& final(self)@ == old(self)@
                    &&& r matches Err(e) && e@ == missing_text(old(self)@.first_headers)
                },
            },
    {
        if self.mapping.is_some() || self.generic {
            return Ok(Vec::new());
        }
        self.fall_back()
    }
}

/// Whether a row holds something.
fn row_has_header(row: &Vec<CellValue>) -> (r: bool)
    ensures
        r == has_header(row@),
{
    let mut i: usize = 0;
    while i < row.len()
        invariant
            i <= row@.len(),
            forall|k: int| 0 <= k < i ==> (#[trigger] row_headers(row@)[k]).len() == 0,
        decreases row.len() - i,
    {
        let h = header_text(&row[i]);
        assert(row_headers(row@)[i as int] == h@);
        if !h.as_str().is_empty() {
            return true;
        }
        i += 1;
    }
    false
}

fn first_table_row_exec(rows: &Vec<Vec<CellValue>>) -> (r: Option<usize>)
    ensures
        match first_table_row(cell_rows(rows@)) {
            Some(i) => r == Some(i as usize) && 0 <= i < rows@.len(),
            None => r is None,
        },
{
    let ghost all = cell_rows(rows@);
    let mut i: usize = 0;
    while i < rows.len()
        invariant
            i <= rows@.len(),
            all == cell_rows(rows@),
            first_table_row(all.take(i as int)) is None,
        decreases rows.len() - i,
    {
        assert(all.take(i + 1).drop_last() =~= all.take(i as int));
        assert(all.take(i + 1).last() == rows@[i as int]@);
        if row_has_header(&rows[i]) {
            proof {
                lemma_first_table_row_prefix(all, i as int + 1);
            }
            return Some(i);
        }
        i += 1;
    }
    assert(all.take(i as int) =~= all);
    None
}

/// The first row holding something among the first `n` rows is the first
/// among all rows, once found.
proof fn lemma_first_table_row_prefix(rows: Seq<Seq<CellValue>>, n: int)
    requires
        0 <= n <= rows.len(),
        first_table_row(rows.take(n)) is Some,
    ensures
        first_table_row(rows) == first_table_row(rows.take(n)),
    decreases rows.len() - n,
{
    if n < rows.len() {
        assert(rows.take(n + 1).drop_last() =~= rows.take(n));
        lemma_first_table_row_prefix(rows, n + 1);
    } else {
        assert(rows.take(n) =~= rows);
    }
}

fn generic_columns_exec(hs: &Vec<String>) -> (r: Vec<(usize, String)>)
    ensures
        pairs_view(r@) == generic_columns(views(hs@)),
{
    let mut out: Vec<(usize, String)> = Vec::new();
    let mut i: usize = 0;
    while i < hs.len()
        invariant
            i <= hs@.len(),
            pairs_view(out@) == generic_columns(views(hs@)).take(i as int),
        decreases hs.len() - i,
    {
        let name = normalize_header_for_display(hs[i].as_str(), i);
        let ghost before = out@;
        assert(views(hs@)[i as int] == hs@[i as int]@);
        out.push((i, name));
        proof {
            let g = generic_columns(views(hs@));
            assert(pairs_view(out@) =~= pairs_view(before).push((i as int, name@)));
            assert(g[i as int] == (i as int, name@));
            assert(g.take(i + 1) =~= g.take(i as int).push(g[i as int]));
        }
        i += 1;
    }
    assert(generic_columns(views(hs@)).take(i as int) =~= generic_columns(views(hs@)));
    out
}

fn no_schema_value_strings() -> (r: Vec<String>)
    ensures
        views(r@) == no_schema_values(),
{
    let mut out: Vec<String> = Vec::new();
    let mut i: usize = 0;
    while i < 41
        invariant
            i <= 41,
            views(out@) == Seq::new(i as nat, |k: int| Seq::<char>::empty()),
        decreases 41 - i,
    {
        let e = String::new();
        let ghost before = out@;
        out.push(e);
        assert(views(out@) =~= views(before).push(e@));
        i += 1;
        assert(views(out@) =~= Seq::new(i as nat, |k: int| Seq::<char>::empty()));
    }
    out
}

fn generic_record_of(extra: &Vec<(usize, String)>, row: &Vec<CellValue>) -> (r: Option<RowRecord>)
    ensures
        match generic_record(pairs_view(extra@), row@) {
            None => r is None,
            Some(m) => r matches Some(rec) && record_view(rec) == m,
        },
{
    let (text, pairs) = collect_extra(extra, row);
    match text {
        None => None,
        Some(x) => {
            let hash = row_hash_cells(row.as_slice());
            let values = no_schema_value_strings();
            Some(RowRecord { hash, values, extra: Some(x), extra_pairs: pairs })
        },
    }
}

fn generic_row(extra: &Vec<(usize, String)>, row: &Vec<CellValue>) -> (r: RowStep)
    ensures
        generic_step(pairs_view(extra@), row@, r),
{
    match generic_record_of(extra, row) {
        None => RowStep::Blank,
        Some(rec) => RowStep::Record(rec),
    }
}

fn generic_rows(extra: &Vec<(usize, String)>, rows: &Vec<Vec<CellValue>>, from: usize) -> (r: Vec<
    RowRecord,
>)
    requires
        from <= rows@.len(),
    ensures
        records_view(r@) == generic_records(pairs_view(extra@), cell_rows(rows@).skip(from as int)),
{
    let ghost ex = pairs_view(extra@);
    let ghost all = cell_rows(rows@).skip(from as int);
    let mut out: Vec<RowRecord> = Vec::new();
    let mut i: usize = from;
    while i < rows.len()
        invariant
            from <= i <= rows@.len(),
            ex == pairs_view(extra@),
            all == cell_rows(rows@).skip(from as int),
            records_view(out@) == generic_records(ex, all.take(i - from)),
        decreases rows.len() - i,
    {
        assert(all.take(i - from + 1).drop_last() =~= all.take(i - from));
        assert(all.take(i - from + 1).last() == rows@[i as int]@);
        let ghost before = out@;
        match generic_record_of(extra, &rows[i]) {
            Some(rec) => {
                out.push(rec);
                assert(records_view(out@) =~= records_view(before).push(record_view(out@.last())));
            },
            None => {},
        }
        i += 1;
    }
    assert(all.take(i - from) =~= all);
    out
}

/// A sheet is refused only when none of the rows read while looking for
/// the header row holds anything: any other sheet without a customs header
/// row is read as a generic table, which keeps every column of its header
/// row under a header of its own.
pub proof fn lemma_generic_table_not_refused(rows: Seq<Seq<CellValue>>, i: int)
    requires
        0 <= i < rows.len(),
        has_header(rows[i]),
    ensures
        generic_fallback(rows) is Some,
        ({
            let h = first_table_row(rows).unwrap();
            let ex = generic_fallback(rows).unwrap().0;
            &&& 0 <= h <= i
            &&& ex.len() == rows[h].len()
            &&& forall|k: int| 0 <= k < ex.len() ==> (#[trigger] ex[k]).0 == k
        }),
    decreases rows.len(),
{
    if i < rows.len() - 1 {
        assert(rows.drop_last()[i] == rows[i]);
        lemma_generic_table_not_refused(rows.drop_last(), i);
        assert(rows.drop_last()[first_table_row(rows).unwrap()] == rows[first_table_row(rows).unwrap()]);
    } else {
        if first_table_row(rows.drop_last()) is Some {
            let h = first_table_row(rows.drop_last()).unwrap();
            lemma_first_table_row_bound(rows.drop_last());
            assert(rows.drop_last()[h] == rows[h]);
        }
    }
}

proof fn lemma_first_table_row_bound(rows: Seq<Seq<CellValue>>)
    ensures
        first_table_row(rows) matches Some(h) ==> 0 <= h < rows.len(),
    decreases rows.len(),
{
    if rows.len() > 0 {
        lemma_first_table_row_bound(rows.drop_last());
    }
}

fn copy_strings(v: &Vec<String>) -> (r: Vec<String>)
    ensures
        views(r@) == views(v@),
{
    let mut out: Vec<String> = Vec::new();
    let mut i: usize = 0;
    while i < v.len()
        invariant
            i <= v@.len(),
            views(out@) == views(v@.take(i as int)),
        decreases v.len() - i,
    {
        let ghost before = out@;
        let s = v[i].clone();
        out.push(s);
        assert(views(out@) =~= views(before).push(v@[i as int]@));
        assert(views(v@.take(i + 1)) =~= views(v@.take(i as int)).push(v@[i as int]@));
        i += 1;
    }
    assert(v@.take(i as int) =~= v@);
    out
}

fn row_header_texts(row: &Vec<CellValue>) -> (r: Vec<String>)
    ensures
        views(r@) == row_headers(row@),
{
    let mut out: Vec<String> = Vec::new();
    let mut i: usize = 0;
    while i < row.len()
        invariant
            i <= row@.len(),
            views(out@) == row_headers(row@).take(i as int),
        decreases row.len() - i,
    {
        let ghost before = out@;
        out.push(header_text(&row[i]));
        assert(views(out@) =~= views(before).push(cell_header(row@[i as int])));
        i += 1;
        assert(views(out@) =~= row_headers(row@).take(i as int));
    }
    assert(row_headers(row@).take(i as int) =~= row_headers(row@));
    out
}

/// The error text for a sheet whose header row was not found.
fn missing_error(first: &Vec<String>) -> (r: String)
    ensures
        r@ == missing_text(views(first@)),
{
    let idx = HeaderIndex::new(first);
    let mut missing: Vec<String> = Vec::new();
    let mut k: usize = 0;
    while k < 7
        invariant
            k <= 7,
            idx@ == views(first@),
            views(missing@) == missing_required(views(first@), k as nat),
        decreases 7 - k,
    {
        let h = required_header_at(k);
        if !idx.has(h) {
            missing.push(String::from_str(h));
        }
        k += 1;
        assert(views(missing@) =~= missing_required(views(first@), k as nat));
    }
    let mut out = String::from_str("__MISSING__");
    let list = join_strings(&missing, ", ");
    out.append(list.as_str());
    out
}

fn join_pieces(parts: &Vec<usize>, row: &Vec<CellValue>) -> (r: Vec<String>)
    ensures
        views(r@) == pieces(ints(parts@), row@),
{
    let mut out: Vec<String> = Vec::new();
    let mut i: usize = 0;
    while i < parts.len()
        invariant
            i <= parts@.len(),
            views(out@) == pieces(ints(parts@).take(i as int), row@),
        decreases parts.len() - i,
    {
        let ghost before = out@;
        assert(ints(parts@).take(i + 1).drop_last() =~= ints(parts@).take(i as int));
        assert(ints(parts@).take(i + 1).last() == parts@[i as int] as int);
        let pos = parts[i];
        if pos < row.len() {
            let v = normalize_value(&row[pos]);
            if !v.as_str().is_empty() {
                out.push(v);
                assert(views(out@) =~= views(before).push(cell_text(row@[pos as int], false)));
            }
        }
        i += 1;
    }
    assert(ints(parts@).take(i as int) =~= ints(parts@));
    out
}

fn col_value_of(src: &ColSrc, row: &Vec<CellValue>, is_date: bool) -> (r: String)
    ensures
        r@ == col_value(src@, row@, is_date),
{
    match src {
        ColSrc::Missing => String::new(),
        ColSrc::Cell(pos) => {
            if *pos < row.len() {
                normalize_cell(&row[*pos], is_date)
            } else {
                String::new()
            }
        },
        ColSrc::Join(parts, sep) => {
            let texts = join_pieces(parts, row);
            join_strings(&texts, sep)
        },
    }
}

fn kept_extra(extra: &Vec<(usize, String)>, row: &Vec<CellValue>) -> (r: Vec<(String, String)>)
    ensures
        r.deep_view() == kept_pairs(pairs_view(extra@), row@),
{
    let ghost ex = pairs_view(extra@);
    let mut out: Vec<(String, String)> = Vec::new();
    let mut i: usize = 0;
    while i < extra.len()
        invariant
            i <= extra@.len(),
            ex == pairs_view(extra@),
            out.deep_view() == kept_pairs(ex.take(i as int), row@),
        decreases extra.len() - i,
    {
        let ghost before = out.deep_view();
        assert(ex.take(i + 1).drop_last() =~= ex.take(i as int));
        assert(ex.take(i + 1).last() == ex[i as int]);
        let idx = extra[i].0;
        let v = if idx < row.len() {
            normalize_value(&row[idx])
        } else {
            String::new()
        };
        if !v.as_str().is_empty() {
            let name = crate::text::string_of(crate::text::chars_of(extra[i].1.as_str()).as_slice());
            out.push((name, v));
            assert(out.deep_view() =~= before.push((extra@[i as int].1@, cell_text(row@[idx as int], false))));
        }
        i += 1;
    }
    assert(ex.take(i as int) =~= ex);
    out
}

fn collect_extra(extra: &Vec<(usize, String)>, row: &Vec<CellValue>) -> (r: (Option<String>, Vec<(String, String)>))
    ensures
        opt_chars(r.0) == extra_spec(pairs_view(extra@), row@),
        r.1.deep_view() == kept_pairs(pairs_view(extra@), row@),
{
    let pairs = kept_extra(extra, row);
    if extra.len() == 0 || pairs.len() == 0 {
        return (None, pairs);
    }
    (Some(pairs_to_json(&pairs)), pairs)
}

fn data_row(mapping: &Vec<ColSrc>, extra: &Vec<(usize, String)>, row: &Vec<CellValue>) -> (r:
    RowStep)
    requires
        mapping@.len() == 41,
    ensures
        data_step(srcs_model(mapping@), pairs_view(extra@), row@, r),
{
    let ghost m = srcs_model(mapping@);
    let ghost vals = row_values(m, row@);
    let mut values: Vec<String> = Vec::new();
    let mut blank = true;
    let mut i: usize = 0;
    while i < mapping.len()
        invariant
            i <= mapping@.len(),
            m == srcs_model(mapping@),
            vals == row_values(m, row@),
            views(values@) == vals.take(i as int),
            blank == all_blank(vals.take(i as int)),
        decreases mapping.len() - i,
    {
        let v = col_value_of(&mapping[i], row, i == 4);
        if !v.as_str().is_empty() {
            blank = false;
        }
        values.push(v);
        i += 1;
        assert(views(values@) =~= vals.take(i as int));
        assert(all_blank(vals.take(i as int)) == (all_blank(vals.take(i - 1)) && vals[i - 1].len()
            == 0)) by {
            if all_blank(vals.take(i as int)) {
                assert(vals.take(i as int)[i - 1] == vals[i - 1]);
            }
        }
    }
    assert(vals.take(i as int) =~= vals);
    if blank {
        return RowStep::Blank;
    }
    let date = normalize_date(values[4].as_str());
    values.set(4, date);
    assert(views(values@) =~= stored_values(vals));
    let (extra_text, extra_pairs) = collect_extra(extra, row);
    let hash = row_hash_cells(row.as_slice());
    RowStep::Record(RowRecord { hash, values, extra: extra_text, extra_pairs })
}


// ---------- assembling rows from a cell stream ----------

/// Abstract state of a row assembler.
pub struct RowAssemblerModel {
    pub current: Option<u32>,
    pub cells: Seq<CellValue>,
}

/// Assembles a stream of cells (row, column, value), given row by row, into
/// rows. Gaps between cells are filled with empty cells.
pub struct RowAssembler {
    current_row: Option<u32>,
    cells: Vec<CellValue>,
}

impl View for RowAssembler {
    type V = RowAssemblerModel;

    closed spec fn view(&self) -> RowAssemblerModel {
        RowAssemblerModel { current: self.current_row, cells: self.cells@ }
    }
}

/// The cells of a row after placing `value` at column `col`.
pub open spec fn placed(cells: Seq<CellValue>, col: nat, value: CellValue) -> Seq<CellValue> {
    let padded = if cells.len() < col {
        cells + Seq::new((col - cells.len()) as nat, |i: int| CellValue::Empty)
    } else {
        cells
    };
    if padded.len() == col {
        padded.push(value)
    } else {
        padded.update(col as int, value)
    }
}

impl RowAssembler {
    pub fn new() -> (r: RowAssembler)
        ensures
            r@.current is None,
            r@.cells.len() == 0,
    {
        RowAssembler { current_row: None, cells: Vec::new() }
    }

    /// Adds one cell. When the cell opens a new row, the finished row is
    /// returned.
    pub fn push(&mut self, row: u32, col: u32, value: CellValue) -> (r: Option<Vec<CellValue>>)
        ensures
            ({
                let o = old(self)@;
                let opens = o.current is Some && o.current != Some(row);
                &&& match r {
                    Some(done) => opens && done@ == o.cells,
                    None => !opens,
                }
                &&& final(self)@.current == Some(row)
                &&& final(self)@.cells == placed(
                    if opens {
                        Seq::empty()
                    } else {
                        o.cells
                    },
                    col as nat,
                    value,
                )
            }),
    {
        let ghost o = self@;
        let ghost opens = o.current is Some && o.current != Some(row);
        let mut finished: Option<Vec<CellValue>> = None;
        if let Some(current) = self.current_row {
            if current != row {
                let mut done: Vec<CellValue> = Vec::new();
                std::mem::swap(&mut done, &mut self.cells);
                finished = Some(done);
            }
        }
        self.current_row = Some(row);
        let col = col as usize;
        let ghost base = self.cells@;
        assert(base == (if opens {
            Seq::<CellValue>::empty()
        } else {
            o.cells
        }));
        while self.cells.len() < col
            invariant
                self.current_row == Some(row),
                self.cells@ == base + Seq::new(
                    (self.cells@.len() - base.len()) as nat,
                    |i: int| CellValue::Empty,
                ),
                self.cells@.len() >= base.len(),
                self.cells@.len() <= (if base.len() < col {
                    col as int
                } else {
                    base.len() as int
                }),
            decreases col - self.cells.len(),
        {
            let ghost before = self.cells@;
            self.cells.push(CellValue::Empty);
            assert(self.cells@ =~= base + Seq::new(
                (self.cells@.len() - base.len()) as nat,
                |i: int| CellValue::Empty,
            ));
        }
        let ghost padded = self.cells@;
        proof {
            if base.len() >= col {
                assert(self.cells@ =~= base);
            }
            assert(padded == (if base.len() < col {
                base + Seq::new((col - base.len()) as nat, |i: int| CellValue::Empty)
            } else {
                base
            }));
        }
        if self.cells.len() == col {
            self.cells.push(value);
        } else {
            self.cells.set(col, value);
        }
        assert(self.cells@ =~= placed(base, col as nat, value));
        finished
    }

    /// Ends the stream: the last row, if any cell was pushed since the last
    /// finished row.
    pub fn take(&mut self) -> (r: Option<Vec<CellValue>>)
        ensures
            match r {
                Some(done) => old(self)@.current is Some && done@ == old(self)@.cells,
                None => old(self)@.current is None,
            },
            final(self)@.current is None,
            old(self)@.current is Some ==> final(self)@.cells.len() == 0,
    {
        if self.current_row.is_none() {
            return None;
        }
        self.current_row = None;
        let mut done: Vec<CellValue> = Vec::new();
        std::mem::swap(&mut done, &mut self.cells);
        Some(done)
    }
}

// ---------- the decisions of a file import ----------

/// How a file import starts.
#[derive(Debug, PartialEq, Eq)]
pub enum ImportStart {
    /// A file with the same content hash was imported before, under this
    /// name: it is not read again.
    SkipDuplicateOf(String),
    /// The file is read.
    Read,
}

/// Whole-file deduplication: a file whose content hash the import log
/// already holds (`previous`, the name it was imported under) is skipped.
pub fn import_start(previous: Option<String>) -> (r: ImportStart)
    ensures
        match previous {
            Some(p) => r == ImportStart::SkipDuplicateOf(p),
            None => r == ImportStart::Read,
        },
{
    match previous {
        Some(p) => ImportStart::SkipDuplicateOf(p),
        None => ImportStart::Read,
    }
}

/// How a file import ends, once its rows were read inside a transaction.
#[derive(Debug, PartialEq, Eq)]
pub enum ImportFinish {
    /// Keep the rows: commit, build the search index, and log the file's
    /// hash so that the same file is skipped next time.
    Commit,
    /// Drop the rows: roll back, report no row imported and no duplicate,
    /// and keep the hash out of the log so that the file can be retried;
    /// `error` is the failure to report, if there was one.
    Rollback { error: Option<String> },
}

/// A read that succeeded and was not cancelled is committed; a cancelled
/// read is rolled back without an error; a failed read is rolled back with
/// its error.
pub fn import_finish(read: Result<(), String>, cancelled: bool) -> (r: ImportFinish)
    ensures
        match read {
            Ok(()) => if cancelled {
                r == ImportFinish::Rollback { error: None }
            } else {
                r == ImportFinish::Commit
            },
            Err(e) => r == ImportFinish::Rollback { error: Some(e) },
        },
{
    match read {
        Ok(()) => if cancelled {
            ImportFinish::Rollback { error: None }
        } else {
            ImportFinish::Commit
        },
        Err(e) => ImportFinish::Rollback { error: Some(e) },
    }
}

} // verus!
