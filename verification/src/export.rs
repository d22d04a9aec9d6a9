//! Export formats and the cell rule of the CSV export.

use vstd::prelude::*;
use crate::text::{lowercase, str_lowercase, str_eq, chars_of, string_of, views};
use crate::reader::{RowRecord, RecordModel, record_view, records_view};

verus! {

/// Excel worksheet row limit minus the header row.
pub const XLSX_MAX_ROWS: u64 = 1_048_575;

#[derive(Clone, Copy, PartialEq, Eq, Debug, Structural)]
pub enum ExportFormat {
    Csv,
    Xlsx,
}

#[derive(Debug)]
pub enum ExportError {
    /// More rows than a single Excel worksheet can store; CSV is required.
    TooManyRowsForXlsx(u64),
    UnsupportedExtension(String),
    Cancelled,
    Other(String),
}

/// The format a file extension asks for, compared without case; `None`
/// (no extension) and other extensions are refused with the extension,
/// lowercased.
pub open spec fn format_for(ext: Option<Seq<char>>) -> Result<ExportFormat, Seq<char>> {
    match ext {
        Some(e) => if str_lowercase(e) == "csv"@ {
            Ok(ExportFormat::Csv)
        } else if str_lowercase(e) == "xlsx"@ {
            Ok(ExportFormat::Xlsx)
        } else {
            Err(str_lowercase(e))
        },
        None => Err(Seq::empty()),
    }
}

/// What `Path::extension` gives for a path: the text after the last `.` of
/// the final component, when that component has a stem before the dot.
pub uninterp spec fn path_extension_of(path: Seq<char>) -> Option<Seq<char>>;

/// Calls `std::path::Path::extension` on the path and converts the result
/// to text (lossless here, since the path itself is text). Which component
/// is final and which dot counts follow std's path rules, which are not
/// restated.
#[verifier::external_body]
fn path_extension(path: &str) -> (r: Option<String>)
    ensures
        match r {
            Some(e) => path_extension_of(path@) == Some(e@),
            None => path_extension_of(path@) is None,
        },
{
    match std::path::Path::new(path).extension() {
        Some(e) => Some(e.to_string_lossy().into_owned()),
        None => None,
    }
}

/// What `PathBuf::set_extension` makes of a path and an extension.
pub uninterp spec fn path_with_extension_of(path: Seq<char>, ext: Seq<char>) -> Seq<char>;

/// Calls `std::path::PathBuf::set_extension` on the path and converts the
/// result to text (lossless here, since both inputs are text). std's rules
/// for the final component are not restated. `set_extension` panics on an
/// extension holding a path separator (`/`, and also a backslash on Windows), so
/// such an extension is left out.
#[verifier::external_body]
fn path_with_extension(path: &str, ext: &str) -> (r: String)
    requires
        forall|i: int| 0 <= i < ext@.len() ==> ext@[i] != '/' && ext@[i] != '\\',
    ensures
        r@ == path_with_extension_of(path@, ext@),
{
    let mut p = std::path::PathBuf::from(path);
    p.set_extension(ext);
    p.to_string_lossy().into_owned()
}

/// The analytics projection file kept beside a database: the database path
/// with the extension `duckdb`.
pub fn default_projection_path(sqlite_path: &str) -> (r: String)
    ensures
        r@ == path_with_extension_of(sqlite_path@, "duckdb"@),
{
    proof {
        reveal_strlit("duckdb");
    }
    path_with_extension(sqlite_path, "duckdb")
}

impl ExportFormat {
    /// The format for a destination file, from its extension compared
    /// without case.
    pub fn from_path(path: &str) -> (r: Result<ExportFormat, ExportError>)
        ensures
            match format_for(path_extension_of(path@)) {
                Ok(f) => r == Ok::<ExportFormat, ExportError>(f),
                Err(e) => r matches Err(ExportError::UnsupportedExtension(x)) && x@ == e,
            },
    {
        let ext = path_extension(path);
        match ext {
            Some(e) => ExportFormat::from_extension(Some(e.as_str())),
            None => ExportFormat::from_extension(None),
        }
    }

    /// The format for a destination file, from its extension (as
    /// `Path::extension` gives it).
    pub fn from_extension(ext: Option<&str>) -> (r: Result<ExportFormat, ExportError>)
        ensures
            match format_for(
                match ext {
                    Some(e) => Some(e@),
                    None => None,
                },
            ) {
                Ok(f) => r == Ok::<ExportFormat, ExportError>(f),
                Err(e) => r matches Err(ExportError::UnsupportedExtension(x)) && x@ == e,
            },
    {
        match ext {
            Some(e) => {
                let low = lowercase(e);
                if str_eq(low.as_str(), "csv") {
                    Ok(ExportFormat::Csv)
                } else if str_eq(low.as_str(), "xlsx") {
                    Ok(ExportFormat::Xlsx)
                } else {
                    Err(ExportError::UnsupportedExtension(low))
                }
            },
            None => Err(ExportError::UnsupportedExtension(String::new())),
        }
    }
}

/// Whether a CSV cell would start a spreadsheet formula: after leading
/// spaces, tabs, carriage returns and line feeds, its first character is
/// `=`, `+`, `-` or `@`.
pub open spec fn formula_like(s: Seq<char>) -> bool {
    exists|k: int|
        0 <= k < s.len() && (forall|j: int|
            0 <= j < k ==> #[trigger] csv_space(s[j])) && (s[k] == '=' || s[k] == '+' || s[k]
            == '-' || s[k] == '@')
}

/// The characters skipped before the first character of a cell.
pub open spec fn csv_space(c: char) -> bool {
    c == ' ' || c == '\t' || c == '\r' || c == '\n'
}

/// A cell as written to CSV: one that would start a formula gets a leading
/// apostrophe; any other is written as it is.
pub open spec fn csv_safe_spec(s: Seq<char>) -> Seq<char> {
    if formula_like(s) {
        seq!['\''] + s
    } else {
        s
    }
}

/// Guards a CSV cell against formula injection.
pub fn csv_safe_cell(value: &str) -> (r: String)
    ensures
        r@ == csv_safe_spec(value@),
{
    let cs = chars_of(value);
    let mut k: usize = 0;
    while k < cs.len() && (cs[k] == ' ' || cs[k] == '\t' || cs[k] == '\r' || cs[k] == '\n')
        invariant
            k <= cs@.len(),
            cs@ == value@,
            forall|j: int| 0 <= j < k ==> #[trigger] csv_space(cs@[j]),
        decreases cs.len() - k,
    {
        k += 1;
    }
    let formula = k < cs.len() && (cs[k] == '=' || cs[k] == '+' || cs[k] == '-' || cs[k] == '@');
    proof {
        if !formula {
            assert forall|m: int|
                0 <= m < value@.len() && (forall|j: int|
                    0 <= j < m ==> #[trigger] csv_space(value@[j])) implies !(value@[m] == '='
                || value@[m] == '+' || value@[m] == '-' || value@[m] == '@') by {
                if m > k as int {
                    assert(csv_space(value@[k as int]));
                } else if m < k as int {
                    assert(csv_space(value@[m]));
                }
            }
        }
    }
    if formula {
        let mut out: Vec<char> = Vec::new();
        out.push('\'');
        let mut i: usize = 0;
        while i < cs.len()
            invariant
                i <= cs@.len(),
                out@ == seq!['\''] + cs@.take(i as int),
            decreases cs.len() - i,
        {
            out.push(cs[i]);
            i += 1;
            assert(out@ =~= seq!['\''] + cs@.take(i as int));
        }
        assert(cs@.take(i as int) =~= cs@);
        string_of(out.as_slice())
    } else {
        string_of(cs.as_slice())
    }
}

/// Guarded cells never start a formula, and a guarded cell is the cell
/// itself, possibly after one apostrophe.
pub proof fn lemma_csv_safe_cell(s: Seq<char>)
    ensures
        !formula_like(csv_safe_spec(s)),
        csv_safe_spec(s) == s || csv_safe_spec(s) == seq!['\''] + s,
{
    let r = csv_safe_spec(s);
    if formula_like(s) {
        assert(r[0] == '\'');
        assert(!csv_space(r[0]));
        assert forall|k: int|
            0 <= k < r.len() && (forall|j: int| 0 <= j < k ==> #[trigger] csv_space(r[j])) implies !(
            r[k] == '=' || r[k] == '+' || r[k] == '-' || r[k] == '@') by {
            if k > 0 {
                assert(csv_space(r[0]));
            }
        }
    }
}

/// Settings of the local analytics benchmark.
#[derive(Debug, Clone)]
pub struct OlapBenchmarkOptions {
    pub repeat: usize,
    pub warmups: usize,
    pub page_limit: u64,
    pub section_limit: u64,
    pub hs_level: u8,
    pub pivot_rows: usize,
    pub pivot_cols: usize,
}

impl Default for OlapBenchmarkOptions {
    /// Three measured runs after one warm-up, on small pages and sections.
    fn default() -> (r: Self)
        ensures
            r.repeat == 3,
            r.warmups == 1,
            r.page_limit == 100,
            r.section_limit == 10,
            r.hs_level == 10,
            r.pivot_rows == 20,
            r.pivot_cols == 12,
    {
        OlapBenchmarkOptions {
            repeat: 3,
            warmups: 1,
            page_limit: 100,
            section_limit: 10,
            hs_level: 10,
            pivot_rows: 20,
            pivot_cols: 12,
        }
    }
}

// ---------- the export loop ----------

/// Whether an export of `total` rows may start in `format`: an XLSX file
/// cannot hold more rows than one worksheet.
pub fn export_plan(format: ExportFormat, total: u64) -> (r: Result<(), ExportError>)
    ensures
        r == (if format == ExportFormat::Xlsx && total > XLSX_MAX_ROWS {
            Err(ExportError::TooManyRowsForXlsx(total))
        } else {
            Ok(())
        }),
{
    if format == ExportFormat::Xlsx && total > XLSX_MAX_ROWS {
        Err(ExportError::TooManyRowsForXlsx(total))
    } else {
        Ok(())
    }
}

/// Progress of an export: rows written so far, and the id after which the
/// next batch starts.
#[derive(Clone, Copy, Debug, PartialEq, Eq, Structural)]
pub struct ExportState {
    pub written: u64,
    pub last_id: i64,
}

/// What the export does next.
#[derive(Clone, Copy, Debug, PartialEq, Eq, Structural)]
pub enum ExportAction {
    /// Stop with `ExportError::Cancelled`; nothing more is written.
    Cancel,
    /// The rows are all written: finish the file; the result is the count.
    Finish,
    /// Write the batch, then report this many rows written so far.
    WriteBatchThenReport(u64),
}

/// An export before its first batch.
pub open spec fn export_start() -> ExportState {
    ExportState { written: 0, last_id: 0 }
}

/// One turn of the export loop. A cancel request, checked before each
/// batch is fetched, stops the export; an empty batch ends it; otherwise the
/// batch is written, the count grows by its length, the cursor moves to the
/// batch's last id, and the new count is reported.
pub open spec fn export_step_spec(state: ExportState, cancelled: bool, batch_len: u64, last_id: i64) -> (
    ExportState,
    ExportAction,
) {
    if cancelled {
        (state, ExportAction::Cancel)
    } else if batch_len == 0 {
        (state, ExportAction::Finish)
    } else {
        let written = (state.written + batch_len) as u64;
        (ExportState { written, last_id }, ExportAction::WriteBatchThenReport(written))
    }
}

/// The state an export starts from.
pub fn export_start_state() -> (r: ExportState)
    ensures
        r == export_start(),
{
    ExportState { written: 0, last_id: 0 }
}

/// Decides one turn of the export loop; `batch_len` and `last_id` describe
/// the batch fetched after `state.last_id` (they are not read when
/// `cancelled`).
pub fn export_step(state: ExportState, cancelled: bool, batch_len: u64, last_id: i64) -> (r: (
    ExportState,
    ExportAction,
))
    requires
        cancelled || state.written + batch_len <= u64::MAX,
    ensures
        r == export_step_spec(state, cancelled, batch_len, last_id),
{
    if cancelled {
        (state, ExportAction::Cancel)
    } else if batch_len == 0 {
        (state, ExportAction::Finish)
    } else {
        let written = state.written + batch_len;
        (ExportState { written, last_id }, ExportAction::WriteBatchThenReport(written))
    }
}

/// The rows written after a run of batches with no cancel request.
pub open spec fn written_after(lens: Seq<u64>) -> int
    decreases lens.len(),
{
    if lens.len() == 0 {
        0
    } else {
        written_after(lens.drop_last()) + lens.last()
    }
}

/// Steps over non-empty batches, without a cancel request.
pub open spec fn run_batches(state: ExportState, lens: Seq<u64>, ids: Seq<i64>) -> ExportState
    decreases lens.len(),
{
    if lens.len() == 0 {
        state
    } else {
        export_step_spec(run_batches(state, lens.drop_last(), ids.drop_last()), false, lens.last(), ids.last()).0
    }
}

/// An export counts every row of every non-empty batch, its cursor is the
/// last batch's last id, and a cancel request or an empty batch leaves the
/// count as it was.
pub proof fn lemma_export_counts_batches(lens: Seq<u64>, ids: Seq<i64>, cancelled: bool, last_id: i64)
    requires
        lens.len() == ids.len(),
        forall|k: int| 0 <= k < lens.len() ==> #[trigger] lens[k] > 0,
        written_after(lens) <= u64::MAX,
    ensures
        run_batches(export_start(), lens, ids).written == written_after(lens),
        lens.len() > 0 ==> run_batches(export_start(), lens, ids).last_id == ids.last(),
        export_step_spec(run_batches(export_start(), lens, ids), true, 0, last_id).1 == ExportAction::Cancel,
        export_step_spec(run_batches(export_start(), lens, ids), false, 0, last_id) == (
            run_batches(export_start(), lens, ids),
            ExportAction::Finish,
        ),
    decreases lens.len(),
{
    if lens.len() > 0 {
        let p = lens.drop_last();
        assert forall|k: int| 0 <= k < p.len() implies #[trigger] p[k] > 0 by {
            assert(p[k] == lens[k]);
        }
        lemma_written_after_bound(lens);
        lemma_export_counts_batches(p, ids.drop_last(), cancelled, last_id);
    }
}

proof fn lemma_written_after_bound(lens: Seq<u64>)
    requires
        lens.len() > 0,
    ensures
        written_after(lens.drop_last()) + lens.last() == written_after(lens),
        written_after(lens.drop_last()) >= 0,
    decreases lens.len(),
{
    lemma_written_after_nonneg(lens.drop_last());
}

proof fn lemma_written_after_nonneg(lens: Seq<u64>)
    ensures
        written_after(lens) >= 0,
    decreases lens.len(),
{
    if lens.len() > 0 {
        lemma_written_after_nonneg(lens.drop_last());
    }
}

// ---------- the columns of an export ----------

/// `hs` with `h` added at the end unless it is already there.
pub open spec fn add_header(hs: Seq<Seq<char>>, h: Seq<char>) -> Seq<Seq<char>> {
    if hs.contains(h) {
        hs
    } else {
        hs.push(h)
    }
}

/// `hs` with the headers of `pairs` added in order, each once.
pub open spec fn headers_with_pairs(hs: Seq<Seq<char>>, pairs: Seq<(Seq<char>, Seq<char>)>) -> Seq<
    Seq<char>,
>
    decreases pairs.len(),
{
    if pairs.len() == 0 {
        hs
    } else {
        add_header(headers_with_pairs(hs, pairs.drop_last()), pairs.last().0)
    }
}

/// The extra columns of an export: every header of the records' extra
/// columns, in the order in which it first appears, each once.
pub open spec fn extra_export_headers(recs: Seq<RecordModel>) -> Seq<Seq<char>>
    decreases recs.len(),
{
    if recs.len() == 0 {
        Seq::empty()
    } else {
        headers_with_pairs(extra_export_headers(recs.drop_last()), recs.last().pairs)
    }
}

/// The value of the first pair with header `h`.
pub open spec fn pair_value(pairs: Seq<(Seq<char>, Seq<char>)>, h: Seq<char>) -> Option<Seq<char>>
    decreases pairs.len(),
{
    if pairs.len() == 0 {
        None
    } else {
        match pair_value(pairs.drop_last(), h) {
            Some(v) => Some(v),
            None => if pairs.last().0 == h {
                Some(pairs.last().1)
            } else {
                None
            },
        }
    }
}

/// An exported row: the schema values, then the value of each extra column
/// (empty where the record has none).
pub open spec fn export_row(rec: RecordModel, hs: Seq<Seq<char>>) -> Seq<Seq<char>> {
    rec.values + Seq::new(
        hs.len(),
        |k: int|
            match pair_value(rec.pairs, hs[k]) {
                Some(v) => v,
                None => Seq::empty(),
            },
    )
}

fn contains_header(hs: &Vec<String>, h: &str) -> (r: bool)
    ensures
        r == views(hs@).contains(h@),
{
    let mut i: usize = 0;
    while i < hs.len()
        invariant
            i <= hs@.len(),
            forall|k: int| 0 <= k < i ==> hs@[k]@ != h@,
        decreases hs.len() - i,
    {
        if str_eq(hs[i].as_str(), h) {
            assert(views(hs@)[i as int] == h@);
            return true;
        }
        i += 1;
    }
    proof {
        if views(hs@).contains(h@) {
            let k = choose|k: int| 0 <= k < views(hs@).len() && views(hs@)[k] == h@;
            assert(hs@[k]@ == h@);
        }
    }
    false
}

fn add_pair_headers(hs: &mut Vec<String>, pairs: &Vec<(String, String)>)
    ensures
        views(final(hs)@) == headers_with_pairs(views(old(hs)@), pairs.deep_view()),
{
    let ghost start = views(hs@);
    let ghost ps = pairs.deep_view();
    let mut i: usize = 0;
    while i < pairs.len()
        invariant
            i <= pairs@.len(),
            ps == pairs.deep_view(),
            views(hs@) == headers_with_pairs(start, ps.take(i as int)),
        decreases pairs.len() - i,
    {
        assert(ps.take(i + 1).drop_last() =~= ps.take(i as int));
        assert(ps.take(i + 1).last() == ps[i as int]);
        let h = pairs[i].0.as_str();
        if !contains_header(hs, h) {
            let ghost before = views(hs@);
            hs.push(pairs[i].0.clone());
            assert(views(hs@) =~= before.push(h@));
        }
        i += 1;
    }
    assert(ps.take(i as int) =~= ps);
}

/// The extra columns of an export, from the records' extra columns in order
/// of first appearance.
pub fn export_extra_headers(records: &[RowRecord]) -> (r: Vec<String>)
    ensures
        views(r@) == extra_export_headers(records_view(records@)),
{
    let ghost rs = records_view(records@);
    let mut out: Vec<String> = Vec::new();
    let mut i: usize = 0;
    assert(views(out@) =~= Seq::<Seq<char>>::empty());
    while i < records.len()
        invariant
            i <= records@.len(),
            rs == records_view(records@),
            views(out@) == extra_export_headers(rs.take(i as int)),
        decreases records.len() - i,
    {
        assert(rs.take(i + 1).drop_last() =~= rs.take(i as int));
        assert(rs.take(i + 1).last() == record_view(records@[i as int]));
        add_pair_headers(&mut out, &records[i].extra_pairs);
        i += 1;
    }
    assert(rs.take(i as int) =~= rs);
    out
}

fn lookup_pair(pairs: &Vec<(String, String)>, h: &str) -> (r: String)
    ensures
        r@ == (match pair_value(pairs.deep_view(), h@) {
            Some(v) => v,
            None => Seq::<char>::empty(),
        }),
{
    let ghost ps = pairs.deep_view();
    let mut i: usize = 0;
    while i < pairs.len()
        invariant
            i <= pairs@.len(),
            ps == pairs.deep_view(),
            pair_value(ps.take(i as int), h@) is None,
        decreases pairs.len() - i,
    {
        assert(ps.take(i + 1).drop_last() =~= ps.take(i as int));
        assert(ps.take(i + 1).last() == ps[i as int]);
        if str_eq(pairs[i].0.as_str(), h) {
            proof {
                lemma_pair_value_prefix(ps, h@, i as int + 1);
            }
            return pairs[i].1.clone();
        }
        i += 1;
    }
    assert(ps.take(i as int) =~= ps);
    String::new()
}

proof fn lemma_pair_value_prefix(ps: Seq<(Seq<char>, Seq<char>)>, h: Seq<char>, n: int)
    requires
        0 <= n <= ps.len(),
        pair_value(ps.take(n), h) is Some,
    ensures
        pair_value(ps, h) == pair_value(ps.take(n), h),
    decreases ps.len() - n,
{
    if n < ps.len() {
        assert(ps.take(n + 1).drop_last() =~= ps.take(n));
        lemma_pair_value_prefix(ps, h, n + 1);
    } else {
        assert(ps.take(n) =~= ps);
    }
}

/// The cells of an exported row: the schema values, then the value of each
/// extra column in `extra_headers` (empty where the record has none).
pub fn export_values(record: &RowRecord, extra_headers: &Vec<String>) -> (r: Vec<String>)
    ensures
        views(r@) == export_row(record_view(*record), views(extra_headers@)),
{
    let ghost hs = views(extra_headers@);
    let ghost rec = record_view(*record);
    let mut out: Vec<String> = Vec::new();
    let mut i: usize = 0;
    while i < record.values.len()
        invariant
            i <= record.values@.len(),
            views(out@) == views(record.values@).take(i as int),
        decreases record.values.len() - i,
    {
        let ghost before = views(out@);
        let c = record.values[i].clone();
        out.push(c);
        assert(views(out@) =~= before.push(record.values@[i as int]@));
        i += 1;
        assert(views(out@) =~= views(record.values@).take(i as int));
    }
    assert(views(record.values@).take(i as int) =~= views(record.values@));
    let ghost base = views(out@);
    let mut k: usize = 0;
    while k < extra_headers.len()
        invariant
            k <= extra_headers@.len(),
            hs == views(extra_headers@),
            rec == record_view(*record),
            base == views(record.values@),
            views(out@) == base + Seq::new(
                k as nat,
                |j: int|
                    match pair_value(rec.pairs, hs[j]) {
                        Some(v) => v,
                        None => Seq::empty(),
                    },
            ),
        decreases extra_headers.len() - k,
    {
        let v = lookup_pair(&record.extra_pairs, extra_headers[k].as_str());
        let ghost before = views(out@);
        out.push(v);
        assert(views(out@) =~= before.push(v@));
        assert(hs[k as int] == extra_headers@[k as int]@);
        assert(rec.pairs == record.extra_pairs.deep_view());
        k += 1;
        assert(views(out@) =~= base + Seq::new(
            k as nat,
            |j: int|
                match pair_value(rec.pairs, hs[j]) {
                    Some(v) => v,
                    None => Seq::empty(),
                },
        ));
    }
    assert(views(out@) =~= export_row(rec, hs));
    out
}

/// The extra columns of an export are distinct.
pub proof fn lemma_extra_export_headers_distinct(recs: Seq<RecordModel>)
    ensures
        extra_export_headers(recs).no_duplicates(),
    decreases recs.len(),
{
    if recs.len() > 0 {
        lemma_extra_export_headers_distinct(recs.drop_last());
        lemma_headers_with_pairs_distinct(extra_export_headers(recs.drop_last()), recs.last().pairs);
    }
}

proof fn lemma_headers_with_pairs_distinct(hs: Seq<Seq<char>>, pairs: Seq<(Seq<char>, Seq<char>)>)
    requires
        hs.no_duplicates(),
    ensures
        headers_with_pairs(hs, pairs).no_duplicates(),
    decreases pairs.len(),
{
    if pairs.len() > 0 {
        lemma_headers_with_pairs_distinct(hs, pairs.drop_last());
        let p = headers_with_pairs(hs, pairs.drop_last());
        let h = pairs.last().0;
        if !p.contains(h) {
            assert forall|a: int, b: int| 0 <= a < b < p.push(h).len() implies p.push(h)[a] != p.push(h)[b] by {
                if b == p.len() {
                    assert(p.push(h)[a] == p[a]);
                }
            }
        }
    }
}

} // verus!
