//! Cell values of an imported sheet and their normalization to stored text.

use vstd::prelude::*;
use vstd::utf8::encode_utf8;
use vstd::arithmetic::power::pow;
use crate::text::{collapse, collapse_ws, chars_of, string_of};
use crate::number::{
    dec, idec, parse_unsigned, parse_unsigned_chars, push_zero_padded, zero_pad, i64_to_string,
    pow10, unsigned_body, digits_val, lemma_dec_len_le, lemma_dec_digits, lemma_digits_val_bound,
};
use crate::text::is_digit;

verus! {

// ---------- dates ----------

/// The separators `normalize_date` splits on.
pub open spec fn is_date_sep(c: char) -> bool {
    c == '.' || c == '/' || c == '-'
}

/// `str::split` on the date separators: the pieces between separators, in
/// order; `n` separators give `n + 1` pieces.
pub open spec fn date_parts(s: Seq<char>) -> Seq<Seq<char>>
    decreases s.len(),
{
    if s.len() == 0 {
        seq![Seq::empty()]
    } else {
        let p = date_parts(s.drop_last());
        if is_date_sep(s.last()) {
            p.push(Seq::empty())
        } else {
            p.update(p.len() - 1, p.last().push(s.last()))
        }
    }
}

pub proof fn lemma_date_parts_nonempty(s: Seq<char>)
    ensures
        date_parts(s).len() >= 1,
    decreases s.len(),
{
    if s.len() > 0 {
        lemma_date_parts_nonempty(s.drop_last());
    }
}

/// `{y:04}-{m:02}-{d:02}`.
pub open spec fn iso_date(y: nat, m: nat, d: nat) -> Seq<char> {
    zero_pad(dec(y), 4) + seq!['-'] + zero_pad(dec(m), 2) + seq!['-'] + zero_pad(dec(d), 2)
}

/// A day-first date `d.m.yyyy` (with `.`, `/` or `-` between the parts)
/// becomes `yyyy-mm-dd`; anything else is kept as it is. The day and month
/// have at most two characters, the year exactly four, each parses as a
/// `u32`, the day lies in 1..=31 and the month in 1..=12.
pub open spec fn normalize_date_spec(s: Seq<char>) -> Seq<char> {
    let p = date_parts(s);
    if p.len() == 3 && p[0].len() <= 2 && p[1].len() <= 2 && p[2].len() == 4 {
        let d = parse_unsigned(p[0], 0xffff_ffff);
        let m = parse_unsigned(p[1], 0xffff_ffff);
        let y = parse_unsigned(p[2], 0xffff_ffff);
        if d is Some && m is Some && y is Some && 1 <= d.unwrap() <= 31 && 1 <= m.unwrap() <= 12 {
            iso_date(y.unwrap(), m.unwrap(), d.unwrap())
        } else {
            s
        }
    } else {
        s
    }
}

/// `s` holds no date separator.
pub open spec fn no_date_sep(s: Seq<char>) -> bool {
    forall|i: int| 0 <= i < s.len() ==> !is_date_sep(#[trigger] s[i])
}

proof fn lemma_date_parts_plain(x: Seq<char>)
    requires
        no_date_sep(x),
    ensures
        date_parts(x) == seq![x],
    decreases x.len(),
{
    if x.len() > 0 {
        lemma_date_parts_plain(x.drop_last());
        assert(!is_date_sep(x[x.len() - 1]));
        assert(x.drop_last().push(x.last()) =~= x);
        assert(seq![x.drop_last()].update(0, x) =~= seq![x]);
    } else {
        assert(x =~= Seq::<char>::empty());
    }
}

proof fn lemma_date_parts_first(a: Seq<char>, c: char, rest: Seq<char>)
    requires
        no_date_sep(a),
        is_date_sep(c),
    ensures
        date_parts(a + seq![c] + rest).len() >= 2,
        date_parts(a + seq![c] + rest)[0] == a,
    decreases rest.len(),
{
    let x = a + seq![c] + rest;
    if rest.len() == 0 {
        lemma_date_parts_plain(a);
        assert(x.drop_last() =~= a);
        assert(x.last() == c);
    } else {
        assert(x.drop_last() =~= a + seq![c] + rest.drop_last());
        lemma_date_parts_first(a, c, rest.drop_last());
    }
}

/// Every character of `zero_pad(dec(n), w)` is an ASCII digit.
proof fn lemma_padded_digits(n: nat, w: nat)
    ensures
        forall|i: int|
            0 <= i < zero_pad(dec(n), w).len() ==> is_digit(#[trigger] zero_pad(dec(n), w)[i]),
{
    lemma_dec_digits(n);
    let d = dec(n);
    if d.len() < w {
        let z = zero_pad(d, w);
        assert forall|i: int| 0 <= i < z.len() implies is_digit(#[trigger] z[i]) by {
            if i >= w - d.len() {
                assert(z[i] == d[i - (w - d.len())]);
            }
        }
    }
}

/// An ISO date (a year of at most four digits) is kept as it is.
pub proof fn lemma_iso_date_kept(y: nat, m: nat, d: nat)
    requires
        y < 10000,
    ensures
        normalize_date_spec(iso_date(y, m, d)) == iso_date(y, m, d),
{
    assert(pow10(4) == 10000) by {
        reveal_with_fuel(pow10, 5);
    }
    lemma_dec_len_le(y, 4);
    let a = zero_pad(dec(y), 4);
    assert(a.len() == 4);
    lemma_padded_digits(y, 4);
    assert(no_date_sep(a)) by {
        assert forall|i: int| 0 <= i < a.len() implies !is_date_sep(#[trigger] a[i]) by {
            assert(is_digit(a[i]));
        }
    }
    let rest = zero_pad(dec(m), 2) + seq!['-'] + zero_pad(dec(d), 2);
    assert(iso_date(y, m, d) =~= a + seq!['-'] + rest);
    lemma_date_parts_first(a, '-', rest);
}

/// Dates come out of `normalize_date` in a form it keeps: applying it twice
/// gives what applying it once gives.
pub proof fn lemma_normalize_date_idempotent(s: Seq<char>)
    ensures
        normalize_date_spec(normalize_date_spec(s)) == normalize_date_spec(s),
{
    let r = normalize_date_spec(s);
    if r != s {
        let p = date_parts(s);
        let y = parse_unsigned(p[2], 0xffff_ffff).unwrap();
        let m = parse_unsigned(p[1], 0xffff_ffff).unwrap();
        let d = parse_unsigned(p[0], 0xffff_ffff).unwrap();
        let b = unsigned_body(p[2]);
        assert(y == digits_val(b));
        lemma_digits_val_bound(b);
        assert(b.len() <= 4);
        assert(pow10(b.len()) <= pow10(4)) by {
            reveal_with_fuel(pow10, 5);
        }
        assert(pow10(4) == 10000) by {
            reveal_with_fuel(pow10, 5);
        }
        lemma_iso_date_kept(y, m, d);
    }
}

/// Character vectors as sequences.
pub open spec fn char_vecs(v: Seq<Vec<char>>) -> Seq<Seq<char>> {
    v.map_values(|x: Vec<char>| x@)
}

fn split_date_parts(cs: &Vec<char>) -> (r: Vec<Vec<char>>)
    ensures
        char_vecs(r@) == date_parts(cs@),
{
    let mut done: Vec<Vec<char>> = Vec::new();
    let mut cur: Vec<char> = Vec::new();
    let mut i: usize = 0;
    while i < cs.len()
        invariant
            i <= cs@.len(),
            char_vecs(done@).push(cur@) == date_parts(cs@.take(i as int)),
        decreases cs.len() - i,
    {
        let ghost before = date_parts(cs@.take(i as int));
        assert(cs@.take(i + 1).drop_last() =~= cs@.take(i as int));
        let c = cs[i];
        if c == '.' || c == '/' || c == '-' {
            let finished = cur;
            done.push(finished);
            cur = Vec::new();
            assert(char_vecs(done@) =~= before);
            assert(char_vecs(done@).push(cur@) =~= before.push(Seq::empty()));
        } else {
            cur.push(c);
            assert(char_vecs(done@).push(cur@) =~= before.update(
                before.len() - 1,
                before.last().push(c),
            ));
        }
        i += 1;
    }
    assert(cs@.take(i as int) =~= cs@);
    done.push(cur);
    assert(char_vecs(done@) =~= date_parts(cs@));
    done
}

/// Rewrites a day-first date with `.`, `/` or `-` separators as an ISO date;
/// ISO dates and unrecognized text come back unchanged.
pub fn normalize_date(value: &str) -> (r: String)
    ensures
        r@ == normalize_date_spec(value@),
{
    let cs = chars_of(value);
    let parts = split_date_parts(&cs);
    let ghost p = date_parts(value@);
    assert(parts@.len() == p.len());
    if parts.len() == 3 && parts[0].len() <= 2 && parts[1].len() <= 2 && parts[2].len() == 4 {
        assert(parts@[0]@ == p[0] && parts@[1]@ == p[1] && parts@[2]@ == p[2]);
        let d = parse_unsigned_chars(&parts[0], 0xffff_ffff);
        let m = parse_unsigned_chars(&parts[1], 0xffff_ffff);
        let y = parse_unsigned_chars(&parts[2], 0xffff_ffff);
        if let (Some(d), Some(m), Some(y)) = (d, m, y) {
            if 1 <= d && d <= 31 && 1 <= m && m <= 12 {
                let mut out: Vec<char> = Vec::new();
                push_zero_padded(&mut out, y, 4);
                out.push('-');
                push_zero_padded(&mut out, m, 2);
                out.push('-');
                push_zero_padded(&mut out, d, 2);
                assert(out@ =~= iso_date(y as nat, m as nat, d as nat));
                return string_of(out.as_slice());
            }
        }
    }
    string_of(cs.as_slice())
}


// ---------- cell values ----------

/// A cell of an imported sheet, as the values the import reads from it.
/// Numbers that are not integers, and date-times, arrive already rendered:
/// `shown` is the cell's display text, `plain` the number as stored text
/// (integral values without a fraction), `rendered` the date-time as stored
/// text, and `serial_date` the calendar date the number stands for when read
/// as a spreadsheet serial date (present only in the plausible range).
pub enum CellValue {
    Empty,
    /// A cell error, by its display text (such as `#N/A`).
    Error(String),
    Text(String),
    /// An ISO 8601 date-time or duration, as written in the file.
    Iso(String),
    Int { value: i64, serial_date: Option<String> },
    Bool(bool),
    Float { shown: String, plain: String, serial_date: Option<String> },
    DateTime { shown: String, rendered: String },
}

/// The stored text of a cell; `expect_date` marks the date column, where
/// spreadsheet serial numbers become dates.
pub open spec fn cell_text(c: CellValue, expect_date: bool) -> Seq<char> {
    match c {
        CellValue::Empty => Seq::empty(),
        CellValue::Error(_) => Seq::empty(),
        CellValue::Text(s) => collapse(s@),
        CellValue::Iso(s) => collapse(s@),
        CellValue::Int { value, serial_date } => match serial_date {
            Some(date) if expect_date => date@,
            _ => idec(value as int),
        },
        CellValue::Bool(b) => if b {
            "TRUE"@
        } else {
            "FALSE"@
        },
        CellValue::Float { plain, serial_date, .. } => match serial_date {
            Some(date) if expect_date => date@,
            _ => plain@,
        },
        CellValue::DateTime { rendered, .. } => rendered@,
    }
}

/// The calendar date a numeric cell carries as a spreadsheet serial date, if any:
/// integers and other numbers alike; no other kind of cell carries one.
pub open spec fn serial_date_of(c: CellValue) -> Option<Seq<char>> {
    match c {
        CellValue::Int { serial_date, .. } => match serial_date {
            Some(date) => Some(date@),
            None => None,
        },
        CellValue::Float { serial_date, .. } => match serial_date {
            Some(date) => Some(date@),
            None => None,
        },
        _ => None,
    }
}

/// In the date column a numeric cell that carries a serial date is stored as
/// that date, whether the number is an integer or not; a cell that carries
/// none is stored there exactly as in any other column.
pub proof fn lemma_serial_date_in_date_column(c: CellValue)
    ensures
        serial_date_of(c) matches Some(d) ==> cell_text(c, true) == d,
        serial_date_of(c) is None ==> cell_text(c, true) == cell_text(c, false),
{
}

/// The display text of a cell.
pub open spec fn cell_display(c: CellValue) -> Seq<char> {
    match c {
        CellValue::Empty => Seq::empty(),
        CellValue::Error(s) => s@,
        CellValue::Text(s) => s@,
        CellValue::Iso(s) => s@,
        CellValue::Int { value, .. } => idec(value as int),
        CellValue::Bool(b) => if b {
            "true"@
        } else {
            "false"@
        },
        CellValue::Float { shown, .. } => shown@,
        CellValue::DateTime { shown, .. } => shown@,
    }
}

/// A cell read as a header: its display text with whitespace collapsed.
pub open spec fn cell_header(c: CellValue) -> Seq<char> {
    collapse(cell_display(c))
}

/// The stored text of a cell; `expect_date` marks the date column.
pub fn normalize_cell(data: &CellValue, expect_date: bool) -> (r: String)
    ensures
        r@ == cell_text(*data, expect_date),
{
    match data {
        CellValue::Empty => String::new(),
        CellValue::Error(_) => String::new(),
        CellValue::Text(s) => collapse_ws(s.as_str()),
        CellValue::Iso(s) => collapse_ws(s.as_str()),
        CellValue::Int { value, serial_date } => {
            if expect_date {
                if let Some(date) = serial_date {
                    return date.clone();
                }
            }
            i64_to_string(*value)
        },
        CellValue::Bool(b) => {
            if *b {
                String::from_str("TRUE")
            } else {
                String::from_str("FALSE")
            }
        },
        CellValue::Float { plain, serial_date, .. } => {
            if expect_date {
                if let Some(date) = serial_date {
                    return date.clone();
                }
            }
            plain.clone()
        },
        CellValue::DateTime { rendered, .. } => rendered.clone(),
    }
}

/// The stored text of a cell outside the date column.
pub fn normalize_value(data: &CellValue) -> (r: String)
    ensures
        r@ == cell_text(*data, false),
{
    normalize_cell(data, false)
}

/// A cell read as a header.
pub fn header_text(data: &CellValue) -> (r: String)
    ensures
        r@ == cell_header(*data),
{
    match data {
        CellValue::Empty => {
            let r = String::new();
            assert(collapse(Seq::<char>::empty()) =~= Seq::<char>::empty()) by {
                reveal_strlit(" ");
            }
            r
        },
        CellValue::Error(s) => collapse_ws(s.as_str()),
        CellValue::Text(s) => collapse_ws(s.as_str()),
        CellValue::Iso(s) => collapse_ws(s.as_str()),
        CellValue::Int { value, .. } => {
            let shown = i64_to_string(*value);
            collapse_ws(shown.as_str())
        },
        CellValue::Bool(b) => {
            if *b {
                collapse_ws("true")
            } else {
                collapse_ws("false")
            }
        },
        CellValue::Float { shown, .. } => collapse_ws(shown.as_str()),
        CellValue::DateTime { shown, .. } => collapse_ws(shown.as_str()),
    }
}


// ---------- row hash ----------

/// The length of a row without its trailing empty cells.
pub open spec fn trimmed_len(row: Seq<CellValue>) -> nat
    decreases row.len(),
{
    if row.len() > 0 && row.last() is Empty {
        trimmed_len(row.drop_last())
    } else {
        row.len()
    }
}

/// The bytes hashed for the first `n` cells of a row: the UTF-8 text of
/// each cell, separated by the byte `0x1f`.
pub open spec fn hash_input(row: Seq<CellValue>, n: nat) -> Seq<u8>
    decreases n,
{
    if n == 0 {
        Seq::empty()
    } else if n == 1 {
        encode_utf8(cell_text(row[0], false))
    } else {
        hash_input(row, (n - 1) as nat) + seq![0x1fu8] + encode_utf8(
            cell_text(row[n - 1], false),
        )
    }
}

/// xxhash-rust's 128-bit XXH3 of a byte sequence.
pub uninterp spec fn xxh3_128_of(data: Seq<u8>) -> u128;

/// Calls `xxhash_rust::xxh3::xxh3_128`. The digest is a function of the
/// bytes alone; the algorithm is not restated here. Feeding the same bytes
/// to the streaming `Xxh3` hasher in pieces gives the same digest.
#[verifier::external_body]
pub(crate) fn xxh3_128(data: &[u8]) -> (r: u128)
    ensures
        r == xxh3_128_of(data@),
{
    xxhash_rust::xxh3::xxh3_128(data)
}

/// Byte `i` of `h` in little-endian order.
pub open spec fn le_byte(h: u128, i: nat) -> u8 {
    ((h as nat / pow(256, i) as nat) % 256) as u8
}

/// `u128::to_le_bytes`.
pub open spec fn le_bytes(h: u128) -> Seq<u8> {
    Seq::new(16, |i: int| le_byte(h, i as nat))
}

/// The hash of a file row: trailing empty cells are left out, so the hash
/// does not depend on how far the reader padded the row.
pub open spec fn row_hash_spec(row: Seq<CellValue>) -> Seq<u8> {
    le_bytes(xxh3_128_of(hash_input(row, trimmed_len(row))))
}

fn to_le_bytes(h: u128) -> (r: [u8; 16])
    ensures
        r@ == le_bytes(h),
{
    let mut out: Vec<u8> = Vec::new();
    let mut x: u128 = h;
    let mut i: usize = 0;
    proof {
        vstd::arithmetic::power::lemma_pow0(256);
        assert(pow(256, 0) as nat == 1);
        assert(h as nat / 1 == h as nat);
    }
    while i < 16
        invariant
            i <= 16,
            x as nat == h as nat / pow(256, i as nat) as nat,
            out@ == Seq::new(i as nat, |k: int| le_byte(h, k as nat)),
        decreases 16 - i,
    {
        proof {
            vstd::arithmetic::power::lemma_pow_positive(256, i as nat);
            vstd::arithmetic::power::lemma_pow_adds(256, i as nat, 1);
            vstd::arithmetic::power::lemma_pow1(256);
            vstd::arithmetic::div_mod::lemma_div_denominator(
                h as int,
                pow(256, i as nat),
                256,
            );
        }
        out.push((x % 256) as u8);
        x = x / 256;
        i += 1;
        assert(out@ =~= Seq::new(i as nat, |k: int| le_byte(h, k as nat)));
    }
    let r: [u8; 16] = [
        out[0], out[1], out[2], out[3], out[4], out[5], out[6], out[7],
        out[8], out[9], out[10], out[11], out[12], out[13], out[14], out[15],
    ];
    assert(r@ =~= le_bytes(h));
    r
}

fn trimmed_end(row: &[CellValue]) -> (r: usize)
    ensures
        r as nat == trimmed_len(row@),
{
    let mut end = row.len();
    assert(row@.take(end as int) =~= row@);
    while end > 0 && matches!(row[end - 1], CellValue::Empty)
        invariant
            end <= row@.len(),
            trimmed_len(row@.take(end as int)) == trimmed_len(row@),
        decreases end,
    {
        assert(row@.take(end as int).drop_last() =~= row@.take(end - 1));
        end -= 1;
    }
    assert(trimmed_len(row@.take(end as int)) == end) by {
        if end > 0 {
            assert(row@.take(end as int).last() == row@[end - 1]);
        }
    }
    end
}

/// The hash of a file row (see `row_hash_spec`).
pub fn row_hash_cells(row: &[CellValue]) -> (r: [u8; 16])
    ensures
        r@ == row_hash_spec(row@),
{
    let end = trimmed_end(row);
    proof {
        lemma_trimmed_len_le(row@);
    }
    let mut bytes: Vec<u8> = Vec::new();
    let mut i: usize = 0;
    while i < end
        invariant
            end as nat == trimmed_len(row@),
            end <= row@.len(),
            i <= end,
            bytes@ == hash_input(row@, i as nat),
        decreases end - i,
    {
        if i > 0 {
            bytes.push(0x1f);
        }
        let text = normalize_value(&row[i]);
        let piece = text.as_str().as_bytes();
        let ghost before = bytes@;
        bytes.extend_from_slice(piece);
        assert(bytes@ =~= before + encode_utf8(cell_text(row@[i as int], false)));
        i += 1;
    }
    proof {
        lemma_trimmed_len_le(row@);
    }
    let h = xxh3_128(bytes.as_slice());
    to_le_bytes(h)
}

proof fn lemma_hash_input_prefix(row: Seq<CellValue>, x: CellValue, n: nat)
    requires
        n <= row.len(),
    ensures
        hash_input(row.push(x), n) == hash_input(row, n),
    decreases n,
{
    if n > 1 {
        lemma_hash_input_prefix(row, x, (n - 1) as nat);
        assert(row.push(x)[n - 1] == row[n - 1]);
    } else if n == 1 {
        assert(row.push(x)[0] == row[0]);
    }
}

/// Trailing empty cells do not change a row's hash, however many the
/// reader padded the row with.
pub proof fn lemma_row_hash_ignores_trailing_empty(row: Seq<CellValue>)
    ensures
        row_hash_spec(row.push(CellValue::Empty)) == row_hash_spec(row),
{
    let padded = row.push(CellValue::Empty);
    assert(padded.drop_last() =~= row);
    assert(trimmed_len(padded) == trimmed_len(row));
    lemma_trimmed_len_le(row);
    lemma_hash_input_prefix(row, CellValue::Empty, trimmed_len(row));
}

proof fn lemma_trimmed_len_le(row: Seq<CellValue>)
    ensures
        trimmed_len(row) <= row.len(),
    decreases row.len(),
{
    if row.len() > 0 && row.last() is Empty {
        lemma_trimmed_len_le(row.drop_last());
    }
}

} // verus!
