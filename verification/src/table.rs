//! The shape of an imported table: one first-class column per source column,
//! with a display header, a stable identifier and an inferred role.

use vstd::prelude::*;
use crate::text::{
    lemma_join_push, lemma_join_extend_last, lemma_join_last, join, collapse, collapse_ws, has_infix, str_contains, str_eq, char_lowercase, char_is_alphanumeric,
    lowercase_char, is_alphanumeric, chars_of, string_of,
};
use crate::number::{dec, u64_to_string};

verus! {

/// Domain-neutral role inferred from a source column: how it can be
/// searched, filtered, aggregated or displayed.
#[derive(Clone, Copy, Debug, PartialEq, Eq, Structural)]
pub enum ColumnRole {
    Text,
    Number,
    Date,
    Year,
    Country,
    Code,
    Identifier,
    Money,
    Weight,
}

/// Optional semantic meaning a profile attaches to a column. Imports work
/// without any; the raw columns stay the source of truth.
#[derive(Clone, Copy, Debug, PartialEq, Eq, Structural)]
pub enum SemanticField {
    Date,
    DeclarationNumber,
    CompanyCode,
    Sender,
    Recipient,
    ProductCode,
    Description,
    Trademark,
    Country,
    OriginCountry,
    DispatchCountry,
    TradeCountry,
    Quantity,
    NetWeight,
    GrossWeight,
    Value,
}

/// Where the values of a column are kept.
#[derive(Debug)]
pub enum ColumnStorage {
    /// In the row's JSON payload of source columns.
    SourceJson,
    /// In a column of the fixed schema, by name.
    SchemaColumn(String),
}

impl Default for ColumnStorage {
    fn default() -> (r: ColumnStorage)
        ensures
            r is SourceJson,
    {
        ColumnStorage::SourceJson
    }
}

#[derive(Debug)]
pub struct SourceColumn {
    pub id: String,
    pub header: String,
    pub source_index: usize,
    pub role: ColumnRole,
    pub semantic: Option<SemanticField>,
    pub storage: ColumnStorage,
}

#[derive(Debug)]
pub struct TableShape {
    pub columns: Vec<SourceColumn>,
}

// ---------- headers and identifiers ----------

/// The header shown for source column `index`: whitespace collapsed, or
/// `Column n` (counting from one) when nothing is left.
pub open spec fn display_header(h: Seq<char>, index: nat) -> Seq<char> {
    if collapse(h).len() == 0 {
        "Column "@ + dec(index + 1)
    } else {
        collapse(h)
    }
}

/// `h` with each character replaced by its lowercase mapping.
pub open spec fn lowered(h: Seq<char>) -> Seq<char>
    decreases h.len(),
{
    if h.len() == 0 {
        Seq::empty()
    } else {
        lowered(h.drop_last()) + char_lowercase(h.last())
    }
}

/// The maximal runs of alphanumeric characters of `s`, in order.
pub open spec fn alnum_runs(s: Seq<char>) -> Seq<Seq<char>>
    decreases s.len(),
{
    if s.len() == 0 {
        Seq::empty()
    } else if !char_is_alphanumeric(s.last()) {
        alnum_runs(s.drop_last())
    } else if s.len() > 1 && char_is_alphanumeric(s[s.len() - 2]) {
        let w = alnum_runs(s.drop_last());
        w.update(w.len() - 1, w.last().push(s.last()))
    } else {
        alnum_runs(s.drop_last()).push(seq![s.last()])
    }
}

/// The stable identifier of a header: the runs of alphanumeric characters
/// of its lowercase form joined by `_`, or `column_n` (counting from one)
/// when it has none.
pub open spec fn stable_id(h: Seq<char>, index: nat) -> Seq<char> {
    let out = join(alnum_runs(lowered(h)), "_"@);
    if out.len() == 0 {
        "column_"@ + dec(index + 1)
    } else {
        out
    }
}

/// The scan that builds an identifier left to right: alphanumeric
/// characters are kept, and the first other character after kept text puts
/// one `_`. The flag tells whether the text ends with such a `_`.
spec fn id_scan(s: Seq<char>) -> (Seq<char>, bool)
    decreases s.len(),
{
    if s.len() == 0 {
        (Seq::empty(), false)
    } else {
        let (out, last_sep) = id_scan(s.drop_last());
        let ch = s.last();
        if char_is_alphanumeric(ch) {
            (out.push(ch), false)
        } else if out.len() > 0 && !last_sep {
            (out.push('_'), true)
        } else {
            (out, last_sep)
        }
    }
}

/// `s` without its trailing underscores.
spec fn strip_underscores(s: Seq<char>) -> Seq<char>
    decreases s.len(),
{
    if s.len() > 0 && s.last() == '_' {
        strip_underscores(s.drop_last())
    } else {
        s
    }
}

/// Each run is non-empty and ends with an alphanumeric character.
proof fn lemma_alnum_runs_end(s: Seq<char>)
    ensures
        forall|k: int|
            0 <= k < alnum_runs(s).len() ==> (#[trigger] alnum_runs(s)[k]).len() > 0
                && char_is_alphanumeric(alnum_runs(s)[k].last()),
    decreases s.len(),
{
    if s.len() > 0 {
        let p = s.drop_last();
        lemma_alnum_runs_end(p);
        let w = alnum_runs(p);
        let r = alnum_runs(s);
        if char_is_alphanumeric(s.last()) {
            if s.len() > 1 && char_is_alphanumeric(s[s.len() - 2]) {
                assert(p.last() == s[s.len() - 2]);
                lemma_runs_nonempty(p);
                assert forall|k: int| 0 <= k < r.len() implies (#[trigger] r[k]).len() > 0
                    && char_is_alphanumeric(r[k].last()) by {
                    if k == w.len() - 1 {
                        assert(r[k] == w.last().push(s.last()));
                    } else {
                        assert(r[k] == w[k]);
                    }
                }
            } else {
                assert forall|k: int| 0 <= k < r.len() implies (#[trigger] r[k]).len() > 0
                    && char_is_alphanumeric(r[k].last()) by {
                    if k < w.len() {
                        assert(r[k] == w[k]);
                    } else {
                        assert(r[k] == seq![s.last()]);
                    }
                }
            }
        }
    }
}

/// The scan is the joined runs, followed by one `_` when the text ends in
/// non-alphanumeric characters after some run.
proof fn lemma_id_scan(s: Seq<char>)
    ensures
        ({
            let (o, f) = id_scan(s);
            let j = join(alnum_runs(s), "_"@);
            &&& o == (if f {
                j.push('_')
            } else {
                j
            })
            &&& f ==> j.len() > 0
            &&& s.len() > 0 && !char_is_alphanumeric(s.last()) ==> (f <==> j.len() > 0)
            &&& s.len() > 0 && char_is_alphanumeric(s.last()) ==> !f
        }),
    decreases s.len(),
{
    reveal_strlit("_");
    assert("_"@ =~= seq!['_']);
    if s.len() > 0 {
        let p = s.drop_last();
        lemma_id_scan(p);
        let (o, f) = id_scan(p);
        let w = alnum_runs(p);
        let jp = join(w, "_"@);
        let ch = s.last();
        if char_is_alphanumeric(ch) {
            if s.len() > 1 && char_is_alphanumeric(s[s.len() - 2]) {
                assert(p.last() == s[s.len() - 2]);
                lemma_alnum_runs_end(p);
                assert(w.len() > 0) by {
                    if w.len() == 0 {
                        assert(jp.len() == 0);
                    }
                    lemma_runs_nonempty(p);
                }
                lemma_join_extend_last(w, ch, "_"@);
            } else {
                lemma_join_push(w, seq![ch], "_"@);
                if w.len() > 0 {
                    assert(p.len() > 0);
                    assert(!char_is_alphanumeric(p.last()));
                    lemma_alnum_runs_end(p);
                    lemma_join_last(w, "_"@);
                    assert(f);
                    assert(jp + "_"@ + seq![ch] =~= jp.push('_').push(ch));
                } else {
                    assert(jp.len() == 0);
                    assert(seq![ch] =~= o.push(ch));
                }
            }
        }
    }
}

/// Text whose last character is alphanumeric has a run.
proof fn lemma_runs_nonempty(s: Seq<char>)
    requires
        s.len() > 0,
        char_is_alphanumeric(s.last()),
    ensures
        alnum_runs(s).len() > 0,
    decreases s.len(),
{
    if s.len() > 1 && char_is_alphanumeric(s[s.len() - 2]) {
        assert(s.drop_last().last() == s[s.len() - 2]);
        lemma_runs_nonempty(s.drop_last());
    }
}

/// Removing trailing underscores from the scan gives the joined runs.
proof fn lemma_stripped_scan(s: Seq<char>)
    ensures
        strip_underscores(id_scan(s).0) == join(alnum_runs(s), "_"@),
{
    lemma_id_scan(s);
    let j = join(alnum_runs(s), "_"@);
    lemma_alnum_runs_end(s);
    if j.len() > 0 {
        assert(alnum_runs(s).len() > 0);
        lemma_join_last(alnum_runs(s), "_"@);
        assert(!char_is_alphanumeric('_'));
        assert(j.last() != '_');
        assert(strip_underscores(j) == j);
        if id_scan(s).1 {
            assert(j.push('_').drop_last() =~= j);
            assert(strip_underscores(j.push('_')) == strip_underscores(j));
        }
    } else {
        if id_scan(s).1 {
            assert(false);
        }
    }
}

pub(crate) fn normalize_header_for_display(header: &str, source_index: usize) -> (r: String)
    requires
        source_index < usize::MAX,
    ensures
        r@ == display_header(header@, source_index as nat),
{
    let trimmed = collapse_ws(header);
    if trimmed.as_str().is_empty() {
        let mut out = String::from_str("Column ");
        let n = u64_to_string((source_index + 1) as u64);
        out.append(n.as_str());
        out
    } else {
        trimmed
    }
}

fn lowered_chars(header: &str) -> (r: Vec<char>)
    ensures
        r@ == lowered(header@),
{
    let cs = chars_of(header);
    let mut out: Vec<char> = Vec::new();
    let mut i: usize = 0;
    while i < cs.len()
        invariant
            i <= cs@.len(),
            out@ == lowered(cs@.take(i as int)),
        decreases cs.len() - i,
    {
        assert(cs@.take(i + 1).drop_last() =~= cs@.take(i as int));
        let low = lowercase_char(cs[i]);
        let ghost before = out@;
        let mut k: usize = 0;
        while k < low.len()
            invariant
                k <= low@.len(),
                out@ == before + low@.take(k as int),
            decreases low.len() - k,
        {
            out.push(low[k]);
            k += 1;
            assert(out@ =~= before + low@.take(k as int));
        }
        assert(low@.take(k as int) =~= low@);
        i += 1;
    }
    assert(cs@.take(i as int) =~= cs@);
    out
}

fn stable_column_id(header: &str, source_index: usize) -> (r: String)
    requires
        source_index < usize::MAX,
    ensures
        r@ == stable_id(header@, source_index as nat),
{
    let low = lowered_chars(header);
    let mut out: Vec<char> = Vec::new();
    let mut last_sep = false;
    let mut i: usize = 0;
    while i < low.len()
        invariant
            i <= low@.len(),
            (out@, last_sep) == id_scan(low@.take(i as int)),
        decreases low.len() - i,
    {
        assert(low@.take(i + 1).drop_last() =~= low@.take(i as int));
        let ch = low[i];
        if is_alphanumeric(ch) {
            out.push(ch);
            last_sep = false;
        } else if out.len() > 0 && !last_sep {
            out.push('_');
            last_sep = true;
        }
        i += 1;
    }
    assert(low@.take(i as int) =~= low@);
    proof {
        lemma_stripped_scan(lowered(header@));
    }
    while out.len() > 0 && out[out.len() - 1] == '_'
        invariant
            strip_underscores(out@) == join(alnum_runs(lowered(header@)), "_"@),
        decreases out.len(),
    {
        assert(out@.drop_last() == out@.subrange(0, out@.len() - 1));
        out.pop();
    }
    if out.len() == 0 {
        let mut s = String::from_str("column_");
        let n = u64_to_string((source_index + 1) as u64);
        s.append(n.as_str());
        s
    } else {
        string_of(out.as_slice())
    }
}

/// The role of a column, from words in its stable identifier.
pub open spec fn role_of(h: Seq<char>) -> ColumnRole {
    let l = stable_id(h, 0);
    if has_infix(l, "date"@) || has_infix(l, "дата"@) {
        ColumnRole::Date
    } else if l == "year"@ || has_infix(l, "рік"@) || has_infix(l, "год"@) {
        ColumnRole::Year
    } else if has_infix(l, "country"@) || has_infix(l, "краї"@) || has_infix(l, "стра"@) {
        ColumnRole::Country
    } else if has_infix(l, "code"@) || has_infix(l, "код"@) || has_infix(l, "sku"@) {
        ColumnRole::Code
    } else if has_infix(l, "id"@) || has_infix(l, "number"@) || has_infix(l, "номер"@) {
        ColumnRole::Identifier
    } else if has_infix(l, "price"@) || has_infix(l, "value"@) || has_infix(l, "amount"@)
        || has_infix(l, "варт"@) || has_infix(l, "сум"@) {
        ColumnRole::Money
    } else if has_infix(l, "weight"@) || has_infix(l, "вага"@) || has_infix(l, "kg"@) {
        ColumnRole::Weight
    } else if has_infix(l, "qty"@) || has_infix(l, "quantity"@) || has_infix(l, "кільк"@) {
        ColumnRole::Number
    } else {
        ColumnRole::Text
    }
}

/// The roles a column can be given from words of its identifier, from the
/// first consulted to the last.
pub open spec fn role_rank(k: int) -> ColumnRole {
    if k == 0 {
        ColumnRole::Date
    } else if k == 1 {
        ColumnRole::Year
    } else if k == 2 {
        ColumnRole::Country
    } else if k == 3 {
        ColumnRole::Code
    } else if k == 4 {
        ColumnRole::Identifier
    } else if k == 5 {
        ColumnRole::Money
    } else if k == 6 {
        ColumnRole::Weight
    } else {
        ColumnRole::Number
    }
}

/// The words that give the role of rank `k`, in English and Ukrainian or
/// Russian stems.
pub open spec fn role_words(k: int) -> Seq<Seq<char>> {
    if k == 0 {
        seq!["date"@, "дата"@]
    } else if k == 1 {
        seq!["рік"@, "год"@]
    } else if k == 2 {
        seq!["country"@, "краї"@, "стра"@]
    } else if k == 3 {
        seq!["code"@, "код"@, "sku"@]
    } else if k == 4 {
        seq!["id"@, "number"@, "номер"@]
    } else if k == 5 {
        seq!["price"@, "value"@, "amount"@, "варт"@, "сум"@]
    } else if k == 6 {
        seq!["weight"@, "вага"@, "kg"@]
    } else {
        seq!["qty"@, "quantity"@, "кільк"@]
    }
}

/// The identifier `l` names the role of rank `k`: it holds one of that role's
/// words, or, for the year, is the word `year` itself.
pub open spec fn names_role(l: Seq<char>, k: int) -> bool {
    ||| (k == 1 && l == "year"@)
    ||| exists|j: int| 0 <= j < role_words(k).len() && #[trigger] has_infix(l, role_words(k)[j])
}

proof fn lemma_names_role_words(l: Seq<char>)
    ensures
        names_role(l, 0) == (has_infix(l, "date"@) || has_infix(l, "дата"@)),
        names_role(l, 1) == (l == "year"@ || has_infix(l, "рік"@) || has_infix(l, "год"@)),
        names_role(l, 2) == (has_infix(l, "country"@) || has_infix(l, "краї"@) || has_infix(l, "стра"@)),
        names_role(l, 3) == (has_infix(l, "code"@) || has_infix(l, "код"@) || has_infix(l, "sku"@)),
        names_role(l, 4) == (has_infix(l, "id"@) || has_infix(l, "number"@) || has_infix(l, "номер"@)),
        names_role(l, 5) == (has_infix(l, "price"@) || has_infix(l, "value"@) || has_infix(l, "amount"@)
            || has_infix(l, "варт"@) || has_infix(l, "сум"@)),
        names_role(l, 6) == (has_infix(l, "weight"@) || has_infix(l, "вага"@) || has_infix(l, "kg"@)),
        names_role(l, 7) == (has_infix(l, "qty"@) || has_infix(l, "quantity"@) || has_infix(l, "кільк"@)),
{
    let w0 = role_words(0);
    let w1 = role_words(1);
    let w2 = role_words(2);
    let w3 = role_words(3);
    let w4 = role_words(4);
    let w5 = role_words(5);
    let w6 = role_words(6);
    let w7 = role_words(7);
    assert(has_infix(l, w0[0]) == has_infix(l, "date"@) && has_infix(l, w0[1]) == has_infix(l, "дата"@));
    assert(has_infix(l, w1[0]) == has_infix(l, "рік"@) && has_infix(l, w1[1]) == has_infix(l, "год"@));
    assert(has_infix(l, w2[0]) == has_infix(l, "country"@) && has_infix(l, w2[1]) == has_infix(l, "краї"@)
        && has_infix(l, w2[2]) == has_infix(l, "стра"@));
    assert(has_infix(l, w3[0]) == has_infix(l, "code"@) && has_infix(l, w3[1]) == has_infix(l, "код"@)
        && has_infix(l, w3[2]) == has_infix(l, "sku"@));
    assert(has_infix(l, w4[0]) == has_infix(l, "id"@) && has_infix(l, w4[1]) == has_infix(l, "number"@)
        && has_infix(l, w4[2]) == has_infix(l, "номер"@));
    assert(has_infix(l, w5[0]) == has_infix(l, "price"@) && has_infix(l, w5[1]) == has_infix(l, "value"@)
        && has_infix(l, w5[2]) == has_infix(l, "amount"@) && has_infix(l, w5[3]) == has_infix(l, "варт"@)
        && has_infix(l, w5[4]) == has_infix(l, "сум"@));
    assert(has_infix(l, w6[0]) == has_infix(l, "weight"@) && has_infix(l, w6[1]) == has_infix(l, "вага"@)
        && has_infix(l, w6[2]) == has_infix(l, "kg"@));
    assert(has_infix(l, w7[0]) == has_infix(l, "qty"@) && has_infix(l, w7[1]) == has_infix(l, "quantity"@)
        && has_infix(l, w7[2]) == has_infix(l, "кільк"@));
}

/// A column whose identifier names a role, and none consulted before it, gets
/// that role: a quantity column, say, is a number column.
pub proof fn lemma_role_from_words(h: Seq<char>, k: int)
    requires
        0 <= k < 8,
        names_role(stable_id(h, 0), k),
        forall|j: int| 0 <= j < k ==> !names_role(stable_id(h, 0), j),
    ensures
        role_of(h) == role_rank(k),
{
    let l = stable_id(h, 0);
    lemma_names_role_words(l);
    assert(k > 0 ==> !names_role(l, 0));
    assert(k > 1 ==> !names_role(l, 1));
    assert(k > 2 ==> !names_role(l, 2));
    assert(k > 3 ==> !names_role(l, 3));
    assert(k > 4 ==> !names_role(l, 4));
    assert(k > 5 ==> !names_role(l, 5));
    assert(k > 6 ==> !names_role(l, 6));
}

/// A column whose identifier names no role is a text column.
pub proof fn lemma_role_text_without_words(h: Seq<char>)
    requires
        forall|j: int| 0 <= j < 8 ==> !names_role(stable_id(h, 0), j),
    ensures
        role_of(h) == ColumnRole::Text,
{
    let l = stable_id(h, 0);
    lemma_names_role_words(l);
    assert(!names_role(l, 0) && !names_role(l, 1) && !names_role(l, 2) && !names_role(l, 3));
    assert(!names_role(l, 4) && !names_role(l, 5) && !names_role(l, 6) && !names_role(l, 7));
}

fn infer_role(header: &str) -> (r: ColumnRole)
    ensures
        r == role_of(header@),
{
    let normalized = stable_column_id(header, 0);
    let l = normalized.as_str();
    if str_contains(l, "date") || str_contains(l, "дата") {
        ColumnRole::Date
    } else if str_eq(l, "year") || str_contains(l, "рік") || str_contains(l, "год") {
        ColumnRole::Year
    } else if str_contains(l, "country") || str_contains(l, "краї") || str_contains(l, "стра") {
        ColumnRole::Country
    } else if str_contains(l, "code") || str_contains(l, "код") || str_contains(l, "sku") {
        ColumnRole::Code
    } else if str_contains(l, "id") || str_contains(l, "number") || str_contains(l, "номер") {
        ColumnRole::Identifier
    } else if str_contains(l, "price") || str_contains(l, "value") || str_contains(l, "amount")
        || str_contains(l, "варт") || str_contains(l, "сум") {
        ColumnRole::Money
    } else if str_contains(l, "weight") || str_contains(l, "вага") || str_contains(l, "kg") {
        ColumnRole::Weight
    } else if str_contains(l, "qty") || str_contains(l, "quantity") || str_contains(l, "кільк") {
        ColumnRole::Number
    } else {
        ColumnRole::Text
    }
}


// ---------- the shape ----------

/// Abstract column storage.
pub enum StorageModel {
    SourceJson,
    SchemaColumn(Seq<char>),
}

/// Abstract source column.
pub struct SourceColumnModel {
    pub id: Seq<char>,
    pub header: Seq<char>,
    pub source_index: int,
    pub role: ColumnRole,
    pub semantic: Option<SemanticField>,
    pub storage: StorageModel,
}

impl View for ColumnStorage {
    type V = StorageModel;

    open spec fn view(&self) -> StorageModel {
        match self {
            ColumnStorage::SourceJson => StorageModel::SourceJson,
            ColumnStorage::SchemaColumn(name) => StorageModel::SchemaColumn(name@),
        }
    }
}

impl View for SourceColumn {
    type V = SourceColumnModel;

    open spec fn view(&self) -> SourceColumnModel {
        SourceColumnModel {
            id: self.id@,
            header: self.header@,
            source_index: self.source_index as int,
            role: self.role,
            semantic: self.semantic,
            storage: self.storage@,
        }
    }
}

impl View for TableShape {
    type V = Seq<SourceColumnModel>;

    open spec fn view(&self) -> Seq<SourceColumnModel> {
        self.columns@.map_values(|c: SourceColumn| c@)
    }
}

/// The identifiers the headers give before duplicates are told apart.
pub open spec fn base_ids(hs: Seq<Seq<char>>) -> Seq<Seq<char>> {
    Seq::new(hs.len(), |i: int| stable_id(display_header(hs[i], i as nat), i as nat))
}

/// How many times `x` occurs in `s`.
pub open spec fn count_of(s: Seq<Seq<char>>, x: Seq<char>) -> nat
    decreases s.len(),
{
    if s.len() == 0 {
        0
    } else {
        count_of(s.drop_last(), x) + if s.last() == x {
            1nat
        } else {
            0nat
        }
    }
}

/// The identifier of column `i`: its base identifier, followed by `_n` when
/// it is the `n`-th column (counting from one) with that base identifier.
pub open spec fn unique_id(bases: Seq<Seq<char>>, i: int) -> Seq<char> {
    let c = count_of(bases.take(i), bases[i]);
    if c == 0 {
        bases[i]
    } else {
        bases[i] + "_"@ + dec(c + 1)
    }
}

/// The column inferred for source column `i` of headers `hs`.
pub open spec fn inferred_column(hs: Seq<Seq<char>>, i: int) -> SourceColumnModel {
    let header = display_header(hs[i], i as nat);
    SourceColumnModel {
        id: unique_id(base_ids(hs), i),
        header,
        source_index: i,
        role: role_of(header),
        semantic: None,
        storage: StorageModel::SourceJson,
    }
}

/// The semantic field that the last pair naming `id` gives, if any.
pub open spec fn semantic_for(pairs: Seq<(Seq<char>, SemanticField)>, id: Seq<char>) -> Option<
    SemanticField,
>
    decreases pairs.len(),
{
    if pairs.len() == 0 {
        None
    } else if pairs.last().0 == id {
        Some(pairs.last().1)
    } else {
        semantic_for(pairs.drop_last(), id)
    }
}

/// A column with the semantic field the pairs give it, if any.
pub open spec fn with_semantic(
    c: SourceColumnModel,
    pairs: Seq<(Seq<char>, SemanticField)>,
) -> SourceColumnModel {
    match semantic_for(pairs, c.id) {
        Some(f) => SourceColumnModel { semantic: Some(f), ..c },
        None => c,
    }
}

pub open spec fn semantic_pairs(v: Seq<(String, SemanticField)>) -> Seq<(Seq<char>, SemanticField)> {
    v.map_values(|p: (String, SemanticField)| (p.0@, p.1))
}

fn count_equal(bases: &Vec<String>, x: &String) -> (r: usize)
    ensures
        r as nat == count_of(crate::text::views(bases@), x@),
        r <= bases@.len(),
{
    let ghost bs = crate::text::views(bases@);
    let mut n: usize = 0;
    let mut i: usize = 0;
    while i < bases.len()
        invariant
            i <= bases@.len(),
            bs == crate::text::views(bases@),
            n as nat == count_of(bs.take(i as int), x@),
            n <= i,
        decreases bases.len() - i,
    {
        assert(bs.take(i + 1).drop_last() =~= bs.take(i as int));
        assert(bs.take(i + 1).last() == bases@[i as int]@);
        if str_eq(bases[i].as_str(), x.as_str()) {
            n += 1;
        }
        i += 1;
    }
    assert(bs.take(i as int) =~= bs);
    n
}

fn copy_storage(s: &ColumnStorage) -> (r: ColumnStorage)
    ensures
        r@ == s@,
{
    match s {
        ColumnStorage::SourceJson => ColumnStorage::SourceJson,
        ColumnStorage::SchemaColumn(name) => ColumnStorage::SchemaColumn(name.clone()),
    }
}

impl TableShape {
    /// One column per header, in source order. Headers are shown with
    /// whitespace collapsed (`Column n` when blank); identifiers are stable
    /// lowercase words, numbered `_2`, `_3`, … when repeated; roles are
    /// inferred from the shown header.
    pub fn from_headers(headers: Vec<String>) -> (r: TableShape)
        ensures
            r@.len() == headers@.len(),
            forall|i: int|
                0 <= i < headers@.len() ==> #[trigger] r@[i] == inferred_column(
                    crate::text::views(headers@),
                    i,
                ),
    {
        let ghost hs = crate::text::views(headers@);
        let mut bases: Vec<String> = Vec::new();
        let mut columns: Vec<SourceColumn> = Vec::new();
        let mut i: usize = 0;
        while i < headers.len()
            invariant
                i <= headers@.len(),
                hs == crate::text::views(headers@),
                crate::text::views(bases@) == base_ids(hs).take(i as int),
                columns@.len() == i,
                forall|k: int| 0 <= k < i ==> #[trigger] columns@[k]@ == inferred_column(hs, k),
            decreases headers.len() - i,
        {
            let header = normalize_header_for_display(headers[i].as_str(), i);
            let base_id = stable_column_id(header.as_str(), i);
            assert(base_id@ == base_ids(hs)[i as int]);
            let count = count_equal(&bases, &base_id);
            let id = if count == 0 {
                base_id.clone()
            } else {
                let mut s = base_id.clone();
                s.append("_");
                let n = u64_to_string((count + 1) as u64);
                s.append(n.as_str());
                s
            };
            assert(base_ids(hs).take(i + 1).take(i as int) =~= base_ids(hs).take(i as int));
            let role = infer_role(header.as_str());
            let column = SourceColumn {
                id,
                header,
                source_index: i,
                role,
                semantic: None,
                storage: ColumnStorage::SourceJson,
            };
            assert(column@ == inferred_column(hs, i as int));
            columns.push(column);
            let ghost before = bases@;
            bases.push(base_id);
            assert(crate::text::views(bases@) =~= crate::text::views(before).push(
                base_ids(hs)[i as int],
            ));
            i += 1;
            assert(crate::text::views(bases@) =~= base_ids(hs).take(i as int));
        }
        let r = TableShape { columns };
        assert forall|k: int| 0 <= k < headers@.len() implies #[trigger] r@[k] == inferred_column(
            hs,
            k,
        ) by {
            assert(r@[k] == columns@[k]@);
        }
        r
    }

    /// Attaches semantic fields by column identifier; when an identifier is
    /// named twice, the later pair wins. Other columns are unchanged.
    pub fn with_semantics(self, semantics: Vec<(String, SemanticField)>) -> (r: TableShape)
        ensures
            r@.len() == self@.len(),
            forall|i: int|
                0 <= i < self@.len() ==> #[trigger] r@[i] == with_semantic(
                    self@[i],
                    semantic_pairs(semantics@),
                ),
    {
        let ghost pairs = semantic_pairs(semantics@);
        let mut columns: Vec<SourceColumn> = Vec::new();
        let mut i: usize = 0;
        while i < self.columns.len()
            invariant
                i <= self.columns@.len(),
                pairs == semantic_pairs(semantics@),
                columns@.len() == i,
                forall|k: int|
                    0 <= k < i ==> #[trigger] columns@[k]@ == with_semantic(
                        self.columns@[k]@,
                        pairs,
                    ),
            decreases self.columns.len() - i,
        {
            let c = &self.columns[i];
            let found = semantic_lookup(&semantics, &c.id);
            let semantic = match found {
                Some(f) => Some(f),
                None => c.semantic,
            };
            let column = SourceColumn {
                id: c.id.clone(),
                header: c.header.clone(),
                source_index: c.source_index,
                role: c.role,
                semantic,
                storage: copy_storage(&c.storage),
            };
            assert(column@ == with_semantic(self.columns@[i as int]@, pairs));
            columns.push(column);
            i += 1;
        }
        let r = TableShape { columns };
        assert forall|k: int| 0 <= k < self@.len() implies #[trigger] r@[k] == with_semantic(
            self@[k],
            pairs,
        ) by {
            assert(r@[k] == columns@[k]@);
            assert(self@[k] == self.columns@[k]@);
        }
        r
    }
}

/// The position of the first column with identifier `id`.
pub open spec fn column_position(cols: Seq<SourceColumnModel>, id: Seq<char>) -> Option<int>
    decreases cols.len(),
{
    if cols.len() == 0 {
        None
    } else {
        match column_position(cols.drop_last(), id) {
            Some(i) => Some(i),
            None => if cols.last().id == id {
                Some(cols.len() - 1)
            } else {
                None
            },
        }
    }
}

impl TableShape {
    /// Sets or clears the semantic field of the first column with the given
    /// identifier; false (and nothing changed) when there is none.
    pub fn set_column_semantic(&mut self, column_id: &str, semantic: Option<SemanticField>) -> (r:
        bool)
        ensures
            r == (column_position(old(self)@, column_id@) is Some),
            match column_position(old(self)@, column_id@) {
                Some(i) => final(self)@ == old(self)@.update(
                    i,
                    SourceColumnModel { semantic: semantic, ..old(self)@[i] },
                ),
                None => final(self)@ == old(self)@,
            },
    {
        let ghost cols = self@;
        let mut i: usize = 0;
        while i < self.columns.len()
            invariant
                i <= self.columns@.len(),
                cols == self@,
                cols == old(self)@,
                column_position(cols.take(i as int), column_id@) is None,
            decreases self.columns.len() - i,
        {
            assert(cols.take(i + 1).drop_last() =~= cols.take(i as int));
            assert(cols[i as int] == self.columns@[i as int]@);
            if str_eq(self.columns[i].id.as_str(), column_id) {
                proof {
                    lemma_position_prefix(cols, column_id@, i as int + 1, i as int);
                }
                let c = &self.columns[i];
                let column = SourceColumn {
                    id: c.id.clone(),
                    header: c.header.clone(),
                    source_index: c.source_index,
                    role: c.role,
                    semantic,
                    storage: copy_storage(&c.storage),
                };
                let ghost before = self.columns@;
                self.columns.set(i, column);
                assert(self@ =~= cols.update(
                    i as int,
                    SourceColumnModel { semantic: semantic, ..cols[i as int] },
                ));
                return true;
            }
            i += 1;
        }
        assert(cols.take(i as int) =~= cols);
        false
    }
}

proof fn lemma_position_prefix(cols: Seq<SourceColumnModel>, id: Seq<char>, n: int, k: int)
    requires
        0 <= n <= cols.len(),
        column_position(cols.take(n), id) == Some(k),
    ensures
        column_position(cols, id) == Some(k),
    decreases cols.len() - n,
{
    if n < cols.len() {
        assert(cols.take(n + 1).drop_last() =~= cols.take(n));
        lemma_position_prefix(cols, id, n + 1, k);
    } else {
        assert(cols.take(n) =~= cols);
    }
}

fn semantic_lookup(semantics: &Vec<(String, SemanticField)>, id: &String) -> (r: Option<
    SemanticField,
>)
    ensures
        r == semantic_for(semantic_pairs(semantics@), id@),
{
    let ghost pairs = semantic_pairs(semantics@);
    let mut i: usize = semantics.len();
    assert(pairs.take(i as int) =~= pairs);
    while i > 0
        invariant
            i <= semantics@.len(),
            pairs == semantic_pairs(semantics@),
            semantic_for(pairs, id@) == semantic_for(pairs.take(i as int), id@),
        decreases i,
    {
        assert(pairs.take(i as int).drop_last() =~= pairs.take(i - 1));
        assert(pairs.take(i as int).last() == pairs[i - 1]);
        if str_eq(semantics[i - 1].0.as_str(), id.as_str()) {
            return Some(semantics[i - 1].1);
        }
        i -= 1;
    }
    assert(pairs.take(0) =~= Seq::<(Seq<char>, SemanticField)>::empty());
    None
}

} // verus!
