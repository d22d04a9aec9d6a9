//! The SQL `WHERE` clause of the analytics projection for a search.

use vstd::prelude::*;
use crate::text::{
    blank, trim, is_blank, trim_str, ascii_lower, ascii_upper, to_ascii_lowercase,
    to_ascii_uppercase, join, views, join_strings, chars_of, string_of,
};
use crate::number::{idec, parse_signed, parse_i64, i64_to_string};
use crate::db_types::{Query, QueryModel};

verus! {

/// The quote-doubled body of a SQL string literal.
pub open spec fn sql_body(s: Seq<char>) -> Seq<char>
    decreases s.len(),
{
    if s.len() == 0 {
        Seq::empty()
    } else {
        sql_body(s.drop_last()) + if s.last() == '\'' {
            seq!['\'', '\'']
        } else {
            seq![s.last()]
        }
    }
}

/// A SQL string literal holding `s`.
pub open spec fn sql_quoted(s: Seq<char>) -> Seq<char> {
    seq!['\''] + sql_body(s) + seq!['\'']
}

/// Quotes text as a SQL string literal, doubling each quote inside.
pub fn sql_string(value: &str) -> (r: String)
    ensures
        r@ == sql_quoted(value@),
{
    let cs = chars_of(value);
    let mut out: Vec<char> = Vec::new();
    out.push('\'');
    let mut i: usize = 0;
    while i < cs.len()
        invariant
            i <= cs@.len(),
            out@ == seq!['\''] + sql_body(cs@.take(i as int)),
        decreases cs.len() - i,
    {
        assert(cs@.take(i + 1).drop_last() =~= cs@.take(i as int));
        let c = cs[i];
        let ghost before = out@;
        if c == '\'' {
            out.push('\'');
            out.push('\'');
        } else {
            out.push(c);
        }
        i += 1;
        assert(out@ =~= seq!['\''] + sql_body(cs@.take(i as int)));
    }
    assert(cs@.take(i as int) =~= cs@);
    out.push('\'');
    assert(out@ =~= sql_quoted(value@));
    string_of(out.as_slice())
}

/// Reads a SQL string body back: a doubled quote stands for one quote.
pub open spec fn sql_unbody(t: Seq<char>) -> Seq<char>
    decreases t.len(),
{
    if t.len() == 0 {
        Seq::empty()
    } else if t.len() >= 2 && t[0] == '\'' && t[1] == '\'' {
        seq!['\''] + sql_unbody(t.skip(2))
    } else {
        seq![t[0]] + sql_unbody(t.drop_first())
    }
}

proof fn lemma_sql_body_front(c: char, s: Seq<char>)
    ensures
        sql_body(seq![c] + s) == (if c == '\'' {
            seq!['\'', '\'']
        } else {
            seq![c]
        }) + sql_body(s),
    decreases s.len(),
{
    let e = if c == '\'' {
        seq!['\'', '\'']
    } else {
        seq![c]
    };
    if s.len() == 0 {
        assert((seq![c] + s).drop_last() =~= Seq::<char>::empty());
        assert(sql_body(Seq::<char>::empty()) == Seq::<char>::empty());
        assert(sql_body(seq![c] + s) =~= e);
        assert(e + sql_body(s) =~= e);
    } else {
        assert((seq![c] + s).drop_last() =~= seq![c] + s.drop_last());
        lemma_sql_body_front(c, s.drop_last());
        assert((seq![c] + s).last() == s.last());
        let tail = if s.last() == '\'' {
            seq!['\'', '\'']
        } else {
            seq![s.last()]
        };
        assert(sql_body(seq![c] + s) == sql_body(seq![c] + s.drop_last()) + tail);
        assert(sql_body(s) == sql_body(s.drop_last()) + tail);
        assert((e + sql_body(s.drop_last())) + tail =~= e + (sql_body(s.drop_last()) + tail));
    }
}

/// Every quote inside a literal is doubled, so reading the body back gives
/// the text again.
pub proof fn lemma_sql_string_round_trip(s: Seq<char>)
    ensures
        sql_unbody(sql_body(s)) == s,
    decreases s.len(),
{
    if s.len() > 0 {
        let c = s[0];
        let rest = s.drop_first();
        assert(seq![c] + rest =~= s);
        lemma_sql_body_front(c, rest);
        lemma_sql_string_round_trip(rest);
        let b = sql_body(s);
        if c == '\'' {
            assert(b.skip(2) =~= sql_body(rest));
        } else {
            assert(b.drop_first() =~= sql_body(rest));
        }
    } else {
        assert(sql_body(s) =~= Seq::<char>::empty());
    }
}

// ---------- conditions ----------

/// `field = n` when the trimmed value reads as an `i64`.
pub open spec fn eq_i64_cond(field: Seq<char>, value: Seq<char>) -> Option<Seq<char>> {
    if blank(value) {
        None
    } else {
        match parse_signed(trim(value)) {
            Some(n) => Some(field + " = "@ + idec(n)),
            None => None,
        }
    }
}

/// Case-insensitive equality with the trimmed value (ASCII letters).
pub open spec fn eq_text_cond(field: Seq<char>, value: Seq<char>) -> Option<Seq<char>> {
    if blank(value) {
        None
    } else {
        Some(
            "upper(coalesce("@ + field + ", '')) = "@ + sql_quoted(
                trim(value).map_values(|c: char| ascii_upper(c)),
            ),
        )
    }
}

/// The field starts with the trimmed value.
pub open spec fn prefix_cond(field: Seq<char>, value: Seq<char>) -> Option<Seq<char>> {
    if blank(value) {
        None
    } else {
        Some("coalesce("@ + field + ", '') LIKE "@ + sql_quoted(trim(value)) + " || '%'"@)
    }
}

/// The field contains the trimmed value, ignoring ASCII case.
pub open spec fn contains_cond(field: Seq<char>, value: Seq<char>) -> Option<Seq<char>> {
    if blank(value) {
        None
    } else {
        Some(
            "lower(coalesce("@ + field + ", '')) LIKE '%' || "@ + sql_quoted(
                trim(value).map_values(|c: char| ascii_lower(c)),
            ) + " || '%'"@,
        )
    }
}

pub open spec fn opt_push(v: Seq<Seq<char>>, c: Option<Seq<char>>) -> Seq<Seq<char>> {
    match c {
        Some(x) => v.push(x),
        None => v,
    }
}

fn push_cond(conditions: &mut Vec<String>, cond: Option<String>)
    ensures
        views(final(conditions)@) == opt_push(
            views(old(conditions)@),
            match cond {
                Some(c) => Some(c@),
                None => None,
            },
        ),
{
    if let Some(c) = cond {
        let ghost before = views(conditions@);
        let ghost cv = c@;
        conditions.push(c);
        assert(views(conditions@) =~= before.push(cv));
    }
}

fn eq_i64_condition(field: &str, value: &str) -> (r: Option<String>)
    ensures
        match r {
            Some(c) => eq_i64_cond(field@, value@) == Some(c@),
            None => eq_i64_cond(field@, value@) is None,
        },
{
    if is_blank(value) {
        return None;
    }
    let trimmed = trim_str(value);
    match parse_i64(trimmed.as_str()) {
        Some(n) => {
            let mut s = String::from_str(field);
            s.append(" = ");
            let num = i64_to_string(n);
            s.append(num.as_str());
            Some(s)
        },
        None => None,
    }
}

fn eq_text_condition(field: &str, value: &str) -> (r: Option<String>)
    ensures
        match r {
            Some(c) => eq_text_cond(field@, value@) == Some(c@),
            None => eq_text_cond(field@, value@) is None,
        },
{
    if is_blank(value) {
        return None;
    }
    let trimmed = trim_str(value);
    let upper = to_ascii_uppercase(trimmed.as_str());
    let quoted = sql_string(upper.as_str());
    let mut s = String::from_str("upper(coalesce(");
    s.append(field);
    s.append(", '')) = ");
    s.append(quoted.as_str());
    Some(s)
}

fn prefix_condition(field: &str, value: &str) -> (r: Option<String>)
    ensures
        match r {
            Some(c) => prefix_cond(field@, value@) == Some(c@),
            None => prefix_cond(field@, value@) is None,
        },
{
    if is_blank(value) {
        return None;
    }
    let trimmed = trim_str(value);
    let quoted = sql_string(trimmed.as_str());
    let mut s = String::from_str("coalesce(");
    s.append(field);
    s.append(", '') LIKE ");
    s.append(quoted.as_str());
    s.append(" || '%'");
    Some(s)
}

fn contains_condition(field: &str, value: &str) -> (r: Option<String>)
    ensures
        match r {
            Some(c) => contains_cond(field@, value@) == Some(c@),
            None => contains_cond(field@, value@) is None,
        },
{
    if is_blank(value) {
        return None;
    }
    let trimmed = trim_str(value);
    let lower = to_ascii_lowercase(trimmed.as_str());
    let quoted = sql_string(lower.as_str());
    let mut s = String::from_str("lower(coalesce(");
    s.append(field);
    s.append(", '')) LIKE '%' || ");
    s.append(quoted.as_str());
    s.append(" || '%'");
    Some(s)
}

/// Appends `field = n` when the trimmed value reads as an `i64`.
pub fn push_eq_i64(conditions: &mut Vec<String>, field: &str, value: &str)
    ensures
        views(final(conditions)@) == opt_push(views(old(conditions)@), eq_i64_cond(field@, value@)),
{
    let c = eq_i64_condition(field, value);
    push_cond(conditions, c);
}

/// Appends a case-insensitive equality with the trimmed value.
pub fn push_eq_text(conditions: &mut Vec<String>, field: &str, value: &str)
    ensures
        views(final(conditions)@) == opt_push(views(old(conditions)@), eq_text_cond(field@, value@)),
{
    let c = eq_text_condition(field, value);
    push_cond(conditions, c);
}

/// Appends a prefix match on the trimmed value.
pub fn push_prefix(conditions: &mut Vec<String>, field: &str, value: &str)
    ensures
        views(final(conditions)@) == opt_push(views(old(conditions)@), prefix_cond(field@, value@)),
{
    let c = prefix_condition(field, value);
    push_cond(conditions, c);
}

/// Appends a case-insensitive containment of the trimmed value.
pub fn push_contains(conditions: &mut Vec<String>, field: &str, value: &str)
    ensures
        views(final(conditions)@) == opt_push(
            views(old(conditions)@),
            contains_cond(field@, value@),
        ),
{
    let c = contains_condition(field, value);
    push_cond(conditions, c);
}

// ---------- the filter ----------

/// The condition on the search text: the lowercased trimmed text inside
/// the lowercased description, companies, code and trademark.
pub open spec fn text_cond(text: Seq<char>) -> Option<Seq<char>> {
    if blank(text) {
        None
    } else {
        Some(
            "lower(coalesce(description, '') || ' ' || coalesce(sender_label, '') || ' ' ||\n                 coalesce(recipient_label, '') || ' ' || coalesce(product_code, '') || ' ' ||\n                 coalesce(trademark_label, '')) LIKE '%' || "@
                + sql_quoted(trim(text).map_values(|c: char| ascii_lower(c))) + " || '%'"@,
        )
    }
}

/// The conditions of a search, in order: text, year, product code prefix,
/// trademark, description, sender, recipient and EDRPOU containment, then
/// trade, dispatch and origin country equality.
pub open spec fn query_conditions(q: QueryModel) -> Seq<Seq<char>> {
    let f = q.filters;
    let c0 = opt_push(Seq::empty(), text_cond(q.text));
    let c1 = opt_push(c0, eq_i64_cond("year"@, f[0]));
    let c2 = opt_push(c1, prefix_cond("product_code"@, f[1]));
    let c3 = opt_push(c2, contains_cond("trademark_label"@, f[2]));
    let c4 = opt_push(c3, contains_cond("description"@, f[3]));
    let c5 = opt_push(c4, contains_cond("sender_label"@, f[4]));
    let c6 = opt_push(c5, contains_cond("recipient_label"@, f[5]));
    let c7 = opt_push(c6, contains_cond("edrpou_label"@, f[6]));
    let c8 = opt_push(c7, eq_text_cond("trade_key"@, f[7]));
    let c9 = opt_push(c8, eq_text_cond("dispatch_key"@, f[8]));
    opt_push(c9, eq_text_cond("origin_key"@, f[9]))
}

/// The conditions a search puts on the analytics projection.
pub struct DuckFilter {
    pub conditions: Vec<String>,
}

impl DuckFilter {
    pub fn from_query(query: &Query) -> (r: DuckFilter)
        ensures
            views(r.conditions@) == query_conditions(query@),
    {
        let mut conditions: Vec<String> = Vec::new();
        assert(views(conditions@) =~= Seq::<Seq<char>>::empty());
        let text_condition = if is_blank(query.text.as_str()) {
            None
        } else {
            let trimmed = trim_str(query.text.as_str());
            let lower = to_ascii_lowercase(trimmed.as_str());
            let needle = sql_string(lower.as_str());
            let mut s = String::from_str(
                "lower(coalesce(description, '') || ' ' || coalesce(sender_label, '') || ' ' ||\n                 coalesce(recipient_label, '') || ' ' || coalesce(product_code, '') || ' ' ||\n                 coalesce(trademark_label, '')) LIKE '%' || ",
            );
            s.append(needle.as_str());
            s.append(" || '%'");
            Some(s)
        };
        push_cond(&mut conditions, text_condition);
        let filters = &query.filters;
        push_eq_i64(&mut conditions, "year", filters.year.as_str());
        push_prefix(&mut conditions, "product_code", filters.product_code.as_str());
        push_contains(&mut conditions, "trademark_label", filters.trademark.as_str());
        push_contains(&mut conditions, "description", filters.description.as_str());
        push_contains(&mut conditions, "sender_label", filters.sender.as_str());
        push_contains(&mut conditions, "recipient_label", filters.recipient.as_str());
        push_contains(&mut conditions, "edrpou_label", filters.edrpou.as_str());
        push_eq_text(&mut conditions, "trade_key", filters.trade_country.as_str());
        push_eq_text(&mut conditions, "dispatch_key", filters.dispatch_country.as_str());
        push_eq_text(&mut conditions, "origin_key", filters.origin_country.as_str());
        DuckFilter { conditions }
    }

    /// `WHERE` and the conditions joined by `AND`; nothing without
    /// conditions.
    pub fn where_sql(&self) -> (r: String)
        ensures
            r@ == if self.conditions@.len() == 0 {
                Seq::empty()
            } else {
                "WHERE "@ + join(views(self.conditions@), " AND "@)
            },
    {
        if self.conditions.len() == 0 {
            String::new()
        } else {
            let mut s = String::from_str("WHERE ");
            let body = join_strings(&self.conditions, " AND ");
            s.append(body.as_str());
            s
        }
    }

    /// A clause that more conditions can follow: `WHERE`, the conditions
    /// joined by `AND`, and a trailing `AND` when there are some.
    pub fn where_extra_sql(&self) -> (r: String)
        ensures
            r@ == if self.conditions@.len() == 0 {
                "WHERE"@
            } else {
                "WHERE "@ + join(views(self.conditions@), " AND "@) + " AND"@
            },
    {
        if self.conditions.len() == 0 {
            String::from_str("WHERE")
        } else {
            let mut s = String::from_str("WHERE ");
            let body = join_strings(&self.conditions, " AND ");
            s.append(body.as_str());
            s.append(" AND");
            s
        }
    }
}

// ---------- which column each filter restricts ----------

/// The projection column that filter slot `i` restricts, the slots taken in
/// the order of the `Filters` view: year, product code, trademark,
/// description, sender, recipient, EDRPOU, then trade, dispatch and origin
/// country.
pub open spec fn filter_column(i: int) -> Seq<char> {
    if i == 0 {
        "year"@
    } else if i == 1 {
        "product_code"@
    } else if i == 2 {
        "trademark_label"@
    } else if i == 3 {
        "description"@
    } else if i == 4 {
        "sender_label"@
    } else if i == 5 {
        "recipient_label"@
    } else if i == 6 {
        "edrpou_label"@
    } else if i == 7 {
        "trade_key"@
    } else if i == 8 {
        "dispatch_key"@
    } else {
        "origin_key"@
    }
}

/// The condition filter slot `i` with value `v` puts on its own column: the
/// year as a number, the product code as a prefix, trademark, description,
/// companies and EDRPOU by containment, the countries by equality.
pub open spec fn filter_condition(i: int, v: Seq<char>) -> Option<Seq<char>> {
    if i == 0 {
        eq_i64_cond(filter_column(i), v)
    } else if i == 1 {
        prefix_cond(filter_column(i), v)
    } else if i <= 6 {
        contains_cond(filter_column(i), v)
    } else {
        eq_text_cond(filter_column(i), v)
    }
}

/// A search with no text and only filter slot `i` set puts exactly one
/// condition on the projection, on the column of that filter (none when the
/// value gives no condition, such as a year that is not a number).
pub proof fn lemma_single_filter_condition(q: QueryModel, i: int)
    requires
        0 <= i < 10,
        q.filters.len() == 10,
        blank(q.text),
        forall|j: int| 0 <= j < 10 && j != i ==> blank(#[trigger] q.filters[j]),
    ensures
        query_conditions(q) == (match filter_condition(i, q.filters[i]) {
            Some(c) => seq![c],
            None => Seq::<Seq<char>>::empty(),
        }),
{
    let f = q.filters;
    assert(i != 0 ==> blank(f[0]));
    assert(i != 1 ==> blank(f[1]));
    assert(i != 2 ==> blank(f[2]));
    assert(i != 3 ==> blank(f[3]));
    assert(i != 4 ==> blank(f[4]));
    assert(i != 5 ==> blank(f[5]));
    assert(i != 6 ==> blank(f[6]));
    assert(i != 7 ==> blank(f[7]));
    assert(i != 8 ==> blank(f[8]));
    assert(i != 9 ==> blank(f[9]));
    assert(query_conditions(q) =~= (match filter_condition(i, f[i]) {
        Some(c) => seq![c],
        None => Seq::<Seq<char>>::empty(),
    }));
}

/// A search whose only setting is a sender restricts the sender column, and
/// only it.
pub proof fn lemma_sender_filter_restricts_sender(q: Query)
    requires
        blank(q.text@),
        !blank(q.filters.sender@),
        blank(q.filters.year@),
        blank(q.filters.product_code@),
        blank(q.filters.trademark@),
        blank(q.filters.description@),
        blank(q.filters.recipient@),
        blank(q.filters.edrpou@),
        blank(q.filters.trade_country@),
        blank(q.filters.dispatch_country@),
        blank(q.filters.origin_country@),
    ensures
        query_conditions(q@) == seq![contains_cond("sender_label"@, q.filters.sender@).unwrap()],
{
    lemma_single_filter_condition(q@, 4);
}

/// A search whose only setting is a recipient restricts the recipient
/// column, and only it.
pub proof fn lemma_recipient_filter_restricts_recipient(q: Query)
    requires
        blank(q.text@),
        !blank(q.filters.recipient@),
        blank(q.filters.year@),
        blank(q.filters.product_code@),
        blank(q.filters.trademark@),
        blank(q.filters.description@),
        blank(q.filters.sender@),
        blank(q.filters.edrpou@),
        blank(q.filters.trade_country@),
        blank(q.filters.dispatch_country@),
        blank(q.filters.origin_country@),
    ensures
        query_conditions(q@) == seq![contains_cond("recipient_label"@, q.filters.recipient@).unwrap()],
{
    lemma_single_filter_condition(q@, 5);
}

} // verus!
