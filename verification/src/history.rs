//! Recent and saved searches, and the searches built from the current one.

use vstd::prelude::*;
use crate::text::{str_eq, trim, blank, views, trim_str, is_blank};
use crate::search::{
    QueryExpr, QueryCondition, FieldRef, ConditionValue, exprs_model, expr_model, lemma_group_view,
    opt_view,
};
use crate::db_types::{Query, QueryModel, Filters, query_empty, AnalyticsFilterAction, AnalyticsFilterField};
use crate::stored_queries::{StoredQuery, StoredModel, stored_view};
use crate::number::{parse_signed, parse_i64, idec, i64_to_string};

verus! {

// ---------- equality of searches ----------

fn same_strings(a: &Vec<String>, b: &Vec<String>) -> (r: bool)
    ensures
        r == (views(a@) == views(b@)),
{
    if a.len() != b.len() {
        assert(views(a@).len() != views(b@).len());
        return false;
    }
    let mut i: usize = 0;
    while i < a.len()
        invariant
            i <= a@.len(),
            a@.len() == b@.len(),
            forall|k: int| 0 <= k < i ==> a@[k]@ == b@[k]@,
        decreases a.len() - i,
    {
        if !str_eq(a[i].as_str(), b[i].as_str()) {
            assert(views(a@)[i as int] != views(b@)[i as int]);
            return false;
        }
        i += 1;
    }
    assert(views(a@) =~= views(b@));
    true
}

fn same_opt_string(a: &Option<String>, b: &Option<String>) -> (r: bool)
    ensures
        r == (opt_view(*a) == opt_view(*b)),
{
    match (a, b) {
        (Some(x), Some(y)) => str_eq(x.as_str(), y.as_str()),
        (None, None) => true,
        _ => false,
    }
}

fn same_field(a: &FieldRef, b: &FieldRef) -> (r: bool)
    ensures
        r == (a@ == b@),
{
    match (a, b) {
        (FieldRef::Column(x), FieldRef::Column(y)) => str_eq(x.as_str(), y.as_str()),
        (FieldRef::Extra(x), FieldRef::Extra(y)) => str_eq(x.as_str(), y.as_str()),
        _ => false,
    }
}

fn same_value(a: &ConditionValue, b: &ConditionValue) -> (r: bool)
    ensures
        r == (a@ == b@),
{
    match (a, b) {
        (ConditionValue::NoValue, ConditionValue::NoValue) => true,
        (ConditionValue::Single(x), ConditionValue::Single(y)) => str_eq(x.as_str(), y.as_str()),
        (ConditionValue::List(x), ConditionValue::List(y)) => same_strings(x, y),
        (
            ConditionValue::Range { from: f1, to: t1 },
            ConditionValue::Range { from: f2, to: t2 },
        ) => same_opt_string(f1, f2) && same_opt_string(t1, t2),
        _ => false,
    }
}

fn same_condition(a: &QueryCondition, b: &QueryCondition) -> (r: bool)
    ensures
        r == (a@ == b@),
{
    same_field(&a.field, &b.field) && a.op == b.op && same_value(&a.value, &b.value) && a.negated
        == b.negated
}

fn same_exprs(a: &Vec<QueryExpr>, b: &Vec<QueryExpr>) -> (r: bool)
    ensures
        r == (exprs_model(a@) == exprs_model(b@)),
    decreases a@,
{
    if a.len() != b.len() {
        assert(exprs_model(a@).len() != exprs_model(b@).len());
        return false;
    }
    let mut i: usize = 0;
    while i < a.len()
        invariant
            i <= a@.len(),
            a@.len() == b@.len(),
            forall|k: int| 0 <= k < i ==> expr_model(a@[k]) == expr_model(b@[k]),
        decreases a.len() - i,
    {
        assert(decreases_to!(a@ => a@[i as int]));
        if !same_expr(&a[i], &b[i]) {
            assert(exprs_model(a@)[i as int] != exprs_model(b@)[i as int]);
            return false;
        }
        i += 1;
    }
    assert(exprs_model(a@) =~= exprs_model(b@));
    true
}

fn same_expr(a: &QueryExpr, b: &QueryExpr) -> (r: bool)
    ensures
        r == (a@ == b@),
    decreases a,
{
    match (a, b) {
        (QueryExpr::Group(ga), QueryExpr::Group(gb)) => {
            proof {
                lemma_group_view(*ga);
                lemma_group_view(*gb);
            }
            assert(decreases_to!(*a => ga.children@));
            ga.op == gb.op && ga.negated == gb.negated && same_exprs(&ga.children, &gb.children)
        },
        (QueryExpr::Condition(ca), QueryExpr::Condition(cb)) => same_condition(ca, cb),
        (QueryExpr::Group(ga), QueryExpr::Condition(cb)) => {
            proof {
                lemma_group_view(*ga);
            }
            false
        },
        (QueryExpr::Condition(ca), QueryExpr::Group(gb)) => {
            proof {
                lemma_group_view(*gb);
            }
            false
        },
    }
}

fn same_filters(a: &Filters, b: &Filters) -> (r: bool)
    ensures
        r == (a@ == b@),
{
    let mut i: usize = 0;
    while i < crate::db_types::FILTER_COUNT
        invariant
            i <= crate::db_types::FILTER_COUNT,
            forall|k: int| 0 <= k < i ==> a@[k] == b@[k],
        decreases crate::db_types::FILTER_COUNT - i,
    {
        if !str_eq(a.get(i).as_str(), b.get(i).as_str()) {
            return false;
        }
        i += 1;
    }
    assert(a@ =~= b@);
    true
}

/// Whether two searches are the same: same text, same filters and the same
/// advanced expression.
pub fn same_query(a: &Query, b: &Query) -> (r: bool)
    ensures
        r == (a@ == b@),
{
    str_eq(a.text.as_str(), b.text.as_str()) && same_filters(&a.filters, &b.filters) && match (
        &a.advanced,
        &b.advanced,
    ) {
        (Some(x), Some(y)) => same_expr(x, y),
        (None, None) => true,
        _ => false,
    }
}

// ---------- recent and saved searches ----------

/// At most this many recent searches are kept.
pub const RECENT_QUERY_LIMIT: usize = 12;

/// The entries whose search differs from `q`, in their order.
pub open spec fn drop_query(items: Seq<StoredModel>, q: QueryModel) -> Seq<StoredModel>
    decreases items.len(),
{
    if items.len() == 0 {
        Seq::empty()
    } else {
        let rest = drop_query(items.drop_last(), q);
        if items.last().query == q {
            rest
        } else {
            rest.push(items.last())
        }
    }
}

/// The list after remembering `entry`: an empty search changes nothing;
/// otherwise the entry comes first and any earlier entry with the same search
/// is dropped.
pub open spec fn remembered(items: Seq<StoredModel>, entry: StoredModel) -> Seq<StoredModel> {
    if query_empty(entry.query) {
        items
    } else {
        seq![entry] + drop_query(items, entry.query)
    }
}

/// The first `n` entries.
pub open spec fn capped(items: Seq<StoredModel>, n: nat) -> Seq<StoredModel> {
    if items.len() > n {
        items.take(n as int)
    } else {
        items
    }
}

fn remember(items: &mut Vec<StoredQuery>, entry: StoredQuery)
    ensures
        stored_view(final(items)@) == remembered(stored_view(old(items)@), entry@),
{
    if entry.query.is_empty() {
        return;
    }
    let ghost q = entry@.query;
    let ghost old_view = stored_view(items@);
    let mut out: Vec<StoredQuery> = Vec::new();
    out.push(entry);
    assert(stored_view(out@) =~= seq![entry@]);
    let mut i: usize = 0;
    while i < items.len()
        invariant
            i <= items@.len(),
            old_view == stored_view(items@),
            out@.len() >= 1,
            out@[0]@.query == q,
            stored_view(out@) == seq![entry@] + drop_query(old_view.take(i as int), q),
        decreases items.len() - i,
    {
        assert(old_view.take((i + 1) as int).drop_last() =~= old_view.take(i as int));
        if !same_query(&items[i].query, &out[0].query) {
            let c = items[i].clone();
            let ghost before = stored_view(out@);
            out.push(c);
            assert(stored_view(out@) =~= before.push(c@));
        }
        i += 1;
    }
    assert(old_view.take(old_view.len() as int) =~= old_view);
    *items = out;
}

/// Remembers a search that was run: it goes to the front of the recent
/// list, replacing an earlier entry with the same search, and the list keeps
/// at most `RECENT_QUERY_LIMIT` entries. An empty search is not remembered.
pub fn remember_recent_query(recent: &mut Vec<StoredQuery>, entry: StoredQuery)
    ensures
        stored_view(final(recent)@) == (if query_empty(entry@.query) {
            stored_view(old(recent)@)
        } else {
            capped(remembered(stored_view(old(recent)@), entry@), RECENT_QUERY_LIMIT as nat)
        }),
{
    if entry.query.is_empty() {
        return;
    }
    remember(recent, entry);
    let ghost before = recent@;
    recent.truncate(RECENT_QUERY_LIMIT);
    proof {
        if before.len() > RECENT_QUERY_LIMIT {
            assert(stored_view(recent@) =~= stored_view(before).take(RECENT_QUERY_LIMIT as int));
        } else {
            assert(recent@ =~= before);
        }
    }
}

/// Saves the current search at the front of the saved list, replacing an
/// earlier entry with the same search. An empty search is not saved.
pub fn save_current_query(saved: &mut Vec<StoredQuery>, entry: StoredQuery)
    ensures
        stored_view(final(saved)@) == remembered(stored_view(old(saved)@), entry@),
{
    remember(saved, entry);
}

/// Removes the saved search at `index`; an index past the end changes nothing.
pub fn remove_saved_query(saved: &mut Vec<StoredQuery>, index: usize)
    ensures
        stored_view(final(saved)@) == (if index < old(saved)@.len() {
            stored_view(old(saved)@).remove(index as int)
        } else {
            stored_view(old(saved)@)
        }),
{
    if index < saved.len() {
        let ghost before = saved@;
        saved.remove(index);
        assert(stored_view(saved@) =~= stored_view(before).remove(index as int));
    }
}

proof fn lemma_drop_query_absent(items: Seq<StoredModel>, q: QueryModel, k: int)
    requires
        0 <= k < drop_query(items, q).len(),
    ensures
        drop_query(items, q)[k].query != q,
    decreases items.len(),
{
    if items.len() > 0 {
        let rest = drop_query(items.drop_last(), q);
        if k < rest.len() {
            lemma_drop_query_absent(items.drop_last(), q, k);
        }
    }
}

proof fn lemma_drop_query_none(items: Seq<StoredModel>, q: QueryModel)
    requires
        forall|k: int| 0 <= k < items.len() ==> #[trigger] items[k].query != q,
    ensures
        drop_query(items, q) == items,
    decreases items.len(),
{
    if items.len() > 0 {
        lemma_drop_query_none(items.drop_last(), q);
        assert(items.drop_last().push(items.last()) =~= items);
    }
}

proof fn lemma_drop_query_len(items: Seq<StoredModel>, q: QueryModel)
    ensures
        drop_query(items, q).len() <= items.len(),
    decreases items.len(),
{
    if items.len() > 0 {
        lemma_drop_query_len(items.drop_last(), q);
    }
}

/// Remembering a search puts it first, leaves no other entry with the same
/// search, and keeps the other entries in their order; the recent list never
/// grows past its limit.
pub proof fn lemma_remembered_first(items: Seq<StoredModel>, entry: StoredModel)
    requires
        !query_empty(entry.query),
    ensures
        remembered(items, entry)[0] == entry,
        forall|k: int|
            1 <= k < remembered(items, entry).len() ==> #[trigger] remembered(items, entry)[k].query
                != entry.query,
        remembered(items, entry).len() <= items.len() + 1,
        capped(remembered(items, entry), RECENT_QUERY_LIMIT as nat)[0] == entry,
        capped(remembered(items, entry), RECENT_QUERY_LIMIT as nat).len() <= RECENT_QUERY_LIMIT,
{
    let r = remembered(items, entry);
    let d = drop_query(items, entry.query);
    lemma_drop_query_len(items, entry.query);
    assert forall|k: int| 1 <= k < r.len() implies #[trigger] r[k].query != entry.query by {
        assert(r[k] == d[k - 1]);
        lemma_drop_query_absent(items, entry.query, k - 1);
    }
}

/// Remembering the same search twice in a row leaves the list as remembering
/// it once, for the saved list and for the capped recent list.
pub proof fn lemma_remember_twice(items: Seq<StoredModel>, entry: StoredModel)
    ensures
        remembered(remembered(items, entry), entry) == remembered(items, entry),
        capped(remembered(capped(remembered(items, entry), RECENT_QUERY_LIMIT as nat), entry),
            RECENT_QUERY_LIMIT as nat) == capped(remembered(items, entry), RECENT_QUERY_LIMIT as nat),
{
    if !query_empty(entry.query) {
        let q = entry.query;
        let d = drop_query(items, q);
        let r = remembered(items, entry);
        assert forall|k: int| 0 <= k < d.len() implies #[trigger] d[k].query != q by {
            lemma_drop_query_absent(items, q, k);
        }
        // `r` is the entry followed by entries of other searches.
        assert(r.drop_last().len() + 1 == r.len());
        lemma_drop_query_of_front(entry, d);
        let c = capped(r, RECENT_QUERY_LIMIT as nat);
        if r.len() > RECENT_QUERY_LIMIT {
            let dc = d.take(RECENT_QUERY_LIMIT - 1);
            assert(c =~= seq![entry] + dc);
            assert forall|k: int| 0 <= k < dc.len() implies #[trigger] dc[k].query != q by {
                assert(dc[k] == d[k]);
            }
            lemma_drop_query_of_front(entry, dc);
            assert(remembered(c, entry) =~= c);
        }
    }
}

proof fn lemma_drop_query_of_front(entry: StoredModel, d: Seq<StoredModel>)
    requires
        forall|k: int| 0 <= k < d.len() ==> #[trigger] d[k].query != entry.query,
    ensures
        drop_query(seq![entry] + d, entry.query) == d,
    decreases d.len(),
{
    let q = entry.query;
    if d.len() == 0 {
        let s = seq![entry] + d;
        assert(s.drop_last() =~= Seq::<StoredModel>::empty());
        assert(s.last() == entry);
        assert(drop_query(s.drop_last(), q) =~= Seq::<StoredModel>::empty());
    } else {
        let s = seq![entry] + d;
        assert(s.drop_last() =~= seq![entry] + d.drop_last());
        lemma_drop_query_of_front(entry, d.drop_last());
        assert(s.last() == d.last());
        assert(d[d.len() - 1].query != q);
        assert(drop_query(s.drop_last(), q) == d.drop_last());
        assert(d.drop_last().push(d.last()) =~= d);
    }
}

// ---------- searches built from the current one ----------

/// The search a comparison runs: the current search with its text replaced
/// by the trimmed comparison text and its year filter replaced by the
/// trimmed comparison year, each only when not blank.
pub open spec fn comparison(active: QueryModel, text: Seq<char>, year: Seq<char>) -> QueryModel {
    QueryModel {
        text: if blank(text) {
            active.text
        } else {
            trim(text)
        },
        filters: if blank(year) {
            active.filters
        } else {
            active.filters.update(0, trim(year))
        },
        advanced: active.advanced,
    }
}

/// Builds the search that a comparison runs against the current one.
pub fn comparison_query(active: &Query, compare_text: &str, compare_year: &str) -> (r: Query)
    ensures
        r@ == comparison(active@, compare_text@, compare_year@),
{
    let mut q = active.clone();
    if !is_blank(compare_text) {
        q.text = trim_str(compare_text);
    }
    if !is_blank(compare_year) {
        q.filters.year = trim_str(compare_year);
        assert(q.filters@ =~= active@.filters.update(0, trim(compare_year@)));
    }
    q
}

/// Position of an analytics filter field in the filters' view.
pub open spec fn filter_slot(f: AnalyticsFilterField) -> int {
    match f {
        AnalyticsFilterField::Recipient => 5,
        AnalyticsFilterField::Sender => 4,
        AnalyticsFilterField::Edrpou => 6,
        AnalyticsFilterField::ProductCode => 1,
        AnalyticsFilterField::OriginCountry => 9,
        AnalyticsFilterField::DispatchCountry => 8,
        AnalyticsFilterField::TradeCountry => 7,
        AnalyticsFilterField::Trademark => 2,
        AnalyticsFilterField::Description => 3,
    }
}

/// Sets the filter named by an analytics drill-down to its value; the other
/// filters stay as they were.
pub fn apply_analytics_filter(filters: &mut Filters, action: AnalyticsFilterAction)
    ensures
        final(filters)@ == old(filters)@.update(filter_slot(action.field), action.value@),
{
    match action.field {
        AnalyticsFilterField::Recipient => filters.recipient = action.value,
        AnalyticsFilterField::Sender => filters.sender = action.value,
        AnalyticsFilterField::Edrpou => filters.edrpou = action.value,
        AnalyticsFilterField::ProductCode => filters.product_code = action.value,
        AnalyticsFilterField::OriginCountry => filters.origin_country = action.value,
        AnalyticsFilterField::DispatchCountry => filters.dispatch_country = action.value,
        AnalyticsFilterField::TradeCountry => filters.trade_country = action.value,
        AnalyticsFilterField::Trademark => filters.trademark = action.value,
        AnalyticsFilterField::Description => filters.description = action.value,
    }
    assert(filters@ =~= old(filters)@.update(filter_slot(action.field), action.value@));
}

/// A quick filter from a result row's menu: the search text and every
/// filter are cleared, then the one filter is set to the row's value.
pub fn quick_filter(query_text: &mut String, filters: &mut Filters, field: AnalyticsFilterField, value: String)
    ensures
        final(query_text)@.len() == 0,
        final(filters)@ == Seq::new(10, |i: int| Seq::<char>::empty()).update(filter_slot(field), value@),
{
    *query_text = String::new();
    filters.clear();
    apply_analytics_filter(filters, AnalyticsFilterAction { field, value });
}

/// std's `i32::from_str` on the trimmed text of a year filter.
pub open spec fn year_value(s: Seq<char>) -> Option<int> {
    match parse_signed(trim(s)) {
        Some(v) => if -0x8000_0000 <= v <= 0x7fff_ffff {
            Some(v)
        } else {
            None
        },
        None => None,
    }
}

/// The "previous year" button of the comparison: the comparison year
/// becomes the year before the year filter of the search shown (kept when
/// that filter is not a number), and a blank comparison text takes the
/// search's text.
pub fn previous_year_comparison(active: &Query, compare_text: &mut String, compare_year: &mut String)
    requires
        year_value(active@.filters[0]) != Some(-0x8000_0000int),
    ensures
        final(compare_year)@ == (match year_value(active@.filters[0]) {
            Some(y) => idec(y - 1),
            None => old(compare_year)@,
        }),
        final(compare_text)@ == (if blank(old(compare_text)@) {
            active@.text
        } else {
            old(compare_text)@
        }),
{
    let year_text = trim_str(active.filters.year.as_str());
    match parse_i64(year_text.as_str()) {
        Some(y) => {
            if -0x8000_0000 <= y && y <= 0x7fff_ffff {
                *compare_year = i64_to_string(y - 1);
            }
        },
        None => {},
    }
    if is_blank(compare_text.as_str()) {
        *compare_text = active.text.clone();
    }
}

} // verus!
