//! Plain data types shared by search, import, and analytics.

use vstd::prelude::*;
use crate::text::{blank, is_blank, trim, trim_str, join, views, join_strings, chars_of, string_of};
use crate::search::{QueryExpr, ExprModel, expr_empty};

verus! {

/// Filter values; a blank text means the filter is not set.
#[derive(Debug, PartialEq, Eq)]
pub struct Filters {
    pub year: String,
    pub product_code: String,
    pub trademark: String,
    pub description: String,
    pub sender: String,
    pub recipient: String,
    pub edrpou: String,
    pub trade_country: String,
    pub dispatch_country: String,
    pub origin_country: String,
}

/// Number of filter fields.
pub const FILTER_COUNT: usize = 10;

impl View for Filters {
    /// The ten filter texts in a fixed order: year, product code, trademark,
    /// description, sender, recipient, EDRPOU, trade, dispatch, and origin
    /// country.
    type V = Seq<Seq<char>>;

    open spec fn view(&self) -> Seq<Seq<char>> {
        seq![
            self.year@,
            self.product_code@,
            self.trademark@,
            self.description@,
            self.sender@,
            self.recipient@,
            self.edrpou@,
            self.trade_country@,
            self.dispatch_country@,
            self.origin_country@,
        ]
    }
}

/// No filter of `f` is set.
pub open spec fn filters_blank(f: Seq<Seq<char>>) -> bool {
    forall|i: int| #![trigger f[i]] 0 <= i < f.len() ==> blank(f[i])
}

impl Clone for Filters {
    fn clone(&self) -> (r: Self)
        ensures
            r@ == self@,
    {
        Filters {
            year: self.year.clone(),
            product_code: self.product_code.clone(),
            trademark: self.trademark.clone(),
            description: self.description.clone(),
            sender: self.sender.clone(),
            recipient: self.recipient.clone(),
            edrpou: self.edrpou.clone(),
            trade_country: self.trade_country.clone(),
            dispatch_country: self.dispatch_country.clone(),
            origin_country: self.origin_country.clone(),
        }
    }
}

impl Default for Filters {
    fn default() -> (r: Self)
        ensures
            r@ == Seq::new(10, |i: int| Seq::<char>::empty()),
    {
        let r = Filters {
            year: String::new(),
            product_code: String::new(),
            trademark: String::new(),
            description: String::new(),
            sender: String::new(),
            recipient: String::new(),
            edrpou: String::new(),
            trade_country: String::new(),
            dispatch_country: String::new(),
            origin_country: String::new(),
        };
        assert(r@ =~= Seq::new(10, |i: int| Seq::<char>::empty()));
        r
    }
}

impl Filters {
    /// The filter value at position `i` of the view.
    pub fn get(&self, i: usize) -> (r: &String)
        requires
            i < FILTER_COUNT,
        ensures
            r@ == self@[i as int],
    {
        match i {
            0 => &self.year,
            1 => &self.product_code,
            2 => &self.trademark,
            3 => &self.description,
            4 => &self.sender,
            5 => &self.recipient,
            6 => &self.edrpou,
            7 => &self.trade_country,
            8 => &self.dispatch_country,
            _ => &self.origin_country,
        }
    }

    /// No filter is set.
    pub fn is_empty(&self) -> (r: bool)
        ensures
            r == filters_blank(self@),
    {
        let mut i: usize = 0;
        while i < FILTER_COUNT
            invariant
                i <= FILTER_COUNT,
                forall|k: int| 0 <= k < i ==> blank(#[trigger] self@[k]),
            decreases FILTER_COUNT - i,
        {
            if !is_blank(self.get(i).as_str()) {
                return false;
            }
            i += 1;
        }
        true
    }

    /// Unsets every filter.
    pub fn clear(&mut self)
        ensures
            final(self)@ == Seq::new(10, |i: int| Seq::<char>::empty()),
    {
        *self = Filters::default();
    }
}

/// Cleared filters are not set.
pub proof fn lemma_cleared_filters_blank()
    ensures
        filters_blank(Seq::new(10, |i: int| Seq::<char>::empty())),
{
}

/// A search: free text, field filters, and an optional advanced expression.
#[derive(Debug, PartialEq, Eq)]
pub struct Query {
    pub text: String,
    pub filters: Filters,
    pub advanced: Option<QueryExpr>,
}

/// Abstract search.
pub struct QueryModel {
    pub text: Seq<char>,
    pub filters: Seq<Seq<char>>,
    pub advanced: Option<ExprModel>,
}

impl View for Query {
    type V = QueryModel;

    open spec fn view(&self) -> QueryModel {
        QueryModel {
            text: self.text@,
            filters: self.filters@,
            advanced: match self.advanced {
                Some(e) => Some(e@),
                None => None,
            },
        }
    }
}

/// The search constrains nothing: blank text, no filter, and no advanced
/// expression that constrains anything.
pub open spec fn query_empty(q: QueryModel) -> bool {
    &&& blank(q.text)
    &&& filters_blank(q.filters)
    &&& match q.advanced {
        Some(e) => expr_empty(e),
        None => true,
    }
}

impl Clone for Query {
    fn clone(&self) -> (r: Self)
        ensures
            r@ == self@,
    {
        Query {
            text: self.text.clone(),
            filters: self.filters.clone(),
            advanced: match &self.advanced {
                Some(e) => Some(e.clone()),
                None => None,
            },
        }
    }
}

impl Default for Query {
    fn default() -> (r: Self)
        ensures
            r@.text.len() == 0,
            r@.filters == Seq::new(10, |i: int| Seq::<char>::empty()),
            r@.advanced is None,
    {
        Query { text: String::new(), filters: Filters::default(), advanced: None }
    }
}

impl Query {
    /// The search constrains nothing.
    pub fn is_empty(&self) -> (r: bool)
        ensures
            r == query_empty(self@),
    {
        is_blank(self.text.as_str()) && self.filters.is_empty() && match &self.advanced {
            Some(e) => e.is_empty(),
            None => true,
        }
    }
}

/// Analytics run only for a search that constrains something.
pub fn analytics_should_run(q: &Query) -> (r: bool)
    ensures
        r == !query_empty(q@),
{
    !q.is_empty()
}

/// One row prepared for insertion during import.
pub struct ImportRecord {
    pub hash: [u8; 16],
    pub year: Option<i64>,
    pub values: Vec<String>,
    /// Source columns not stored in schema fields: a JSON array of
    /// `[header, value]` pairs.
    pub extra: Option<String>,
}

/// Everything known about one stored row.
pub struct RecordCard {
    pub fields: Vec<(String, String)>,
    pub source_file: String,
    /// Extra source columns this file had beyond the known schema, in file order.
    pub extra: Vec<(String, String)>,
}

/// Quality counters of one imported file.
#[derive(Debug, Default, PartialEq, Eq)]
pub struct ImportQuality {
    pub layout: String,
    pub header_row: u64,
    pub source_columns: u64,
    pub recognized_columns: u64,
    pub extra_columns: u64,
    pub non_empty_cells: u64,
    pub empty_cells: u64,
    pub warnings: Vec<String>,
}

/// The segments of `s` between `'\n'` characters, in order.
pub open spec fn segments(s: Seq<char>) -> Seq<Seq<char>>
    decreases s.len(),
{
    if s.len() == 0 {
        seq![Seq::empty()]
    } else {
        let rest = segments(s.drop_last());
        if s.last() == '\n' {
            rest.push(Seq::empty())
        } else {
            rest.update(rest.len() - 1, rest.last().push(s.last()))
        }
    }
}

/// The trimmed, non-blank lines of a text, in order.
pub open spec fn kept_lines(lines: Seq<Seq<char>>) -> Seq<Seq<char>>
    decreases lines.len(),
{
    if lines.len() == 0 {
        Seq::empty()
    } else if trim(lines.last()).len() == 0 {
        kept_lines(lines.drop_last())
    } else {
        kept_lines(lines.drop_last()).push(trim(lines.last()))
    }
}

proof fn lemma_segments_nonempty(s: Seq<char>)
    ensures
        segments(s).len() >= 1,
    decreases s.len(),
{
    if s.len() > 0 {
        lemma_segments_nonempty(s.drop_last());
    }
}

impl ImportQuality {
    /// The warnings, one per line.
    pub fn warnings_text(&self) -> (r: String)
        ensures
            r@ == join(views(self.warnings@), "\n"@),
    {
        join_strings(&self.warnings, "\n")
    }

    /// The quality with its warnings read back from text: one warning per
    /// non-blank line, trimmed.
    pub fn with_warnings_text(self, warnings: String) -> (r: ImportQuality)
        ensures
            views(r.warnings@) == kept_lines(segments(warnings@)),
            r.layout == self.layout,
            r.header_row == self.header_row,
            r.source_columns == self.source_columns,
            r.recognized_columns == self.recognized_columns,
            r.extra_columns == self.extra_columns,
            r.non_empty_cells == self.non_empty_cells,
            r.empty_cells == self.empty_cells,
    {
        let cs = chars_of(warnings.as_str());
        let mut out: Vec<String> = Vec::new();
        let mut line: Vec<char> = Vec::new();
        let mut i: usize = 0;
        proof {
            lemma_segments_nonempty(cs@.take(0));
            assert(cs@.take(0) =~= Seq::<char>::empty());
        }
        while i < cs.len()
            invariant
                i <= cs@.len(),
                segments(cs@.take(i as int)).len() >= 1,
                line@ == segments(cs@.take(i as int)).last(),
                views(out@) == kept_lines(segments(cs@.take(i as int)).drop_last()),
            decreases cs.len() - i,
        {
            let ghost before = segments(cs@.take(i as int));
            assert(cs@.take(i + 1).drop_last() =~= cs@.take(i as int));
            let c = cs[i];
            if c == '\n' {
                let piece = string_of(line.as_slice());
                let t = trim_str(piece.as_str());
                let ghost old_out = out@;
                if !t.as_str().is_empty() {
                    out.push(t);
                    assert(views(out@) =~= views(old_out).push(trim(line@)));
                }
                line = Vec::new();
                i += 1;
                assert(segments(cs@.take(i as int)) == before.push(Seq::empty()));
                assert(segments(cs@.take(i as int)).drop_last() =~= before);
                assert(before.drop_last().push(before.last()) =~= before);
            } else {
                line.push(c);
                i += 1;
                assert(segments(cs@.take(i as int)).drop_last() =~= before.drop_last());
            }
        }
        assert(cs@.take(cs@.len() as int) =~= cs@);
        let piece = string_of(line.as_slice());
        let t = trim_str(piece.as_str());
        let ghost segs = segments(cs@);
        let ghost old_out = out@;
        if !t.as_str().is_empty() {
            out.push(t);
            assert(views(out@) =~= views(old_out).push(trim(line@)));
        }
        assert(segs.drop_last().push(segs.last()) =~= segs);
        ImportQuality {
            layout: self.layout,
            header_row: self.header_row,
            source_columns: self.source_columns,
            recognized_columns: self.recognized_columns,
            extra_columns: self.extra_columns,
            non_empty_cells: self.non_empty_cells,
            empty_cells: self.empty_cells,
            warnings: out,
        }
    }
}

/// Fields a drill-down click in analytics can filter by.
#[derive(Clone, Copy, Debug, PartialEq, Eq, Structural)]
pub enum AnalyticsFilterField {
    Recipient,
    Sender,
    Edrpou,
    ProductCode,
    Trademark,
    OriginCountry,
    DispatchCountry,
    TradeCountry,
    Description,
}

/// A filter to apply from an analytics row.
#[derive(Clone, Debug, PartialEq, Eq)]
pub struct AnalyticsFilterAction {
    pub field: AnalyticsFilterField,
    pub value: String,
}

#[derive(Clone, Copy, Debug, PartialEq, Eq, Structural)]
pub enum AnalyticsSectionKind {
    Recipients,
    Senders,
    Edrpou,
    ProductCodes,
    Trademarks,
    ProductGroups,
    OriginCountries,
    DispatchCountries,
    TradeCountries,
}

impl Default for AnalyticsSectionKind {
    fn default() -> (r: Self)
        ensures
            r == AnalyticsSectionKind::Recipients,
    {
        AnalyticsSectionKind::Recipients
    }
}

#[derive(Clone, Copy, Debug, PartialEq, Eq, Structural)]
pub enum PriceMetricKind {
    ValuePerNetKg,
    RfvUsdKg,
    RmvNetUsdKg,
    RmvUsdExtraUnit,
    RmvGrossUsdKg,
    MinBaseUsdKg,
}

impl Default for PriceMetricKind {
    fn default() -> (r: Self)
        ensures
            r == PriceMetricKind::ValuePerNetKg,
    {
        PriceMetricKind::ValuePerNetKg
    }
}

/// Analytics category computed independently, so only the visible one runs.
#[derive(Clone, Copy, Debug, PartialEq, Eq, Structural)]
pub enum AnalyticsScope {
    Companies,
    Products,
    Countries,
    Prices,
}

impl Default for AnalyticsScope {
    fn default() -> (r: Self)
        ensures
            r == AnalyticsScope::Companies,
    {
        AnalyticsScope::Companies
    }
}

/// Position of a scope in menu order.
pub open spec fn scope_index(s: AnalyticsScope) -> nat {
    match s {
        AnalyticsScope::Companies => 0,
        AnalyticsScope::Products => 1,
        AnalyticsScope::Countries => 2,
        AnalyticsScope::Prices => 3,
    }
}

impl AnalyticsScope {
    pub fn index(self) -> (r: usize)
        ensures
            r == scope_index(self),
    {
        match self {
            AnalyticsScope::Companies => 0,
            AnalyticsScope::Products => 1,
            AnalyticsScope::Countries => 2,
            AnalyticsScope::Prices => 3,
        }
    }

    /// All scopes in menu order.
    pub fn all() -> (r: [AnalyticsScope; 4])
        ensures
            forall|i: int| 0 <= i < 4 ==> scope_index(#[trigger] r@[i]) == i,
    {
        [
            AnalyticsScope::Companies,
            AnalyticsScope::Products,
            AnalyticsScope::Countries,
            AnalyticsScope::Prices,
        ]
    }
}

/// Dimension for the pivot table (rows or columns).
#[derive(Clone, Copy, Debug, PartialEq, Eq, Structural)]
pub enum PivotDim {
    Recipient,
    Sender,
    Edrpou,
    ProductCode,
    Trademark,
    OriginCountry,
    DispatchCountry,
    TradeCountry,
    Month,
    Year,
}

/// The filter field a pivot dimension maps to; months and years have none.
pub open spec fn dim_filter_field(d: PivotDim) -> Option<AnalyticsFilterField> {
    match d {
        PivotDim::Recipient => Some(AnalyticsFilterField::Recipient),
        PivotDim::Sender => Some(AnalyticsFilterField::Sender),
        PivotDim::Edrpou => Some(AnalyticsFilterField::Edrpou),
        PivotDim::ProductCode => Some(AnalyticsFilterField::ProductCode),
        PivotDim::Trademark => Some(AnalyticsFilterField::Trademark),
        PivotDim::OriginCountry => Some(AnalyticsFilterField::OriginCountry),
        PivotDim::DispatchCountry => Some(AnalyticsFilterField::DispatchCountry),
        PivotDim::TradeCountry => Some(AnalyticsFilterField::TradeCountry),
        PivotDim::Month | PivotDim::Year => None,
    }
}

impl PivotDim {
    /// The filter field this dimension maps to, for drill-down clicks.
    pub fn filter_field(self) -> (r: Option<AnalyticsFilterField>)
        ensures
            r == dim_filter_field(self),
    {
        match self {
            PivotDim::Recipient => Some(AnalyticsFilterField::Recipient),
            PivotDim::Sender => Some(AnalyticsFilterField::Sender),
            PivotDim::Edrpou => Some(AnalyticsFilterField::Edrpou),
            PivotDim::ProductCode => Some(AnalyticsFilterField::ProductCode),
            PivotDim::Trademark => Some(AnalyticsFilterField::Trademark),
            PivotDim::OriginCountry => Some(AnalyticsFilterField::OriginCountry),
            PivotDim::DispatchCountry => Some(AnalyticsFilterField::DispatchCountry),
            PivotDim::TradeCountry => Some(AnalyticsFilterField::TradeCountry),
            PivotDim::Month | PivotDim::Year => None,
        }
    }
}

/// The filter a click on a pivot label applies, if the dimension has one.
pub fn pivot_filter_action(dim: PivotDim, value: String) -> (r: Option<AnalyticsFilterAction>)
    ensures
        match dim_filter_field(dim) {
            Some(f) => r matches Some(a) && a.field == f && a.value == value,
            None => r is None,
        },
{
    match dim.filter_field() {
        Some(field) => Some(AnalyticsFilterAction { field, value }),
        None => None,
    }
}

#[derive(Clone, Copy, Debug, PartialEq, Eq, Structural)]
pub enum PivotMetric {
    Value,
    Rows,
    NetKg,
}

/// How many row and column groups a pivot keeps before folding the rest.
#[derive(Clone, Copy, Debug, PartialEq, Eq, Structural)]
pub struct PivotLimits {
    pub rows: usize,
    pub cols: usize,
}

/// The group sections an analytics scope computes, in order; the overview
/// and the prices scope compute none.
pub open spec fn scope_kinds(scope: Option<AnalyticsScope>) -> Seq<AnalyticsSectionKind> {
    match scope {
        None => Seq::empty(),
        Some(AnalyticsScope::Companies) => seq![
            AnalyticsSectionKind::Edrpou,
            AnalyticsSectionKind::Recipients,
            AnalyticsSectionKind::Senders,
        ],
        Some(AnalyticsScope::Products) => seq![
            AnalyticsSectionKind::ProductCodes,
            AnalyticsSectionKind::Trademarks,
            AnalyticsSectionKind::ProductGroups,
        ],
        Some(AnalyticsScope::Countries) => seq![
            AnalyticsSectionKind::OriginCountries,
            AnalyticsSectionKind::DispatchCountries,
            AnalyticsSectionKind::TradeCountries,
        ],
        Some(AnalyticsScope::Prices) => Seq::empty(),
    }
}

/// The group sections an analytics scope computes.
pub fn scope_section_kinds(scope: Option<AnalyticsScope>) -> (r: Vec<AnalyticsSectionKind>)
    ensures
        r@ == scope_kinds(scope),
{
    let r = match scope {
        None => Vec::new(),
        Some(AnalyticsScope::Companies) => vec![
            AnalyticsSectionKind::Edrpou,
            AnalyticsSectionKind::Recipients,
            AnalyticsSectionKind::Senders,
        ],
        Some(AnalyticsScope::Products) => vec![
            AnalyticsSectionKind::ProductCodes,
            AnalyticsSectionKind::Trademarks,
            AnalyticsSectionKind::ProductGroups,
        ],
        Some(AnalyticsScope::Countries) => vec![
            AnalyticsSectionKind::OriginCountries,
            AnalyticsSectionKind::DispatchCountries,
            AnalyticsSectionKind::TradeCountries,
        ],
        Some(AnalyticsScope::Prices) => Vec::new(),
    };
    assert(r@ =~= scope_kinds(scope));
    r
}

/// The position of the first section of a kind.
pub fn first_section_of_kind(kinds: &[AnalyticsSectionKind], kind: AnalyticsSectionKind) -> (r:
    Option<usize>)
    ensures
        match r {
            Some(i) => i < kinds@.len() && kinds@[i as int] == kind && forall|j: int|
                0 <= j < i ==> kinds@[j] != kind,
            None => forall|j: int| 0 <= j < kinds@.len() ==> kinds@[j] != kind,
        },
{
    let mut i: usize = 0;
    while i < kinds.len()
        invariant
            i <= kinds@.len(),
            forall|j: int| 0 <= j < i ==> kinds@[j] != kind,
        decreases kinds.len() - i,
    {
        if kinds[i] == kind {
            return Some(i);
        }
        i += 1;
    }
    None
}

} // verus!
