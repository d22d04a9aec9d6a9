//! The search session of the desktop interface: which result page is asked
//! for, which analytics parts are requested, and how replies from the
//! background workers are matched to the search that asked for them.
//!
//! Every request carries the session's search generation. A reply that
//! carries another generation belongs to a search that has since been
//! replaced and is ignored.

use vstd::prelude::*;
use crate::db_types::{AnalyticsScope, AnalyticsSectionKind, PivotDim, PivotMetric, Query, QueryModel, query_empty};
use crate::guided::{GuidedQuestionAction, ActionModel};
use crate::history::same_query;
use crate::text::{blank, trim, is_blank, trim_str};
use crate::guided::{AnalyticsView, ANALYTICS_VIEW_COUNT, all_views, view_scope, view_of_scope};
use crate::selection::{RowSelection, SelectionModel, rows_view};

verus! {

/// A result page to fetch, tagged with the search generation.
#[derive(Clone, Copy, Debug, PartialEq, Eq, Structural)]
pub struct SearchRequest {
    pub page: u64,
    pub generation: u64,
}

/// A request for analytics of the current search.
#[derive(Clone, Copy, Debug, PartialEq, Eq, Structural)]
pub enum AnalyticsRequest {
    /// The overview and months (no scope) or the sections of one scope.
    Analytics(Option<AnalyticsScope>),
    /// The pivot table.
    Pivot,
}

/// What to do with an analytics reply.
#[derive(Clone, Copy, Debug, PartialEq, Eq, Structural)]
pub enum AnalyticsMerge {
    /// The reply belongs to an older search: drop it.
    Stale,
    /// Keep the analytics already shown and take the overview, the months and
    /// the sections of the reply's scope from the reply.
    Merge,
    /// Replace the analytics shown by the reply.
    Replace,
}

/// The full list of one analytics section, opened in its own window.
#[derive(Clone, Copy, Debug, PartialEq, Eq, Structural)]
pub struct GroupExplorer {
    pub kind: AnalyticsSectionKind,
    /// The search generation the list was asked for.
    pub generation: u64,
    pub loading: bool,
}

/// Paging, reply bookkeeping and analytics progress of the current search.
pub struct SearchSession {
    page: u64,
    search_gen: u64,
    search_in_flight: bool,
    count_in_flight: bool,
    page_has_next: bool,
    total: Option<u64>,
    last_search_ms: Option<u64>,
    row_ids: Vec<i64>,
    rows: Vec<Vec<String>>,
    selection: RowSelection,
    analytics_gen: u64,
    has_analytics: bool,
    analytics_loaded: Vec<bool>,
    analytics_loading: bool,
    profile_gen: u64,
    profile_loading: bool,
    compare_gen: u64,
    compare_loading: bool,
    underpricing_gen: u64,
    underpricing_loading: bool,
    explorer: Option<GroupExplorer>,
}

/// Abstract session.
pub struct SessionModel {
    pub page: u64,
    pub search_gen: u64,
    pub search_in_flight: bool,
    pub count_in_flight: bool,
    pub page_has_next: bool,
    pub total: Option<u64>,
    pub last_search_ms: Option<u64>,
    pub row_ids: Seq<i64>,
    pub rows: Seq<Seq<Seq<char>>>,
    pub selection: SelectionModel,
    pub analytics_gen: u64,
    pub has_analytics: bool,
    /// One flag per analytics sub-tab, in display order.
    pub loaded: Seq<bool>,
    pub analytics_loading: bool,
    /// Company profile requests and whether one is pending.
    pub profile_gen: u64,
    pub profile_loading: bool,
    /// Comparison requests and whether one is pending.
    pub compare_gen: u64,
    pub compare_loading: bool,
    /// Underpricing scans and whether one is pending.
    pub underpricing_gen: u64,
    pub underpricing_loading: bool,
    /// The open section list, if any.
    pub explorer: Option<GroupExplorer>,
}

impl View for SearchSession {
    type V = SessionModel;

    closed spec fn view(&self) -> SessionModel {
        SessionModel {
            page: self.page,
            search_gen: self.search_gen,
            search_in_flight: self.search_in_flight,
            count_in_flight: self.count_in_flight,
            page_has_next: self.page_has_next,
            total: self.total,
            last_search_ms: self.last_search_ms,
            row_ids: self.row_ids@,
            rows: rows_view(self.rows@),
            selection: self.selection@,
            analytics_gen: self.analytics_gen,
            has_analytics: self.has_analytics,
            loaded: self.analytics_loaded@,
            analytics_loading: self.analytics_loading,
            profile_gen: self.profile_gen,
            profile_loading: self.profile_loading,
            compare_gen: self.compare_gen,
            compare_loading: self.compare_loading,
            underpricing_gen: self.underpricing_gen,
            underpricing_loading: self.underpricing_loading,
            explorer: self.explorer,
        }
    }
}

/// No analytics sub-tab loaded.
pub open spec fn none_loaded() -> Seq<bool> {
    Seq::new(ANALYTICS_VIEW_COUNT as nat, |i: int| false)
}

/// Position of a sub-tab in display order.
pub open spec fn view_pos(v: AnalyticsView) -> int {
    match v {
        AnalyticsView::Overview => 0,
        AnalyticsView::Companies => 1,
        AnalyticsView::Products => 2,
        AnalyticsView::Countries => 3,
        AnalyticsView::Prices => 4,
        AnalyticsView::Pivot => 5,
        AnalyticsView::Report => 6,
        AnalyticsView::Compare => 7,
    }
}

/// Position of the sub-tab that shows a scope.
pub open spec fn scope_pos(s: Option<AnalyticsScope>) -> int {
    view_pos(view_of_scope(s))
}

/// The state of a fresh session: first page, nothing in flight, nothing loaded.
pub open spec fn initial_session() -> SessionModel {
    SessionModel {
        page: 0,
        search_gen: 0,
        search_in_flight: false,
        count_in_flight: false,
        page_has_next: false,
        total: None,
        last_search_ms: None,
        row_ids: Seq::empty(),
        rows: Seq::empty(),
        selection: SelectionModel { selected: Set::empty(), anchor: None },
        analytics_gen: 0,
        has_analytics: false,
        loaded: none_loaded(),
        analytics_loading: false,
        profile_gen: 0,
        profile_loading: false,
        compare_gen: 0,
        compare_loading: false,
        underpricing_gen: 0,
        underpricing_loading: false,
        explorer: None,
    }
}

/// The next generation of a counter that wraps at the top of its range.
pub open spec fn wrapped_next(g: u64) -> u64 {
    if g == u64::MAX {
        0
    } else {
        (g + 1) as u64
    }
}

/// A new search: the next generation, its first page (or the same page),
/// result and count pending, and every analytics part dropped: the section
/// list is closed, a pending comparison is dropped, and a pending
/// underpricing scan is made stale.
pub open spec fn started(s: SessionModel, reset_page: bool) -> SessionModel {
    SessionModel {
        page: if reset_page {
            0
        } else {
            s.page
        },
        search_gen: (s.search_gen + 1) as u64,
        search_in_flight: true,
        count_in_flight: true,
        page_has_next: false,
        total: None,
        last_search_ms: None,
        has_analytics: false,
        loaded: none_loaded(),
        analytics_loading: false,
        explorer: None,
        compare_loading: false,
        underpricing_loading: false,
        underpricing_gen: wrapped_next(s.underpricing_gen),
        ..s
    }
}

/// Another page of the current search, under a new generation.
pub open spec fn paged(s: SessionModel, page: u64) -> SessionModel {
    SessionModel {
        page,
        search_gen: (s.search_gen + 1) as u64,
        search_in_flight: true,
        count_in_flight: true,
        page_has_next: false,
        total: None,
        last_search_ms: None,
        ..s
    }
}

/// A result page arrived. An empty first page settles the count at zero.
/// The selection is dropped.
pub open spec fn page_received(
    s: SessionModel,
    generation: u64,
    row_ids: Seq<i64>,
    rows: Seq<Seq<Seq<char>>>,
    has_next: bool,
    ms: u64,
) -> SessionModel {
    if generation != s.search_gen {
        s
    } else {
        let empty_first = s.page == 0 && rows.len() == 0;
        SessionModel {
            row_ids,
            rows,
            page_has_next: has_next,
            total: if empty_first {
                Some(0u64)
            } else {
                s.total
            },
            count_in_flight: if empty_first {
                false
            } else {
                s.count_in_flight
            },
            last_search_ms: Some(ms),
            search_in_flight: false,
            selection: SelectionModel { selected: Set::empty(), anchor: None },
            ..s
        }
    }
}

/// The row count of the search arrived.
pub open spec fn count_received(s: SessionModel, generation: u64, total: u64) -> SessionModel {
    if generation != s.search_gen {
        s
    } else {
        SessionModel { total: Some(total), count_in_flight: false, ..s }
    }
}

/// A request failed: for the current search nothing is in flight any more,
/// and a section list asked under that generation stops loading.
pub open spec fn error_received(s: SessionModel, generation: u64) -> SessionModel {
    let s1 = if generation != s.search_gen {
        s
    } else {
        SessionModel {
            search_in_flight: false,
            count_in_flight: false,
            analytics_loading: false,
            ..s
        }
    };
    SessionModel { explorer: explorer_failed(s.explorer, generation), ..s1 }
}

/// The section list after a failure of generation `generation`.
pub open spec fn explorer_failed(e: Option<GroupExplorer>, generation: u64) -> Option<GroupExplorer> {
    match e {
        Some(x) => if x.generation == generation {
            Some(GroupExplorer { loading: false, ..x })
        } else {
            Some(x)
        },
        None => None,
    }
}

/// A profile was asked for: pending under the next generation.
pub open spec fn profile_opened(s: SessionModel) -> SessionModel {
    SessionModel { profile_gen: (s.profile_gen + 1) as u64, profile_loading: true, ..s }
}

/// The profile was closed: nothing pending, and its replies are stale.
pub open spec fn profile_closed(s: SessionModel) -> SessionModel {
    SessionModel { profile_gen: (s.profile_gen + 1) as u64, profile_loading: false, ..s }
}

/// A profile arrived.
pub open spec fn profile_received(s: SessionModel, generation: u64) -> SessionModel {
    if generation != s.profile_gen {
        s
    } else {
        SessionModel { profile_loading: false, ..s }
    }
}

/// A comparison was asked for.
pub open spec fn compare_requested(s: SessionModel) -> SessionModel {
    SessionModel { compare_gen: wrapped_next(s.compare_gen), compare_loading: true, ..s }
}

/// A comparison result or error arrived.
pub open spec fn compare_received(s: SessionModel, generation: u64) -> SessionModel {
    if generation != s.compare_gen {
        s
    } else {
        SessionModel { compare_loading: false, ..s }
    }
}

/// An underpricing scan was asked for.
pub open spec fn underpricing_requested(s: SessionModel) -> SessionModel {
    SessionModel {
        underpricing_gen: wrapped_next(s.underpricing_gen),
        underpricing_loading: true,
        ..s
    }
}

/// An underpricing scan arrived.
pub open spec fn underpricing_received(s: SessionModel, generation: u64) -> SessionModel {
    if generation != s.underpricing_gen {
        s
    } else {
        SessionModel { underpricing_loading: false, ..s }
    }
}

/// The full list of a section was asked for, under the current generation.
pub open spec fn explorer_opened(s: SessionModel, kind: AnalyticsSectionKind) -> SessionModel {
    SessionModel {
        explorer: Some(GroupExplorer { kind, generation: s.search_gen, loading: true }),
        ..s
    }
}

/// Whether a section list reply matches the open list.
pub open spec fn section_matches(s: SessionModel, generation: u64, kind: AnalyticsSectionKind) -> bool {
    s.explorer matches Some(x) && x.generation == generation && x.kind == kind
}

/// A section list arrived.
pub open spec fn section_received(s: SessionModel, generation: u64, kind: AnalyticsSectionKind) -> SessionModel {
    if section_matches(s, generation, kind) {
        SessionModel { explorer: Some(GroupExplorer { loading: false, ..s.explorer.unwrap() }), ..s }
    } else {
        s
    }
}

/// Whether an analytics reply of the current search adds to the analytics
/// already shown (same generation) or replaces them.
pub open spec fn merge_kind(s: SessionModel, generation: u64) -> AnalyticsMerge {
    if generation != s.search_gen {
        AnalyticsMerge::Stale
    } else if s.has_analytics && s.analytics_gen == generation {
        AnalyticsMerge::Merge
    } else {
        AnalyticsMerge::Replace
    }
}

/// An analytics reply for `scope` arrived: on replacement every sub-tab
/// counts as not loaded, then the sub-tab of the scope is loaded.
pub open spec fn analytics_received(
    s: SessionModel,
    generation: u64,
    scope: Option<AnalyticsScope>,
) -> SessionModel {
    match merge_kind(s, generation) {
        AnalyticsMerge::Stale => s,
        AnalyticsMerge::Merge => SessionModel {
            analytics_gen: generation,
            loaded: s.loaded.update(scope_pos(scope), true),
            analytics_loading: false,
            ..s
        },
        AnalyticsMerge::Replace => SessionModel {
            has_analytics: true,
            analytics_gen: generation,
            loaded: none_loaded().update(scope_pos(scope), true),
            analytics_loading: false,
            ..s
        },
    }
}

/// A pivot table of the current search arrived.
pub open spec fn pivot_received(s: SessionModel, generation: u64) -> SessionModel {
    if generation != s.search_gen {
        s
    } else {
        SessionModel {
            analytics_gen: generation,
            loaded: s.loaded.update(view_pos(AnalyticsView::Pivot), true),
            analytics_loading: false,
            ..s
        }
    }
}

/// The database opened with `total_rows` rows: an empty database shows an
/// empty result at once; otherwise the first search starts.
pub open spec fn startup_received(s: SessionModel, total_rows: u64) -> SessionModel {
    if total_rows == 0 {
        SessionModel { total: Some(0u64), rows: Seq::empty(), row_ids: Seq::empty(), ..s }
    } else {
        started(s, true)
    }
}

/// The database could not be opened: nothing is in flight.
pub open spec fn startup_failed_spec(s: SessionModel) -> SessionModel {
    SessionModel { search_in_flight: false, count_in_flight: false, ..s }
}

/// The analytics shown belong to the current search.
pub open spec fn analytics_current(s: SessionModel) -> bool {
    s.has_analytics && s.analytics_gen == s.search_gen
}

/// The report can be drawn: the analytics of the current search are shown
/// and the company, product, country and price sections have arrived.
pub open spec fn report_ready_spec(s: SessionModel) -> bool {
    &&& analytics_current(s)
    &&& s.loaded[view_pos(AnalyticsView::Companies)]
    &&& s.loaded[view_pos(AnalyticsView::Products)]
    &&& s.loaded[view_pos(AnalyticsView::Countries)]
    &&& s.loaded[view_pos(AnalyticsView::Prices)]
}

/// The sub-tab already holds data of the current search.
pub open spec fn view_loaded(s: SessionModel, v: AnalyticsView) -> bool {
    s.analytics_gen == s.search_gen && s.loaded[view_pos(v)]
}

/// The four section scopes in order.
pub open spec fn all_scopes() -> Seq<AnalyticsScope> {
    seq![
        AnalyticsScope::Companies,
        AnalyticsScope::Products,
        AnalyticsScope::Countries,
        AnalyticsScope::Prices,
    ]
}

/// The scopes among the first `n` whose sub-tab still lacks data.
pub open spec fn missing_scopes(s: SessionModel, n: int) -> Seq<AnalyticsRequest>
    decreases n,
{
    if n <= 0 {
        Seq::empty()
    } else {
        let rest = missing_scopes(s, n - 1);
        let sc = all_scopes()[n - 1];
        if view_loaded(s, view_of_scope(Some(sc))) {
            rest
        } else {
            rest.push(AnalyticsRequest::Analytics(Some(sc)))
        }
    }
}

/// The overview request, when the analytics shown are missing or belong to
/// an older search.
pub open spec fn base_request(s: SessionModel) -> Seq<AnalyticsRequest> {
    if analytics_current(s) {
        Seq::empty()
    } else {
        seq![AnalyticsRequest::Analytics(None)]
    }
}

/// What the report needs: the overview if missing, then each scope whose
/// sections have not arrived.
pub open spec fn report_requests(s: SessionModel) -> Seq<AnalyticsRequest> {
    base_request(s) + missing_scopes(s, 4)
}

/// The requests that opening sub-tab `v` sends. Nothing is asked for an
/// empty search.
pub open spec fn analytics_requests(s: SessionModel, v: AnalyticsView, query_empty: bool) -> Seq<
    AnalyticsRequest,
> {
    if query_empty {
        Seq::empty()
    } else {
        match v {
            AnalyticsView::Report => report_requests(s),
            AnalyticsView::Compare => base_request(s),
            AnalyticsView::Pivot => base_request(s).push(AnalyticsRequest::Pivot),
            _ => if view_loaded(s, v) {
                Seq::empty()
            } else {
                seq![AnalyticsRequest::Analytics(view_scope(v))]
            },
        }
    }
}

/// The session after sending `reqs`: loading while anything is pending, and
/// a pivot request drops the pivot shown.
pub open spec fn requested(s: SessionModel, reqs: Seq<AnalyticsRequest>) -> SessionModel {
    SessionModel {
        analytics_loading: s.analytics_loading || reqs.len() > 0,
        loaded: if reqs.contains(AnalyticsRequest::Pivot) {
            s.loaded.update(view_pos(AnalyticsView::Pivot), false)
        } else {
            s.loaded
        },
        ..s
    }
}

/// Number of pages the pager offers: from the row count when it is known
/// (at least one), else one past the current page, or two past it when the
/// finished page reported a next one.
pub open spec fn page_count_spec(s: SessionModel, page_size: u64) -> int {
    match s.total {
        Some(t) => {
            let pages = (t + page_size - 1) / (page_size as int);
            if pages < 1 {
                1
            } else {
                pages
            }
        },
        None => if !s.search_in_flight && s.page_has_next {
            s.page + 2
        } else {
            s.page + 1
        },
    }
}

/// The well-formedness of a session: one loaded flag per sub-tab.
pub open spec fn session_wf(s: SessionModel) -> bool {
    s.loaded.len() == ANALYTICS_VIEW_COUNT
}

fn unloaded_flags() -> (r: Vec<bool>)
    ensures
        r@ == none_loaded(),
{
    let mut r: Vec<bool> = Vec::new();
    let mut i: usize = 0;
    while i < ANALYTICS_VIEW_COUNT
        invariant
            i <= ANALYTICS_VIEW_COUNT,
            r@ == Seq::new(i as nat, |k: int| false),
        decreases ANALYTICS_VIEW_COUNT - i,
    {
        r.push(false);
        i += 1;
        assert(r@ =~= Seq::new(i as nat, |k: int| false));
    }
    r
}

fn with_flag(flags: &Vec<bool>, i: usize, b: bool) -> (r: Vec<bool>)
    requires
        i < flags@.len(),
    ensures
        r@ == flags@.update(i as int, b),
{
    let mut r: Vec<bool> = Vec::new();
    let mut k: usize = 0;
    while k < flags.len()
        invariant
            k <= flags@.len(),
            i < flags@.len(),
            r@ == flags@.update(i as int, b).take(k as int),
        decreases flags.len() - k,
    {
        if k == i {
            r.push(b);
        } else {
            r.push(flags[k]);
        }
        k += 1;
        assert(r@ =~= flags@.update(i as int, b).take(k as int));
    }
    assert(r@ =~= flags@.update(i as int, b));
    r
}

proof fn lemma_view_pos(v: AnalyticsView)
    ensures
        0 <= view_pos(v) < ANALYTICS_VIEW_COUNT,
        all_views()[view_pos(v)] == v,
{
}

impl SearchSession {
    /// One loaded flag per analytics sub-tab.
    pub closed spec fn wf(&self) -> bool {
        self.analytics_loaded@.len() == ANALYTICS_VIEW_COUNT
    }

    /// A well-formed session has a well-formed model.
    pub proof fn lemma_wf(&self)
        requires
            self.wf(),
        ensures
            session_wf(self@),
    {
    }

    /// A session before the first search.
    pub fn new() -> (r: SearchSession)
        ensures
            r.wf(),
            r@ == initial_session(),
    {
        let r = SearchSession {
            page: 0,
            search_gen: 0,
            search_in_flight: false,
            count_in_flight: false,
            page_has_next: false,
            total: None,
            last_search_ms: None,
            row_ids: Vec::new(),
            rows: Vec::new(),
            selection: RowSelection::new(),
            analytics_gen: 0,
            has_analytics: false,
            analytics_loaded: unloaded_flags(),
            analytics_loading: false,
            profile_gen: 0,
            profile_loading: false,
            compare_gen: 0,
            compare_loading: false,
            underpricing_gen: 0,
            underpricing_loading: false,
            explorer: None,
        };
        assert(r@.rows =~= Seq::<Seq<Seq<char>>>::empty());
        assert(r@.row_ids =~= Seq::<i64>::empty());
        r
    }

    pub fn page(&self) -> (r: u64)
        ensures
            r == self@.page,
    {
        self.page
    }

    pub fn search_gen(&self) -> (r: u64)
        ensures
            r == self@.search_gen,
    {
        self.search_gen
    }

    pub fn total(&self) -> (r: Option<u64>)
        ensures
            r == self@.total,
    {
        self.total
    }

    pub fn search_in_flight(&self) -> (r: bool)
        ensures
            r == self@.search_in_flight,
    {
        self.search_in_flight
    }

    pub fn count_in_flight(&self) -> (r: bool)
        ensures
            r == self@.count_in_flight,
    {
        self.count_in_flight
    }

    pub fn page_has_next(&self) -> (r: bool)
        ensures
            r == self@.page_has_next,
    {
        self.page_has_next
    }

    pub fn last_search_ms(&self) -> (r: Option<u64>)
        ensures
            r == self@.last_search_ms,
    {
        self.last_search_ms
    }

    pub fn analytics_loading(&self) -> (r: bool)
        ensures
            r == self@.analytics_loading,
    {
        self.analytics_loading
    }

    /// The rows of the page shown.
    pub fn rows(&self) -> (r: &Vec<Vec<String>>)
        ensures
            rows_view(r@) == self@.rows,
    {
        &self.rows
    }

    /// The selection in the page shown.
    pub fn selection(&self) -> (r: &RowSelection)
        ensures
            r@ == self@.selection,
    {
        &self.selection
    }

    /// Whether sub-tab `v` holds data of the current search.
    pub fn is_loaded(&self, v: AnalyticsView) -> (r: bool)
        requires
            self.wf(),
        ensures
            r == view_loaded(self@, v),
    {
        let i = v.index();
        proof {
            lemma_view_pos(v);
        }
        self.analytics_gen == self.search_gen && self.analytics_loaded[i]
    }

    /// The record id behind a row of the page shown.
    pub fn row_id(&self, row_index: usize) -> (r: Option<i64>)
        ensures
            r == (if row_index < self@.row_ids.len() {
                Some(self@.row_ids[row_index as int])
            } else {
                None::<i64>
            }),
    {
        if row_index < self.row_ids.len() {
            Some(self.row_ids[row_index])
        } else {
            None
        }
    }

    /// Applies a click on a row of the page shown.
    pub fn click_row(&mut self, i: usize, keys: crate::selection::ClickKeys)
        requires
            old(self).wf(),
        ensures
            final(self).wf(),
            final(self)@ == (SessionModel {
                selection: crate::selection::clicked(old(self)@.selection, i, keys),
                ..old(self)@
            }),
    {
        self.selection.click(i, keys);
    }

    /// Takes the opened database's row count; returns the first search to
    /// send, if one starts.
    pub fn receive_startup(&mut self, total_rows: u64) -> (r: Option<SearchRequest>)
        requires
            old(self).wf(),
            old(self)@.search_gen < u64::MAX,
        ensures
            final(self).wf(),
            final(self)@ == startup_received(old(self)@, total_rows),
            r == (if total_rows == 0 {
                None::<SearchRequest>
            } else {
                Some(SearchRequest { page: 0, generation: final(self)@.search_gen })
            }),
    {
        if total_rows == 0 {
            self.total = Some(0);
            self.rows = Vec::new();
            self.row_ids = Vec::new();
            assert(self@.rows =~= Seq::<Seq<Seq<char>>>::empty());
            assert(self@.row_ids =~= Seq::<i64>::empty());
            None
        } else {
            Some(self.start_search(true))
        }
    }

    /// The database could not be opened.
    pub fn startup_failed(&mut self)
        requires
            old(self).wf(),
        ensures
            final(self).wf(),
            final(self)@ == startup_failed_spec(old(self)@),
    {
        self.search_in_flight = false;
        self.count_in_flight = false;
    }

    /// Starts a new search and returns the page request to send.
    pub fn start_search(&mut self, reset_page: bool) -> (r: SearchRequest)
        requires
            old(self).wf(),
            old(self)@.search_gen < u64::MAX,
        ensures
            final(self).wf(),
            final(self)@ == started(old(self)@, reset_page),
            r == (SearchRequest { page: final(self)@.page, generation: final(self)@.search_gen }),
    {
        if reset_page {
            self.page = 0;
        }
        self.search_gen = self.search_gen + 1;
        self.search_in_flight = true;
        self.count_in_flight = true;
        self.page_has_next = false;
        self.total = None;
        self.last_search_ms = None;
        self.has_analytics = false;
        self.analytics_loaded = unloaded_flags();
        self.analytics_loading = false;
        self.explorer = None;
        self.compare_loading = false;
        self.underpricing_loading = false;
        self.underpricing_gen = self.underpricing_gen.wrapping_add(1);
        SearchRequest { page: self.page, generation: self.search_gen }
    }

    /// Moves to another page of the current search and returns its request.
    pub fn goto_page(&mut self, page: u64) -> (r: SearchRequest)
        requires
            old(self).wf(),
            old(self)@.search_gen < u64::MAX,
        ensures
            final(self).wf(),
            final(self)@ == paged(old(self)@, page),
            r == (SearchRequest { page, generation: final(self)@.search_gen }),
    {
        self.page = page;
        self.search_gen = self.search_gen + 1;
        self.search_in_flight = true;
        self.count_in_flight = true;
        self.page_has_next = false;
        self.total = None;
        self.last_search_ms = None;
        SearchRequest { page, generation: self.search_gen }
    }

    /// Takes a result page; returns whether it belonged to the current search.
    pub fn receive_page(
        &mut self,
        generation: u64,
        row_ids: Vec<i64>,
        rows: Vec<Vec<String>>,
        has_next: bool,
        ms: u64,
    ) -> (r: bool)
        requires
            old(self).wf(),
        ensures
            final(self).wf(),
            r == (generation == old(self)@.search_gen),
            final(self)@ == page_received(old(self)@, generation, row_ids@, rows_view(rows@), has_next, ms),
    {
        if generation != self.search_gen {
            return false;
        }
        let empty_first = self.page == 0 && rows.len() == 0;
        self.row_ids = row_ids;
        self.rows = rows;
        self.page_has_next = has_next;
        if empty_first {
            self.total = Some(0);
            self.count_in_flight = false;
        }
        self.last_search_ms = Some(ms);
        self.search_in_flight = false;
        self.selection.clear();
        true
    }

    /// Takes the row count; returns whether it belonged to the current search.
    pub fn receive_count(&mut self, generation: u64, total: u64) -> (r: bool)
        requires
            old(self).wf(),
        ensures
            final(self).wf(),
            r == (generation == old(self)@.search_gen),
            final(self)@ == count_received(old(self)@, generation, total),
    {
        if generation != self.search_gen {
            return false;
        }
        self.total = Some(total);
        self.count_in_flight = false;
        true
    }

    /// Takes a search failure; returns whether the error should be shown,
    /// that is whether it belonged to the current search.
    pub fn receive_error(&mut self, generation: u64) -> (r: bool)
        requires
            old(self).wf(),
        ensures
            final(self).wf(),
            r == (generation == old(self)@.search_gen),
            final(self)@ == error_received(old(self)@, generation),
    {
        match self.explorer {
            Some(x) => {
                if x.generation == generation {
                    self.explorer = Some(GroupExplorer { loading: false, ..x });
                }
            },
            None => {},
        }
        if generation != self.search_gen {
            return false;
        }
        self.search_in_flight = false;
        self.count_in_flight = false;
        self.analytics_loading = false;
        true
    }

    pub fn profile_loading(&self) -> (r: bool)
        ensures
            r == self@.profile_loading,
    {
        self.profile_loading
    }

    pub fn compare_loading(&self) -> (r: bool)
        ensures
            r == self@.compare_loading,
    {
        self.compare_loading
    }

    pub fn underpricing_loading(&self) -> (r: bool)
        ensures
            r == self@.underpricing_loading,
    {
        self.underpricing_loading
    }

    /// The open section list.
    pub fn explorer(&self) -> (r: Option<GroupExplorer>)
        ensures
            r == self@.explorer,
    {
        self.explorer
    }

    /// Asks for the profile of the company `edrpou` names (trimmed): returns
    /// the identifier and the generation to send, or `None` for a blank one,
    /// which asks for nothing.
    pub fn open_profile(&mut self, edrpou: &str) -> (r: Option<(String, u64)>)
        requires
            old(self).wf(),
            old(self)@.profile_gen < u64::MAX,
        ensures
            final(self).wf(),
            blank(edrpou@) ==> final(self)@ == old(self)@ && r is None,
            !blank(edrpou@) ==> {
                &&& final(self)@ == profile_opened(old(self)@)
                &&& r matches Some((e, g)) && e@ == trim(edrpou@) && g == final(self)@.profile_gen
            },
    {
        if is_blank(edrpou) {
            return None;
        }
        self.profile_loading = true;
        self.profile_gen = self.profile_gen + 1;
        Some((trim_str(edrpou), self.profile_gen))
    }

    /// Closes the profile; replies still in flight become stale.
    pub fn close_profile(&mut self)
        requires
            old(self).wf(),
            old(self)@.profile_gen < u64::MAX,
        ensures
            final(self).wf(),
            final(self)@ == profile_closed(old(self)@),
    {
        self.profile_loading = false;
        self.profile_gen = self.profile_gen + 1;
    }

    /// Takes a profile; returns whether it answers the pending request.
    pub fn receive_profile(&mut self, generation: u64) -> (r: bool)
        requires
            old(self).wf(),
        ensures
            final(self).wf(),
            r == (generation == old(self)@.profile_gen),
            final(self)@ == profile_received(old(self)@, generation),
    {
        if generation != self.profile_gen {
            return false;
        }
        self.profile_loading = false;
        true
    }

    /// Asks for a comparison against `comparison` (built by
    /// `history::comparison_query`); an empty search asks for nothing.
    /// Returns the generation to send.
    pub fn request_compare(&mut self, comparison: &Query) -> (r: Option<u64>)
        requires
            old(self).wf(),
        ensures
            final(self).wf(),
            query_empty(comparison@) ==> final(self)@ == old(self)@ && r is None,
            !query_empty(comparison@) ==> {
                &&& final(self)@ == compare_requested(old(self)@)
                &&& r == Some(final(self)@.compare_gen)
            },
    {
        if comparison.is_empty() {
            return None;
        }
        self.compare_gen = self.compare_gen.wrapping_add(1);
        self.compare_loading = true;
        Some(self.compare_gen)
    }

    /// Takes a comparison result or error; returns whether it answers the
    /// pending request.
    pub fn receive_compare(&mut self, generation: u64) -> (r: bool)
        requires
            old(self).wf(),
        ensures
            final(self).wf(),
            r == (generation == old(self)@.compare_gen),
            final(self)@ == compare_received(old(self)@, generation),
    {
        if generation != self.compare_gen {
            return false;
        }
        self.compare_loading = false;
        true
    }

    /// Asks for an underpricing scan of the search shown (`active`); an
    /// empty search asks for nothing. Returns the generation to send.
    pub fn request_underpricing(&mut self, active: &Query) -> (r: Option<u64>)
        requires
            old(self).wf(),
        ensures
            final(self).wf(),
            query_empty(active@) ==> final(self)@ == old(self)@ && r is None,
            !query_empty(active@) ==> {
                &&& final(self)@ == underpricing_requested(old(self)@)
                &&& r == Some(final(self)@.underpricing_gen)
            },
    {
        if active.is_empty() {
            return None;
        }
        self.underpricing_loading = true;
        self.underpricing_gen = self.underpricing_gen.wrapping_add(1);
        Some(self.underpricing_gen)
    }

    /// Takes an underpricing scan; returns whether it answers the pending
    /// request.
    pub fn receive_underpricing(&mut self, generation: u64) -> (r: bool)
        requires
            old(self).wf(),
        ensures
            final(self).wf(),
            r == (generation == old(self)@.underpricing_gen),
            final(self)@ == underpricing_received(old(self)@, generation),
    {
        if generation != self.underpricing_gen {
            return false;
        }
        self.underpricing_loading = false;
        true
    }

    /// Opens the full list of a section for the search shown (`active`);
    /// an empty search opens nothing. Returns the generation to send.
    pub fn open_group_explorer(&mut self, active: &Query, kind: AnalyticsSectionKind) -> (r: Option<
        u64,
    >)
        requires
            old(self).wf(),
        ensures
            final(self).wf(),
            query_empty(active@) ==> final(self)@ == old(self)@ && r is None,
            !query_empty(active@) ==> {
                &&& final(self)@ == explorer_opened(old(self)@, kind)
                &&& r == Some(old(self)@.search_gen)
            },
    {
        if active.is_empty() {
            return None;
        }
        self.explorer = Some(GroupExplorer { kind, generation: self.search_gen, loading: true });
        Some(self.search_gen)
    }

    /// Closes the section list.
    pub fn close_group_explorer(&mut self)
        requires
            old(self).wf(),
        ensures
            final(self).wf(),
            final(self)@ == (SessionModel { explorer: None, ..old(self)@ }),
    {
        self.explorer = None;
    }

    /// Takes a section list; returns whether it answers the open list (same
    /// generation and section).
    pub fn receive_section(&mut self, generation: u64, kind: AnalyticsSectionKind) -> (r: bool)
        requires
            old(self).wf(),
        ensures
            final(self).wf(),
            r == section_matches(old(self)@, generation, kind),
            final(self)@ == section_received(old(self)@, generation, kind),
    {
        match self.explorer {
            Some(x) => {
                if x.generation == generation && x.kind == kind {
                    self.explorer = Some(GroupExplorer { loading: false, ..x });
                    return true;
                }
                false
            },
            None => false,
        }
    }

    /// Takes an analytics reply for `scope` and says what to do with its data.
    pub fn receive_analytics(&mut self, generation: u64, scope: Option<AnalyticsScope>) -> (r:
        AnalyticsMerge)
        requires
            old(self).wf(),
        ensures
            final(self).wf(),
            r == merge_kind(old(self)@, generation),
            final(self)@ == analytics_received(old(self)@, generation, scope),
    {
        if generation != self.search_gen {
            return AnalyticsMerge::Stale;
        }
        let merge = if self.has_analytics && self.analytics_gen == generation {
            AnalyticsMerge::Merge
        } else {
            self.has_analytics = true;
            self.analytics_loaded = unloaded_flags();
            AnalyticsMerge::Replace
        };
        self.analytics_gen = generation;
        let i = AnalyticsView::from_scope(scope).index();
        proof {
            lemma_view_pos(view_of_scope(scope));
        }
        self.analytics_loaded = with_flag(&self.analytics_loaded, i, true);
        self.analytics_loading = false;
        merge
    }

    /// Takes a pivot reply; returns whether it belonged to the current search.
    pub fn receive_pivot(&mut self, generation: u64) -> (r: bool)
        requires
            old(self).wf(),
        ensures
            final(self).wf(),
            r == (generation == old(self)@.search_gen),
            final(self)@ == pivot_received(old(self)@, generation),
    {
        if generation != self.search_gen {
            return false;
        }
        self.analytics_gen = generation;
        let i = AnalyticsView::Pivot.index();
        self.analytics_loaded = with_flag(&self.analytics_loaded, i, true);
        self.analytics_loading = false;
        true
    }

    /// The report can be drawn.
    pub fn report_ready(&self) -> (r: bool)
        requires
            self.wf(),
        ensures
            r == report_ready_spec(self@),
    {
        self.analytics_gen == self.search_gen && self.has_analytics
            && self.analytics_loaded[AnalyticsView::Companies.index()]
            && self.analytics_loaded[AnalyticsView::Products.index()]
            && self.analytics_loaded[AnalyticsView::Countries.index()]
            && self.analytics_loaded[AnalyticsView::Prices.index()]
    }

    fn base_needed(&self) -> (r: bool)
        ensures
            r == !analytics_current(self@),
    {
        !self.has_analytics || self.analytics_gen != self.search_gen
    }

    fn push_base(&self, reqs: &mut Vec<AnalyticsRequest>)
        ensures
            final(reqs)@ == old(reqs)@ + base_request(self@),
    {
        if self.base_needed() {
            reqs.push(AnalyticsRequest::Analytics(None));
        } else {
            assert(old(reqs)@ + base_request(self@) =~= old(reqs)@);
        }
    }

    fn push_report_requests(&self, reqs: &mut Vec<AnalyticsRequest>)
        requires
            self.wf(),
        ensures
            final(reqs)@ == old(reqs)@ + report_requests(self@),
    {
        self.push_base(reqs);
        let ghost mid = reqs@;
        let scopes = AnalyticsScope::all();
        assert(scopes@ =~= all_scopes());
        let mut k: usize = 0;
        while k < 4
            invariant
                k <= 4,
                self.wf(),
                scopes@ == all_scopes(),
                reqs@ == mid + missing_scopes(self@, k as int),
            decreases 4 - k,
        {
            let sc = scopes[k];
            if !self.is_loaded(AnalyticsView::from_scope(Some(sc))) {
                reqs.push(AnalyticsRequest::Analytics(Some(sc)));
                assert(reqs@ =~= mid + missing_scopes(self@, (k + 1) as int));
            }
            k += 1;
        }
        assert(old(reqs)@ + report_requests(self@) =~= mid + missing_scopes(self@, 4));
    }

    /// Decides which analytics requests opening sub-tab `view` sends, marks
    /// the session as loading while any is pending, and returns them in
    /// sending order. `query_empty` says whether the active search is empty.
    pub fn request_analytics(&mut self, view: AnalyticsView, query_empty: bool) -> (r: Vec<
        AnalyticsRequest,
    >)
        requires
            old(self).wf(),
        ensures
            final(self).wf(),
            r@ == analytics_requests(old(self)@, view, query_empty),
            final(self)@ == requested(old(self)@, r@),
    {
        let mut reqs: Vec<AnalyticsRequest> = Vec::new();
        if query_empty {
            return reqs;
        }
        match view {
            AnalyticsView::Report => {
                self.push_report_requests(&mut reqs);
                assert(reqs@ =~= report_requests(old(self)@));
            },
            AnalyticsView::Compare => {
                self.push_base(&mut reqs);
                assert(reqs@ =~= base_request(old(self)@));
            },
            AnalyticsView::Pivot => {
                self.push_base(&mut reqs);
                reqs.push(AnalyticsRequest::Pivot);
                assert(reqs@ =~= base_request(old(self)@).push(AnalyticsRequest::Pivot));
                let i = AnalyticsView::Pivot.index();
                self.analytics_loaded = with_flag(&self.analytics_loaded, i, false);
            },
            _ => {
                if !self.is_loaded(view) {
                    reqs.push(AnalyticsRequest::Analytics(view.scope()));
                    assert(reqs@ =~= seq![AnalyticsRequest::Analytics(view_scope(view))]);
                }
            },
        }
        proof {
            let rs = reqs@;
            if view != AnalyticsView::Pivot {
                assert(!rs.contains(AnalyticsRequest::Pivot)) by {
                    if rs.contains(AnalyticsRequest::Pivot) {
                        let j = choose|j: int| 0 <= j < rs.len() && rs[j] == AnalyticsRequest::Pivot;
                        if view == AnalyticsView::Report {
                            let b = base_request(old(self)@);
                            if j >= b.len() {
                                lemma_missing_scopes_analytics(old(self)@, 4, j - b.len());
                            }
                        }
                    }
                }
            } else {
                assert(rs[rs.len() - 1] == AnalyticsRequest::Pivot);
            }
        }
        if reqs.len() > 0 {
            self.analytics_loading = true;
        }
        reqs
    }

    /// Number of pages the pager offers, with `page_size` rows per page.
    pub fn page_count(&self, page_size: u64) -> (r: u64)
        requires
            page_size > 0,
            self@.page < u64::MAX - 1,
        ensures
            r == page_count_spec(self@, page_size),
    {
        match self.total {
            Some(t) => {
                let q = t / page_size;
                let pages = if t % page_size == 0 {
                    q
                } else {
                    assert(q < u64::MAX) by (nonlinear_arith)
                        requires
                            page_size > 0,
                            t % page_size != 0,
                            q == t / page_size,
                    ;
                    q + 1
                };
                assert(pages == (t + page_size - 1) / (page_size as int)) by (nonlinear_arith)
                    requires
                        page_size > 0,
                        q == t / page_size,
                        pages == if t % page_size == 0 {
                            q as int
                        } else {
                            q + 1
                        },
                ;
                if pages < 1 {
                    1
                } else {
                    pages
                }
            },
            None => if !self.search_in_flight && self.page_has_next {
                self.page + 2
            } else {
                self.page + 1
            },
        }
    }
}

proof fn lemma_missing_scopes_analytics(s: SessionModel, n: int, j: int)
    requires
        0 <= n <= 4,
        0 <= j < missing_scopes(s, n).len(),
    ensures
        missing_scopes(s, n)[j] is Analytics,
    decreases n,
{
    if n > 0 {
        let rest = missing_scopes(s, n - 1);
        if j < rest.len() {
            lemma_missing_scopes_analytics(s, n - 1, j);
        }
    }
}

/// Replies for the current search, in arrival order.
pub open spec fn replay(s: SessionModel, scopes: Seq<Option<AnalyticsScope>>) -> SessionModel
    decreases scopes.len(),
{
    if scopes.len() == 0 {
        s
    } else {
        analytics_received(replay(s, scopes.drop_last()), s.search_gen, scopes.last())
    }
}

proof fn lemma_replay_loaded(s: SessionModel, scopes: Seq<Option<AnalyticsScope>>)
    requires
        session_wf(s),
    ensures
        replay(s, scopes).search_gen == s.search_gen,
        session_wf(replay(s, scopes)),
        scopes.len() > 0 ==> analytics_current(replay(s, scopes)),
        forall|k: int| 0 <= k < scopes.len() ==> replay(s, scopes).loaded[#[trigger] scope_pos(scopes[k])],
    decreases scopes.len(),
{
    if scopes.len() > 0 {
        let prev = scopes.drop_last();
        lemma_replay_loaded(s, prev);
        let p = replay(s, prev);
        lemma_view_pos(view_of_scope(scopes.last()));
        assert forall|k: int| 0 <= k < scopes.len() implies replay(s, scopes).loaded[#[trigger] scope_pos(
            scopes[k],
        )] by {
            lemma_view_pos(view_of_scope(scopes[k]));
            if k < scopes.len() - 1 {
                assert(prev[k] == scopes[k]);
                assert(prev.len() > 0);
            }
        }
    }
}

/// Once replies of the current search have arrived for the company,
/// product, country and price scopes, in any order and mixed with any other
/// replies of that search, the report is ready.
pub proof fn lemma_report_ready_after_replies(s: SessionModel, scopes: Seq<Option<AnalyticsScope>>)
    requires
        session_wf(s),
        scopes.contains(Some(AnalyticsScope::Companies)),
        scopes.contains(Some(AnalyticsScope::Products)),
        scopes.contains(Some(AnalyticsScope::Countries)),
        scopes.contains(Some(AnalyticsScope::Prices)),
    ensures
        report_ready_spec(replay(s, scopes)),
{
    lemma_replay_loaded(s, scopes);
    let r = replay(s, scopes);
    let k1 = choose|k: int| 0 <= k < scopes.len() && scopes[k] == Some(AnalyticsScope::Companies);
    let k2 = choose|k: int| 0 <= k < scopes.len() && scopes[k] == Some(AnalyticsScope::Products);
    let k3 = choose|k: int| 0 <= k < scopes.len() && scopes[k] == Some(AnalyticsScope::Countries);
    let k4 = choose|k: int| 0 <= k < scopes.len() && scopes[k] == Some(AnalyticsScope::Prices);
    assert(r.loaded[scope_pos(scopes[k1])]);
    assert(r.loaded[scope_pos(scopes[k2])]);
    assert(r.loaded[scope_pos(scopes[k3])]);
    assert(r.loaded[scope_pos(scopes[k4])]);
}

/// After a new search or a page change, every reply addressed to an earlier
/// request is ignored: result pages, counts, errors, analytics and pivots.
/// After a new search, a section list of an earlier search is ignored too;
/// after a page change, the section list (asked under its own generation)
/// is the only part an earlier failure still reaches.
pub proof fn lemma_earlier_replies_ignored(
    s: SessionModel,
    reset_page: bool,
    page: u64,
    generation: u64,
    row_ids: Seq<i64>,
    rows: Seq<Seq<Seq<char>>>,
    has_next: bool,
    ms: u64,
    total: u64,
    scope: Option<AnalyticsScope>,
    kind: AnalyticsSectionKind,
)
    requires
        s.search_gen < u64::MAX,
        generation <= s.search_gen,
    ensures
        ({
            let a = started(s, reset_page);
            &&& page_received(a, generation, row_ids, rows, has_next, ms) == a
            &&& count_received(a, generation, total) == a
            &&& error_received(a, generation) == a
            &&& analytics_received(a, generation, scope) == a
            &&& pivot_received(a, generation) == a
            &&& section_received(a, generation, kind) == a
        }),
        ({
            let b = paged(s, page);
            &&& page_received(b, generation, row_ids, rows, has_next, ms) == b
            &&& count_received(b, generation, total) == b
            &&& (SessionModel { explorer: b.explorer, ..error_received(b, generation) }) == b
            &&& analytics_received(b, generation, scope) == b
            &&& pivot_received(b, generation) == b
        }),
{
}

/// A profile reply addressed to an earlier request is ignored once another
/// profile is asked for or the profile is closed; a comparison or
/// underpricing reply to the previous request is ignored once a new one is
/// asked for (and an underpricing reply once a new search starts).
pub proof fn lemma_stale_side_replies_ignored(s: SessionModel, generation: u64, reset_page: bool)
    requires
        s.profile_gen < u64::MAX,
        s.search_gen < u64::MAX,
        generation <= s.profile_gen,
    ensures
        profile_received(profile_opened(s), generation) == profile_opened(s),
        profile_received(profile_closed(s), generation) == profile_closed(s),
        compare_received(compare_requested(s), s.compare_gen) == compare_requested(s),
        underpricing_received(underpricing_requested(s), s.underpricing_gen)
            == underpricing_requested(s),
        underpricing_received(started(s, reset_page), s.underpricing_gen) == started(s, reset_page),
{
}

/// A new search shows no analytics until replies for it arrive, so the
/// report of an earlier search is never taken for the new one.
pub proof fn lemma_new_search_not_ready(s: SessionModel, reset_page: bool)
    requires
        s.search_gen < u64::MAX,
    ensures
        !report_ready_spec(started(s, reset_page)),
        forall|v: AnalyticsView| !view_loaded(started(s, reset_page), v),
{
    assert forall|v: AnalyticsView| !view_loaded(started(s, reset_page), v) by {
        lemma_view_pos(v);
    }
}

/// The pager always offers at least one page and never fewer than the page
/// shown plus one while the row count is unknown.
pub proof fn lemma_page_count_positive(s: SessionModel, page_size: u64)
    requires
        page_size > 0,
    ensures
        page_count_spec(s, page_size) >= 1,
        s.total is None ==> page_count_spec(s, page_size) > s.page,
{
}

/// Only the sub-tab being opened is calculated: opening a standard sub-tab
/// asks for its own scope at most once, and nothing at all when the search is
/// empty or the sub-tab already holds data of the current search.
pub proof fn lemma_only_active_view_requested(s: SessionModel, v: AnalyticsView)
    requires
        v != AnalyticsView::Report,
        v != AnalyticsView::Compare,
        v != AnalyticsView::Pivot,
    ensures
        analytics_requests(s, v, true).len() == 0,
        analytics_requests(s, v, false).len() <= 1,
        forall|k: int|
            0 <= k < analytics_requests(s, v, false).len() ==> #[trigger] analytics_requests(
                s,
                v,
                false,
            )[k] == AnalyticsRequest::Analytics(view_scope(v)),
        view_loaded(s, v) ==> analytics_requests(s, v, false).len() == 0,
{
}

/// Once the analytics shown belong to the current search, the report asks
/// only for the scopes whose sections have not arrived; with all four in, it
/// asks for nothing.
pub proof fn lemma_ready_report_requests_nothing(s: SessionModel)
    requires
        report_ready_spec(s),
    ensures
        report_requests(s).len() == 0,
{
    assert(base_request(s).len() == 0);
    assert(all_scopes()[0] == AnalyticsScope::Companies);
    assert(all_scopes()[1] == AnalyticsScope::Products);
    assert(all_scopes()[2] == AnalyticsScope::Countries);
    assert(all_scopes()[3] == AnalyticsScope::Prices);
    assert(missing_scopes(s, 0).len() == 0);
    assert(missing_scopes(s, 1).len() == 0);
    assert(missing_scopes(s, 2).len() == 0);
    assert(missing_scopes(s, 3).len() == 0);
    assert(missing_scopes(s, 4).len() == 0);
}

// ---------- guided questions ----------

/// What running a guided question does.
#[derive(Debug)]
pub enum GuidedStep {
    /// The search being edited is empty: show the hint instead.
    NeedsQuery,
    /// A profile was asked for a blank company identifier: nothing happens.
    Nothing,
    /// Open the profile of the company with this identifier.
    OpenProfile(String),
    /// Switch to the analytics tab, set the sub-tab, open the full list of
    /// a section or set the pivot layout, then either start the edited
    /// search (when it differs from the one shown) or request the analytics
    /// of the search shown.
    Analytics {
        view: Option<AnalyticsView>,
        explore: Option<AnalyticsSectionKind>,
        pivot: Option<(PivotDim, PivotDim, PivotMetric)>,
        new_search: bool,
        request: bool,
    },
}

/// Abstract step.
pub enum StepModel {
    NeedsQuery,
    Nothing,
    OpenProfile(Seq<char>),
    Analytics {
        view: Option<AnalyticsView>,
        explore: Option<AnalyticsSectionKind>,
        pivot: Option<(PivotDim, PivotDim, PivotMetric)>,
        new_search: bool,
        request: bool,
    },
}

impl View for GuidedStep {
    type V = StepModel;

    open spec fn view(&self) -> StepModel {
        match self {
            GuidedStep::NeedsQuery => StepModel::NeedsQuery,
            GuidedStep::Nothing => StepModel::Nothing,
            GuidedStep::OpenProfile(e) => StepModel::OpenProfile(e@),
            GuidedStep::Analytics { view, explore, pivot, new_search, request } => StepModel::Analytics {
                view: *view,
                explore: *explore,
                pivot: *pivot,
                new_search: *new_search,
                request: *request,
            },
        }
    }
}

/// The step for a guided question, given the search being edited and the
/// search shown. Only a profile can be opened without a search.
pub open spec fn guided_step(current: QueryModel, active: QueryModel, a: ActionModel) -> StepModel {
    let changed = current != active;
    match a {
        ActionModel::Profile(e) => if blank(e) {
            StepModel::Nothing
        } else {
            StepModel::OpenProfile(trim(e))
        },
        _ => if query_empty(current) {
            StepModel::NeedsQuery
        } else {
            match a {
                ActionModel::Analytics(v) => StepModel::Analytics {
                    view: Some(v),
                    explore: None,
                    pivot: None,
                    new_search: changed,
                    request: !changed,
                },
                ActionModel::Explore(k) => StepModel::Analytics {
                    view: None,
                    explore: Some(k),
                    pivot: None,
                    new_search: changed,
                    request: false,
                },
                ActionModel::Pivot(r, c, m) => StepModel::Analytics {
                    view: Some(AnalyticsView::Pivot),
                    explore: None,
                    pivot: Some((r, c, m)),
                    new_search: changed,
                    request: !changed,
                },
                ActionModel::Profile(e) => StepModel::Nothing,
            }
        },
    }
}

/// Decides what running a guided question does.
pub fn run_guided_question(current: &Query, active: &Query, action: GuidedQuestionAction) -> (r:
    GuidedStep)
    ensures
        r@ == guided_step(current@, active@, action@),
{
    if let GuidedQuestionAction::Profile(edrpou) = &action {
        if is_blank(edrpou.as_str()) {
            return GuidedStep::Nothing;
        }
        return GuidedStep::OpenProfile(trim_str(edrpou.as_str()));
    }
    if current.is_empty() {
        return GuidedStep::NeedsQuery;
    }
    let changed = !same_query(current, active);
    match action {
        GuidedQuestionAction::Analytics(view) => GuidedStep::Analytics {
            view: Some(view),
            explore: None,
            pivot: None,
            new_search: changed,
            request: !changed,
        },
        GuidedQuestionAction::Explore(kind) => GuidedStep::Analytics {
            view: None,
            explore: Some(kind),
            pivot: None,
            new_search: changed,
            request: false,
        },
        GuidedQuestionAction::Pivot(row_dim, col_dim, metric) => GuidedStep::Analytics {
            view: Some(AnalyticsView::Pivot),
            explore: None,
            pivot: Some((row_dim, col_dim, metric)),
            new_search: changed,
            request: !changed,
        },
        GuidedQuestionAction::Profile(_) => GuidedStep::Nothing,
    }
}

} // verus!
