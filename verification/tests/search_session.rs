use base_search::db_types::{AnalyticsScope, AnalyticsSectionKind, PivotDim, PivotMetric, Query};
use base_search::guided::{AnalyticsView, GuidedQuestionAction};
use base_search::selection::{row_copy_text, selected_rows_text, ClickKeys, RowSelection};
use base_search::session::{
    run_guided_question, AnalyticsMerge, AnalyticsRequest, GuidedStep, SearchRequest,
    SearchSession,
};

const PLAIN: ClickKeys = ClickKeys { toggle: false, extend: false };
const TOGGLE: ClickKeys = ClickKeys { toggle: true, extend: false };
const RANGE: ClickKeys = ClickKeys { toggle: false, extend: true };

fn strings(values: &[&str]) -> Vec<String> {
    values.iter().map(|v| v.to_string()).collect()
}

#[test]
fn plain_click_selects_one_row() {
    let mut sel = RowSelection::new();
    sel.click(3, PLAIN);
    sel.click(5, PLAIN);
    assert_eq!(sel.len(), 1);
    assert!(sel.contains(5));
    assert!(!sel.contains(3));
    assert_eq!(sel.anchor(), Some(5));
}

#[test]
fn toggle_click_twice_restores_selection() {
    let mut sel = RowSelection::new();
    sel.click(1, PLAIN);
    sel.click(4, TOGGLE);
    assert!(sel.contains(1) && sel.contains(4));
    assert_eq!(sel.anchor(), Some(4));
    sel.click(4, TOGGLE);
    assert!(sel.contains(1));
    assert!(!sel.contains(4));
    assert_eq!(sel.len(), 1);
}

#[test]
fn range_click_selects_between_anchor_and_row() {
    let mut sel = RowSelection::new();
    sel.click(6, PLAIN);
    sel.click(2, RANGE);
    assert_eq!(sel.len(), 5);
    for i in 2..=6 {
        assert!(sel.contains(i));
    }
    assert!(!sel.contains(7));
    assert_eq!(sel.anchor(), Some(6));
}

#[test]
fn range_click_without_anchor_acts_as_plain_click() {
    let mut sel = RowSelection::new();
    sel.click(3, RANGE);
    assert_eq!(sel.len(), 1);
    assert!(sel.contains(3));
    assert_eq!(sel.anchor(), Some(3));
}

#[test]
fn copied_rows_keep_order_and_visible_columns() {
    let rows = vec![
        strings(&["a1", "b1", "c1"]),
        strings(&["a2", "b2", "c2"]),
        strings(&["a3", "b3", "c3"]),
    ];
    let visible = vec![true, false, true];
    let mut sel = RowSelection::new();
    sel.click(2, PLAIN);
    sel.click(0, TOGGLE);
    sel.click(9, TOGGLE);
    let text = selected_rows_text(&rows, &visible, &sel);
    assert_eq!(text, Some("a1\tc1\na3\tc3".to_string()));
    assert_eq!(row_copy_text(&rows[1]), "a2\tb2\tc2");
}

#[test]
fn nothing_to_copy_without_selected_rows() {
    let rows = vec![strings(&["a1"])];
    let mut sel = RowSelection::new();
    assert_eq!(selected_rows_text(&rows, &vec![true], &sel), None);
    sel.click(4, PLAIN);
    assert_eq!(selected_rows_text(&rows, &vec![true], &sel), None);
}

#[test]
fn replies_of_older_searches_are_ignored() {
    let mut s = SearchSession::new();
    let first = s.start_search(true);
    assert_eq!(first, SearchRequest { page: 0, generation: 1 });
    let second = s.start_search(true);
    assert_eq!(second.generation, 2);
    assert!(!s.receive_page(1, vec![7], vec![strings(&["old"])], true, 5));
    assert!(!s.receive_count(1, 99));
    assert!(!s.receive_error(1));
    assert_eq!(s.receive_analytics(1, None), AnalyticsMerge::Stale);
    assert!(s.search_in_flight());
    assert_eq!(s.total(), None);
    assert!(s.receive_page(2, vec![11, 12], vec![strings(&["x"]), strings(&["y"])], true, 8));
    assert!(!s.search_in_flight());
    assert_eq!(s.last_search_ms(), Some(8));
    assert_eq!(s.row_id(1), Some(12));
    assert_eq!(s.row_id(2), None);
    assert!(s.receive_count(2, 250));
    assert_eq!(s.total(), Some(250));
    assert!(!s.count_in_flight());
}

#[test]
fn empty_first_page_settles_count() {
    let mut s = SearchSession::new();
    let req = s.start_search(true);
    assert!(s.receive_page(req.generation, vec![], vec![], false, 3));
    assert_eq!(s.total(), Some(0));
    assert!(!s.count_in_flight());
    assert_eq!(s.page_count(100), 1);
}

#[test]
fn new_page_clears_selection() {
    let mut s = SearchSession::new();
    let req = s.start_search(true);
    s.receive_page(req.generation, vec![1, 2], vec![strings(&["a"]), strings(&["b"])], false, 1);
    s.click_row(1, PLAIN);
    assert_eq!(s.selection().len(), 1);
    let next = s.goto_page(1);
    assert_eq!(next, SearchRequest { page: 1, generation: 2 });
    s.receive_page(next.generation, vec![3], vec![strings(&["c"])], false, 1);
    assert_eq!(s.selection().len(), 0);
    assert_eq!(s.page(), 1);
}

#[test]
fn page_count_follows_total_or_next_page() {
    let mut s = SearchSession::new();
    let req = s.start_search(true);
    assert_eq!(s.page_count(100), 1);
    s.receive_page(req.generation, vec![1], vec![strings(&["a"])], true, 1);
    assert_eq!(s.page_count(100), 2);
    s.receive_count(req.generation, 250);
    assert_eq!(s.page_count(100), 3);
    s.receive_count(req.generation, 200);
    assert_eq!(s.page_count(100), 2);
}

#[test]
fn report_requests_then_replies_make_report_ready() {
    let mut s = SearchSession::new();
    let req = s.start_search(true);
    let asked = s.request_analytics(AnalyticsView::Report, false);
    assert_eq!(
        asked,
        vec![
            AnalyticsRequest::Analytics(None),
            AnalyticsRequest::Analytics(Some(AnalyticsScope::Companies)),
            AnalyticsRequest::Analytics(Some(AnalyticsScope::Products)),
            AnalyticsRequest::Analytics(Some(AnalyticsScope::Countries)),
            AnalyticsRequest::Analytics(Some(AnalyticsScope::Prices)),
        ]
    );
    assert!(s.analytics_loading());
    assert!(!s.report_ready());
    assert_eq!(s.receive_analytics(req.generation, Some(AnalyticsScope::Products)), AnalyticsMerge::Replace);
    assert_eq!(s.receive_analytics(req.generation, None), AnalyticsMerge::Merge);
    s.receive_analytics(req.generation, Some(AnalyticsScope::Prices));
    s.receive_analytics(req.generation, Some(AnalyticsScope::Companies));
    assert!(!s.report_ready());
    s.receive_analytics(req.generation, Some(AnalyticsScope::Countries));
    assert!(s.report_ready());
    assert!(!s.analytics_loading());
    assert!(s.request_analytics(AnalyticsView::Report, false).is_empty());
    s.start_search(true);
    assert!(!s.report_ready());
}

#[test]
fn analytics_requests_by_view() {
    let mut s = SearchSession::new();
    let req = s.start_search(true);
    assert!(s.request_analytics(AnalyticsView::Companies, true).is_empty());
    assert_eq!(
        s.request_analytics(AnalyticsView::Companies, false),
        vec![AnalyticsRequest::Analytics(Some(AnalyticsScope::Companies))]
    );
    s.receive_analytics(req.generation, Some(AnalyticsScope::Companies));
    assert!(s.is_loaded(AnalyticsView::Companies));
    assert!(s.request_analytics(AnalyticsView::Companies, false).is_empty());
    assert_eq!(
        s.request_analytics(AnalyticsView::Overview, false),
        vec![AnalyticsRequest::Analytics(None)]
    );
    assert!(s.request_analytics(AnalyticsView::Compare, false).is_empty());
    assert_eq!(s.request_analytics(AnalyticsView::Pivot, false), vec![AnalyticsRequest::Pivot]);
    assert!(!s.is_loaded(AnalyticsView::Pivot));
    assert!(s.receive_pivot(req.generation));
    assert!(s.is_loaded(AnalyticsView::Pivot));
}

#[test]
fn startup_with_rows_starts_first_search() {
    let mut s = SearchSession::new();
    assert_eq!(s.receive_startup(500), Some(SearchRequest { page: 0, generation: 1 }));
    assert!(s.search_in_flight());
    let mut empty = SearchSession::new();
    assert_eq!(empty.receive_startup(0), None);
    assert_eq!(empty.total(), Some(0));
    assert!(!empty.search_in_flight());
    let mut failed = SearchSession::new();
    failed.start_search(true);
    failed.startup_failed();
    assert!(!failed.search_in_flight());
    assert!(!failed.count_in_flight());
}

#[test]
fn guided_question_steps() {
    let empty = Query::default();
    let steel = Query { text: "steel".to_string(), ..Query::default() };
    let copper = Query { text: "copper".to_string(), ..Query::default() };
    assert!(matches!(
        run_guided_question(&empty, &steel, GuidedQuestionAction::Analytics(AnalyticsView::Prices)),
        GuidedStep::NeedsQuery
    ));
    assert!(matches!(
        run_guided_question(&empty, &steel, GuidedQuestionAction::Profile(" 123 ".to_string())),
        GuidedStep::OpenProfile(ref e) if e == "123"
    ));
    assert!(matches!(
        run_guided_question(&steel, &steel, GuidedQuestionAction::Profile("  ".to_string())),
        GuidedStep::Nothing
    ));
    assert!(matches!(
        run_guided_question(&steel, &steel, GuidedQuestionAction::Analytics(AnalyticsView::Prices)),
        GuidedStep::Analytics { view: Some(AnalyticsView::Prices), new_search: false, request: true, .. }
    ));
    assert!(matches!(
        run_guided_question(&copper, &steel, GuidedQuestionAction::Explore(AnalyticsSectionKind::Senders)),
        GuidedStep::Analytics {
            view: None,
            explore: Some(AnalyticsSectionKind::Senders),
            new_search: true,
            request: false,
            ..
        }
    ));
    assert!(matches!(
        run_guided_question(
            &copper,
            &steel,
            GuidedQuestionAction::Pivot(PivotDim::Recipient, PivotDim::Month, PivotMetric::Value)
        ),
        GuidedStep::Analytics {
            view: Some(AnalyticsView::Pivot),
            pivot: Some((PivotDim::Recipient, PivotDim::Month, PivotMetric::Value)),
            new_search: true,
            request: false,
            ..
        }
    ));
}

#[test]
fn side_replies_follow_their_own_generations() {
    let mut s = SearchSession::new();
    let steel = Query { text: "steel".to_string(), ..Query::default() };
    assert_eq!(s.open_profile("   "), None);
    let (id, g1) = s.open_profile(" 12345678 ").unwrap();
    assert_eq!(id, "12345678");
    assert!(s.profile_loading());
    let (_, g2) = s.open_profile("87654321").unwrap();
    assert!(!s.receive_profile(g1));
    assert!(s.profile_loading());
    assert!(s.receive_profile(g2));
    assert!(!s.profile_loading());
    s.open_profile("1").unwrap();
    s.close_profile();
    assert!(!s.profile_loading());

    assert_eq!(s.request_compare(&Query::default()), None);
    let c = s.request_compare(&steel).unwrap();
    assert!(s.compare_loading());
    assert!(!s.receive_compare(c.wrapping_sub(1)));
    assert!(s.receive_compare(c));
    assert!(!s.compare_loading());

    let u = s.request_underpricing(&steel).unwrap();
    assert!(s.underpricing_loading());
    let req = s.start_search(true);
    assert!(!s.underpricing_loading());
    assert!(!s.receive_underpricing(u));

    let g = s.open_group_explorer(&steel, AnalyticsSectionKind::Senders).unwrap();
    assert_eq!(g, req.generation);
    assert!(!s.receive_section(g, AnalyticsSectionKind::Recipients));
    assert!(s.receive_section(g, AnalyticsSectionKind::Senders));
    assert!(!s.explorer().unwrap().loading);
    s.open_group_explorer(&steel, AnalyticsSectionKind::Senders);
    assert!(s.receive_error(g));
    assert!(!s.explorer().unwrap().loading);
    s.close_group_explorer();
    assert_eq!(s.explorer(), None);
    assert_eq!(s.open_group_explorer(&Query::default(), AnalyticsSectionKind::Senders), None);
}
