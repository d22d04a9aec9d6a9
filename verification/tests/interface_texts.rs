use base_search::format::esc_html;
use base_search::guided::Lang;
use base_search::labels::{
    analytics_calc_lines, compare_empty, overview_scale_title, recent_queries_label,
    report_title, underpricing_gap_header,
};

#[test]
fn ukrainian_has_its_own_texts_and_others_show_english() {
    assert_eq!(recent_queries_label(Lang::Ua), "Недавні запити");
    assert_eq!(recent_queries_label(Lang::En), "Recent searches");
    assert_eq!(recent_queries_label(Lang::De), "Recent searches");
    for lang in Lang::all() {
        assert!(!report_title(lang).is_empty());
        assert!(!overview_scale_title(lang).is_empty());
        assert!(!compare_empty(lang).is_empty());
        assert!(!underpricing_gap_header(lang).is_empty());
        assert_eq!(analytics_calc_lines(lang).len(), 6);
    }
    assert!(analytics_calc_lines(Lang::En)[0].starts_with("Rows = "));
}

#[test]
fn html_escape_covers_markup_characters() {
    assert_eq!(esc_html("<a href=\"x\">&</a>"), "&lt;a href=&quot;x&quot;&gt;&amp;&lt;/a&gt;");
    assert_eq!(esc_html("plain"), "plain");
}
