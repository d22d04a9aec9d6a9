use base_search::db_types::{AnalyticsScope, AnalyticsSectionKind, Filters, PivotDim, PivotMetric};
use base_search::guided::{
    exact_edrpou_candidate, guided_question_action, guided_question_title, guided_questions_empty,
    guided_questions_for, guided_questions_hover, guided_questions_label, guided_section_title,
    invalidate_underpricing_generation, AnalyticsView, GuidedQuestionAction, GuidedQuestionKind,
    GuidedQuestionSection, Lang,
};

#[test]
fn invalidating_underpricing_generation_rejects_stale_results() {
    let mut generation = 7;
    let stale_generation = generation;

    invalidate_underpricing_generation(&mut generation);

    assert_ne!(generation, stale_generation);
}

#[test]
fn invalidating_the_last_generation_wraps() {
    let mut generation = u64::MAX;
    invalidate_underpricing_generation(&mut generation);
    assert_eq!(generation, 0);
}

#[test]
fn guided_questions_cover_all_languages() {
    let kinds = [
        GuidedQuestionKind::ProductCompanies,
        GuidedQuestionKind::ProductAllCompanies,
        GuidedQuestionKind::ProductGoods,
        GuidedQuestionKind::ProductCountries,
        GuidedQuestionKind::ProductPrices,
        GuidedQuestionKind::ProductTimeline,
        GuidedQuestionKind::ProductCompaniesByMonth,
        GuidedQuestionKind::CompanyProfile,
        GuidedQuestionKind::CompanyGoods,
        GuidedQuestionKind::CompanySuppliers,
        GuidedQuestionKind::CompanyCountries,
        GuidedQuestionKind::CompanyTimeline,
        GuidedQuestionKind::CompanyGoodsByMonth,
        GuidedQuestionKind::MarketCompanies,
        GuidedQuestionKind::MarketGoods,
        GuidedQuestionKind::MarketCountries,
        GuidedQuestionKind::MarketPrices,
    ];
    for lang in Lang::all() {
        for kind in kinds {
            assert!(!guided_question_title(kind, lang).trim().is_empty());
        }
    }
}

#[test]
fn guided_questions_match_input_context() {
    let product = guided_questions_for("Widget", &Filters::default());
    assert!(
        product
            .iter()
            .any(|(_, kind)| *kind == GuidedQuestionKind::ProductCompanies)
    );
    assert!(
        product
            .iter()
            .any(|(_, kind)| *kind == GuidedQuestionKind::ProductPrices)
    );

    let filters = Filters {
        edrpou: "12345678".into(),
        ..Filters::default()
    };
    let company = guided_questions_for("", &filters);
    assert!(
        company
            .iter()
            .any(|(_, kind)| *kind == GuidedQuestionKind::CompanyProfile)
    );
    assert_eq!(
        exact_edrpou_candidate("", &filters),
        Some("12345678".to_string())
    );

    let filters = Filters {
        year: "2024".into(),
        origin_country: "CN".into(),
        ..Filters::default()
    };
    let market = guided_questions_for("", &filters);
    assert!(
        market
            .iter()
            .any(|(_, kind)| *kind == GuidedQuestionKind::MarketCompanies)
    );
    assert!(
        market
            .iter()
            .any(|(_, kind)| *kind == GuidedQuestionKind::MarketPrices)
    );
}

#[test]
fn empty_search_offers_market_questions_only() {
    let questions = guided_questions_for("   ", &Filters::default());
    assert_eq!(questions.len(), 4);
    assert!(questions
        .iter()
        .all(|(section, _)| *section == GuidedQuestionSection::Market));
}

#[test]
fn eight_digit_text_names_a_company() {
    assert_eq!(
        exact_edrpou_candidate(" 87654321 ", &Filters::default()),
        Some("87654321".to_string())
    );
    assert_eq!(exact_edrpou_candidate("8765432", &Filters::default()), None);
    assert_eq!(exact_edrpou_candidate("8765432x", &Filters::default()), None);
    let questions = guided_questions_for("87654321", &Filters::default());
    assert_eq!(questions[0].1, GuidedQuestionKind::ProductCompanies);
    assert_eq!(questions[7].1, GuidedQuestionKind::CompanyProfile);
    assert_eq!(questions.len(), 13);
}

#[test]
fn questions_open_their_analyses() {
    let filters = Filters::default();
    assert!(matches!(
        guided_question_action(GuidedQuestionKind::MarketPrices, "", &filters),
        Some(GuidedQuestionAction::Analytics(AnalyticsView::Prices))
    ));
    assert!(matches!(
        guided_question_action(GuidedQuestionKind::ProductAllCompanies, "", &filters),
        Some(GuidedQuestionAction::Explore(AnalyticsSectionKind::Edrpou))
    ));
    assert!(matches!(
        guided_question_action(GuidedQuestionKind::CompanyGoodsByMonth, "", &filters),
        Some(GuidedQuestionAction::Pivot(PivotDim::ProductCode, PivotDim::Month, PivotMetric::Value))
    ));
    assert!(guided_question_action(GuidedQuestionKind::CompanyProfile, "steel", &filters).is_none());
    match guided_question_action(GuidedQuestionKind::CompanyProfile, "12345678", &filters) {
        Some(GuidedQuestionAction::Profile(id)) => assert_eq!(id, "12345678"),
        _ => panic!("expected a profile"),
    }
}

#[test]
fn analytics_views_and_scopes_correspond() {
    for (i, view) in AnalyticsView::all().into_iter().enumerate() {
        assert_eq!(view.index(), i);
        if let Some(scope) = view.scope() {
            assert_eq!(AnalyticsView::from_scope(Some(scope)), view);
        }
    }
    assert_eq!(AnalyticsView::from_scope(None), AnalyticsView::Overview);
    assert_eq!(AnalyticsView::Prices.scope(), Some(AnalyticsScope::Prices));
    assert_eq!(AnalyticsView::Pivot.scope(), None);
}

#[test]
fn menu_texts_exist_in_every_language() {
    for lang in Lang::all() {
        assert!(!guided_questions_label(lang).is_empty());
        assert!(!guided_questions_hover(lang).is_empty());
        assert!(!guided_questions_empty(lang).is_empty());
        assert!(!guided_section_title(GuidedQuestionSection::Market, lang).is_empty());
    }
    assert_eq!(guided_questions_label(Lang::De), "Fragen");
    assert_eq!(
        guided_question_title(GuidedQuestionKind::MarketPrices, Lang::En),
        "Are prices normal in this slice?"
    );
}
