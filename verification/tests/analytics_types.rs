use base_search::db_types::{
    first_section_of_kind, pivot_filter_action, scope_section_kinds, AnalyticsFilterField,
    AnalyticsScope, AnalyticsSectionKind, ImportQuality, PivotDim,
};

#[test]
fn scopes_are_listed_in_menu_order() {
    for (i, scope) in AnalyticsScope::all().into_iter().enumerate() {
        assert_eq!(scope.index(), i);
    }
    assert_eq!(
        scope_section_kinds(Some(AnalyticsScope::Companies)),
        vec![
            AnalyticsSectionKind::Edrpou,
            AnalyticsSectionKind::Recipients,
            AnalyticsSectionKind::Senders
        ]
    );
    assert!(scope_section_kinds(Some(AnalyticsScope::Prices)).is_empty());
    assert!(scope_section_kinds(None).is_empty());
    let kinds = scope_section_kinds(Some(AnalyticsScope::Countries));
    assert_eq!(
        first_section_of_kind(&kinds, AnalyticsSectionKind::TradeCountries),
        Some(2)
    );
    assert_eq!(first_section_of_kind(&kinds, AnalyticsSectionKind::Senders), None);
}

#[test]
fn pivot_labels_filter_by_their_dimension() {
    let action = pivot_filter_action(PivotDim::OriginCountry, "CN".to_string()).unwrap();
    assert_eq!(action.field, AnalyticsFilterField::OriginCountry);
    assert_eq!(action.value, "CN");
    assert!(pivot_filter_action(PivotDim::Month, "2024-01".to_string()).is_none());
    assert_eq!(PivotDim::Year.filter_field(), None);
}

#[test]
fn import_warnings_round_trip_through_text() {
    let quality = ImportQuality {
        layout: "A".to_string(),
        ..ImportQuality::default()
    }
    .with_warnings_text(" first \r\n\n  \nsecond\n".to_string());
    assert_eq!(quality.warnings, vec!["first".to_string(), "second".to_string()]);
    assert_eq!(quality.warnings_text(), "first\nsecond");
    assert_eq!(quality.layout, "A");
}
