use base_search::format::{short_month, trunc_label};

#[test]
fn short_month_compacts_iso_month() {
    assert_eq!(short_month("2024-03"), "03'24");
    assert_eq!(short_month("bad"), "bad");
}

#[test]
fn short_month_keeps_the_day_out() {
    assert_eq!(short_month("2023-11-05"), "11'23");
    assert_eq!(short_month("202"), "202");
}

#[test]
fn trunc_label_marks_the_cut() {
    assert_eq!(trunc_label("Україна", 3), "Укр\u{2026}");
    assert_eq!(trunc_label("abc", 3), "abc");
    assert_eq!(trunc_label("", 0), "");
}
