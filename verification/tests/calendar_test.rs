use mortgage_core::calendar::{
    days_in_month, format_dmy, format_iso_date, is_leap, CalendarMove, CalendarState,
    GuiCalendarState, Ymd, MAX_YEAR, MIN_YEAR,
};

#[test]
fn month_lengths_follow_the_gregorian_calendar() {
    assert_eq!(days_in_month(2025, 1), 31);
    assert_eq!(days_in_month(2025, 2), 28);
    assert_eq!(days_in_month(2024, 2), 29);
    assert_eq!(days_in_month(2000, 2), 29);
    assert_eq!(days_in_month(2100, 2), 28);
    assert_eq!(days_in_month(2025, 4), 30);
    assert_eq!(days_in_month(2025, 12), 31);
    assert_eq!(days_in_month(0, 2), 29);
    assert_eq!(days_in_month(-1, 2), 28);
    assert_eq!(days_in_month(-4, 2), 29);
}

#[test]
fn month_length_out_of_range_is_thirty() {
    assert_eq!(days_in_month(2025, 0), 30);
    assert_eq!(days_in_month(2025, 13), 30);
    assert_eq!(days_in_month(MAX_YEAR, 12), 30);
    assert_eq!(days_in_month(MAX_YEAR, 11), 30);
    assert_eq!(days_in_month(MAX_YEAR, 10), 31);
    assert_eq!(days_in_month(MIN_YEAR, 1), 31);
    assert_eq!(days_in_month(MIN_YEAR - 1, 1), 30);
    assert_eq!(days_in_month(MAX_YEAR + 1, 1), 30);
}

#[test]
fn leap_years() {
    assert!(is_leap(2024));
    assert!(!is_leap(2023));
    assert!(!is_leap(1900));
    assert!(is_leap(2000));
    assert!(is_leap(-400));
    assert!(!is_leap(-100));
}

#[test]
fn month_navigation_wraps_years() {
    let mut c = CalendarState::new(2025, 1, 15);
    c.prev_month();
    assert_eq!((c.year, c.month, c.selected_day), (2024, 12, Some(15)));
    c.next_month();
    assert_eq!((c.year, c.month), (2025, 1));
    let mut d = CalendarState::new(2025, 12, 1);
    d.next_month();
    assert_eq!((d.year, d.month), (2026, 1));
    d.prev_month();
    assert_eq!((d.year, d.month), (2025, 12));
}

#[test]
fn gui_month_navigation_wraps_years() {
    let mut g = GuiCalendarState {
        year: 2025,
        month: 1,
        day: 3,
    };
    g.prev_month();
    assert_eq!((g.year, g.month, g.day), (2024, 12, 3));
    g.next_month();
    g.next_month();
    assert_eq!((g.year, g.month), (2025, 2));
}

#[test]
fn gui_calendar_opens_on_a_real_date() {
    let g = GuiCalendarState::default();
    assert!((1..=12).contains(&g.month));
    assert!(g.day >= 1 && g.day <= days_in_month(g.year, g.month));
    assert!(g.year >= 2000);
}

#[test]
fn picker_moves_stay_in_the_month() {
    let mut c = CalendarState::new(2025, 2, 25);
    c.apply_move(CalendarMove::Down);
    assert_eq!(c.selected_day, Some(25));
    c.apply_move(CalendarMove::Right);
    c.apply_move(CalendarMove::Right);
    c.apply_move(CalendarMove::Right);
    c.apply_move(CalendarMove::Right);
    assert_eq!(c.selected_day, Some(28));
    c.apply_move(CalendarMove::Up);
    assert_eq!(c.selected_day, Some(21));
    c.apply_move(CalendarMove::Left);
    assert_eq!(c.selected_day, Some(20));
    let mut e = CalendarState::new(2025, 3, 1);
    e.apply_move(CalendarMove::Left);
    e.apply_move(CalendarMove::Up);
    assert_eq!(e.selected_day, Some(1));
    e.apply_move(CalendarMove::Down);
    assert_eq!(e.selected_day, Some(8));
    e.apply_move(CalendarMove::PreviousMonth);
    assert_eq!((e.year, e.month, e.selected_day), (2025, 2, Some(8)));
    e.apply_move(CalendarMove::NextMonth);
    assert_eq!((e.year, e.month), (2025, 3));
}

#[test]
fn picked_date_text() {
    let c = CalendarState::new(2025, 3, 5);
    assert_eq!(c.selected_date_text(), Some("05-03-2025".to_string()));
    let none = CalendarState {
        year: 2025,
        month: 3,
        selected_day: None,
    };
    assert_eq!(none.selected_date_text(), None);
}

#[test]
fn dmy_rendering() {
    assert_eq!(format_dmy(5, 3, 2025), "05-03-2025");
    assert_eq!(format_dmy(31, 12, 1999), "31-12-1999");
    assert_eq!(format_dmy(15, 12, -7), "15-12--7");
    assert_eq!(format_dmy(100, 1, 0), "100-01-0");
    assert_eq!(format_dmy(1, 1, i32::MIN), "01-01--2147483648");
}

#[test]
fn iso_rendering_matches_the_year_field_of_date_formats() {
    let d = |year, month, day| Ymd { year, month, day };
    assert_eq!(format_iso_date(d(2025, 1, 5)), "2025-01-05");
    assert_eq!(format_iso_date(d(12, 11, 30)), "0012-11-30");
    assert_eq!(format_iso_date(d(0, 1, 1)), "0000-01-01");
    assert_eq!(format_iso_date(d(-5, 6, 7)), "-0005-06-07");
    assert_eq!(format_iso_date(d(10000, 2, 29)), "+10000-02-29");
    assert_eq!(format_iso_date(d(-12345, 2, 1)), "-12345-02-01");
}

#[test]
fn date_order() {
    let a = Ymd {
        year: 2025,
        month: 3,
        day: 1,
    };
    let b = Ymd {
        year: 2025,
        month: 3,
        day: 2,
    };
    let c = Ymd {
        year: 2024,
        month: 12,
        day: 31,
    };
    assert!(a.on_or_before(&b));
    assert!(a.on_or_before(&a));
    assert!(!b.on_or_before(&a));
    assert!(c.on_or_before(&a));
    assert!(!a.on_or_before(&c));
}
