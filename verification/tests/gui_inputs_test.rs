use mortgage_core::calendar::Ymd;
use mortgage_core::gui::{DateField, ViewTab, XAxisMode};
use mortgage_core::gui_form::{manual_point_verdict, GuiInputs, InputMessage, ManualPointVerdict};

fn fresh() -> GuiInputs {
    GuiInputs::starting_on(Ymd {
        year: 2025,
        month: 5,
        day: 12,
    })
}

#[test]
fn default_entries() {
    let g = fresh();
    assert_eq!(g.amount, "185000");
    assert_eq!(g.term, "30");
    assert_eq!(g.currency, "EUR");
    assert_eq!(g.payment_type, "Annuity");
    assert_eq!(g.rate_mode, "Fix");
    assert_eq!(g.start_date, "12-05-2025");
    assert_eq!(g.rent, "900");
    assert_eq!(g.active_tab, ViewTab::Table);
    let d = GuiInputs::default();
    assert_eq!(d.amount, "185000");
}

#[test]
fn text_messages_set_fields() {
    let mut g = fresh();
    g.apply(InputMessage::AmountChanged("200000".to_string()));
    assert_eq!(g.amount, "200000");
    g.apply(InputMessage::CurrencyChanged("USD".to_string()));
    assert_eq!(g.currency, "USD");
    g.apply(InputMessage::RateModeChanged("Mixed".to_string()));
    assert_eq!(g.rate_mode, "Mixed");
    g.apply(InputMessage::StartDateChanged("01012025".to_string()));
    assert_eq!(g.start_date, "01-01-2025");
    g.apply(InputMessage::PrepaymentDateChanged("7".to_string()));
    assert_eq!(g.prepayment_date, "07");
    g.apply(InputMessage::SameSpreadToggled(true));
    assert!(g.same_spread);
}

#[test]
fn tabs_and_hover() {
    let mut g = fresh();
    g.apply(InputMessage::StackedChartMouseMoved(7));
    assert_eq!(g.hovered_payment, Some(7));
    g.apply(InputMessage::ShowYearly);
    assert_eq!(g.active_tab, ViewTab::Yearly);
    assert_eq!(g.hovered_payment, None);
    g.apply(InputMessage::BalanceChartMouseMoved(3));
    g.apply(InputMessage::ShowReverseCalc);
    assert_eq!(g.active_tab, ViewTab::ReverseCalc);
    assert_eq!(g.hovered_payment, Some(3));
    g.apply(InputMessage::BalanceChartMouseLeft);
    assert_eq!(g.hovered_payment, None);
    g.apply(InputMessage::ToggleXAxis);
    assert_eq!(g.x_axis_mode, XAxisMode::Date);
    g.apply(InputMessage::ShowCalculator);
    assert_eq!(g.active_tab, ViewTab::Table);
}

#[test]
fn calendar_picks_a_date() {
    let mut g = fresh();
    g.apply(InputMessage::PrepaymentDateChanged("15-03-2030".to_string()));
    g.apply(InputMessage::OpenCalendar(DateField::PrepaymentDate));
    assert_eq!(g.calendar_target, Some(DateField::PrepaymentDate));
    assert_eq!(
        (
            g.calendar_state.year,
            g.calendar_state.month,
            g.calendar_state.day
        ),
        (2030, 3, 15)
    );
    g.apply(InputMessage::CalendarMonthPrev);
    g.apply(InputMessage::CalendarMonthPrev);
    g.apply(InputMessage::CalendarMonthPrev);
    assert_eq!((g.calendar_state.year, g.calendar_state.month), (2029, 12));
    g.apply(InputMessage::CalendarDaySelect(4));
    assert_eq!(g.prepayment_date, "04-12-2029");
    assert_eq!(g.calendar_target, None);
    g.apply(InputMessage::OpenCalendar(DateField::StartDate));
    g.apply(InputMessage::CalendarMonthNext);
    g.apply(InputMessage::CloseCalendar);
    assert_eq!(g.calendar_target, None);
    assert_eq!(g.start_date, "12-05-2025");
}

#[test]
fn calendar_keeps_its_month_on_an_unreadable_date() {
    let mut g = fresh();
    g.start_date = "not a date".to_string();
    g.apply(InputMessage::OpenCalendar(DateField::StartDate));
    assert_eq!((g.calendar_state.year, g.calendar_state.month), (2025, 5));
}

#[test]
fn manual_points_can_be_removed() {
    let mut g = fresh();
    g.euribor_manual_points = vec![
        ("01-01-2026".to_string(), "3.0".to_string()),
        ("01-01-2027".to_string(), "3.5".to_string()),
    ];
    g.apply(InputMessage::RemoveEuriborManualPoint(5));
    assert_eq!(g.euribor_manual_points.len(), 2);
    assert_eq!(g.status, "");
    g.apply(InputMessage::RemoveEuriborManualPoint(1));
    assert_eq!(g.euribor_manual_points.len(), 1);
    assert_eq!(g.status, "Removed Euribor point #2");
    assert!(!g.status_is_error);
    g.apply(InputMessage::ToggleManualEuribor(true));
    assert!(g.use_manual_euribor);
}

#[test]
fn date_texts_are_read_day_first() {
    let mut g = fresh();
    g.start_date = "29-02-2024".to_string();
    g.apply(InputMessage::OpenCalendar(DateField::StartDate));
    let shown = |g: &GuiInputs| {
        (
            g.calendar_state.year,
            g.calendar_state.month,
            g.calendar_state.day,
        )
    };
    assert_eq!(shown(&g), (2024, 2, 29));
    g.start_date = "29-02-2023".to_string();
    g.apply(InputMessage::OpenCalendar(DateField::StartDate));
    assert_eq!(shown(&g), (2024, 2, 29));
    g.start_date = "2024-02-01".to_string();
    g.apply(InputMessage::OpenCalendar(DateField::StartDate));
    assert_eq!(shown(&g), (2024, 2, 29));
    g.start_date = "01-12-2031".to_string();
    g.apply(InputMessage::OpenCalendar(DateField::StartDate));
    assert_eq!(shown(&g), (2031, 12, 1));
}

#[test]
fn manual_points_join_in_date_order() {
    let mut g = fresh();
    g.euribor_new_date = "01-01-2026".to_string();
    g.euribor_new_rate = "3.0".to_string();
    g.add_manual_point(true);
    assert_eq!(
        g.euribor_manual_points,
        vec![("01-01-2026".to_string(), "3.0".to_string())]
    );
    assert_eq!(g.status, "Added Euribor point #1");
    assert!(!g.status_is_error);
    assert_eq!(g.euribor_new_date, "");
    assert_eq!(g.euribor_new_rate, "");

    g.euribor_new_date = "01-06-2026".to_string();
    g.euribor_new_rate = "three".to_string();
    g.add_manual_point(false);
    assert_eq!(g.status, "Invalid rate");
    assert!(g.status_is_error);
    assert_eq!(g.euribor_manual_points.len(), 1);
    assert_eq!(g.euribor_new_date, "01-06-2026");

    g.euribor_new_date = "2026-06-01".to_string();
    g.euribor_new_rate = "3.5".to_string();
    g.add_manual_point(true);
    assert_eq!(g.status, "Invalid date format (DD-MM-YYYY)");
    assert!(g.status_is_error);

    g.euribor_new_date = "01-01-2026".to_string();
    g.add_manual_point(true);
    assert_eq!(g.status, "Dates must be in chronological order");
    g.euribor_new_date = "31-12-2025".to_string();
    g.add_manual_point(true);
    assert_eq!(g.status, "Dates must be in chronological order");
    assert_eq!(g.euribor_manual_points.len(), 1);

    g.euribor_manual_points
        .push(("someday".to_string(), "9.9".to_string()));
    g.euribor_new_date = "01-02-2026".to_string();
    g.add_manual_point(true);
    assert_eq!(g.status, "Added Euribor point #3");
    assert!(!g.status_is_error);
    assert_eq!(
        g.euribor_manual_points[2],
        ("01-02-2026".to_string(), "3.5".to_string())
    );
}

#[test]
fn manual_point_verdicts() {
    let d = |day: u32| Some(Ymd { year: 2026, month: 3, day });
    let curve = vec![d(1), None, d(10)];
    assert_eq!(manual_point_verdict(false, None, &curve), ManualPointVerdict::InvalidRate);
    assert_eq!(manual_point_verdict(true, None, &curve), ManualPointVerdict::InvalidDate);
    assert_eq!(manual_point_verdict(true, d(10), &curve), ManualPointVerdict::OutOfOrder);
    assert_eq!(manual_point_verdict(true, d(5), &curve), ManualPointVerdict::OutOfOrder);
    assert_eq!(manual_point_verdict(true, d(11), &curve), ManualPointVerdict::Added);
    assert_eq!(manual_point_verdict(true, d(11), &vec![]), ManualPointVerdict::Added);
}

#[test]
fn prepayments_can_be_removed() {
    let mut g = fresh();
    let mut prepayments = vec![10_000.0, 20_000.0, 30_000.0];
    g.remove_prepayment(&mut prepayments, 3);
    assert_eq!(prepayments, vec![10_000.0, 20_000.0, 30_000.0]);
    assert_eq!(g.status, "");
    g.status_is_error = true;
    g.remove_prepayment(&mut prepayments, 1);
    assert_eq!(prepayments, vec![10_000.0, 30_000.0]);
    assert_eq!(g.status, "Removed prepayment. 2 remaining");
    assert!(!g.status_is_error);
    g.remove_prepayment(&mut prepayments, 0);
    g.remove_prepayment(&mut prepayments, 0);
    assert!(prepayments.is_empty());
    assert_eq!(g.status, "Removed prepayment. 0 remaining");
}
