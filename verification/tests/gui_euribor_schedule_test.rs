use mortgage_core::calendar::Ymd;
use mortgage_core::euribor::{
    applicable_point, cached_rate_is_current, historical_rates_url, latest_rate_url, provider_id,
};
use mortgage_core::gui::{parse_tenor, DateField, ViewTab, XAxisMode};
use mortgage_core::models::EuriborTenor;
use mortgage_core::schedule::{year_runs, YearRun};

fn ymd(year: i32, month: u32, day: u32) -> Ymd {
    Ymd { year, month, day }
}

#[test]
fn tenor_drop_down() {
    assert_eq!(parse_tenor("12M"), EuriborTenor::TwelveMonths);
    assert_eq!(parse_tenor("1m"), EuriborTenor::OneMonth);
    assert_eq!(parse_tenor("24m"), EuriborTenor::SixMonths);
    assert_eq!(parse_tenor(""), EuriborTenor::SixMonths);
}

#[test]
fn gui_choices() {
    assert_eq!(ViewTab::default(), ViewTab::Table);
    assert_eq!(XAxisMode::default(), XAxisMode::PaymentNumber);
    assert_eq!(XAxisMode::PaymentNumber.toggled(), XAxisMode::Date);
    assert_eq!(XAxisMode::Date.toggled(), XAxisMode::PaymentNumber);
    assert_ne!(DateField::StartDate, DateField::PrepaymentDate);
}

#[test]
fn ecb_series_keys() {
    assert_eq!(provider_id(EuriborTenor::OneMonth), "EURIBOR1MD_");
    assert_eq!(provider_id(EuriborTenor::ThreeMonths), "EURIBOR3MD_");
    assert_eq!(provider_id(EuriborTenor::SixMonths), "EURIBOR6MD_");
    assert_eq!(provider_id(EuriborTenor::TwelveMonths), "EURIBOR1YD_");
}

#[test]
fn ecb_request_addresses() {
    assert_eq!(
        latest_rate_url(EuriborTenor::SixMonths),
        "https://data-api.ecb.europa.eu/service/data/FM/M.U2.EUR.RT.MM.EURIBOR6MD_.?lastNObservations=1&format=jsondata"
    );
    assert_eq!(
        historical_rates_url(EuriborTenor::TwelveMonths, ymd(2024, 10, 1), ymd(2025, 1, 15)),
        "https://data-api.ecb.europa.eu/service/data/FM/M.U2.EUR.RT.MM.EURIBOR1YD_.?startPeriod=2024-10-01&endPeriod=2025-01-15&format=jsondata"
    );
}

#[test]
fn curve_rate_that_applies() {
    let starts = vec![ymd(2026, 1, 1), ymd(2027, 1, 1), ymd(2028, 6, 1)];
    assert_eq!(applicable_point(&starts, ymd(2025, 12, 31)), None);
    assert_eq!(applicable_point(&starts, ymd(2026, 1, 1)), Some(0));
    assert_eq!(applicable_point(&starts, ymd(2027, 5, 1)), Some(1));
    assert_eq!(applicable_point(&starts, ymd(2030, 1, 1)), Some(2));
    assert_eq!(applicable_point(&vec![], ymd(2030, 1, 1)), None);
    // The last matching point in curve order wins, even if it starts earlier.
    let unordered = vec![ymd(2027, 1, 1), ymd(2026, 1, 1)];
    assert_eq!(applicable_point(&unordered, ymd(2027, 6, 1)), Some(1));
}

#[test]
fn cached_rate_reuse() {
    let today = ymd(2025, 3, 10);
    let six = EuriborTenor::SixMonths;
    assert!(cached_rate_is_current(Some(six), Some(today), true, six, today));
    assert!(!cached_rate_is_current(Some(six), Some(today), false, six, today));
    assert!(!cached_rate_is_current(
        Some(EuriborTenor::OneMonth),
        Some(today),
        true,
        six,
        today
    ));
    assert!(!cached_rate_is_current(
        Some(six),
        Some(ymd(2025, 3, 9)),
        true,
        six,
        today
    ));
    assert!(!cached_rate_is_current(None, None, false, six, today));
}

#[test]
fn yearly_runs_of_a_schedule() {
    let years = vec![2025, 2025, 2025, 2026, 2026, 2027];
    assert_eq!(
        year_runs(&years),
        vec![
            YearRun {
                year: 2025,
                first: 0,
                count: 3
            },
            YearRun {
                year: 2026,
                first: 3,
                count: 2
            },
            YearRun {
                year: 2027,
                first: 5,
                count: 1
            },
        ]
    );
    assert!(year_runs(&vec![]).is_empty());
    let ten_years: Vec<i32> = (0..120).map(|m| 2025 + m / 12).collect();
    let runs = year_runs(&ten_years);
    assert_eq!(runs.len(), 10);
    assert_eq!(runs[0].year, 2025);
    assert_eq!(runs[9].year, 2034);
    assert!(runs.iter().all(|r| r.count == 12));
    assert_eq!(runs.iter().map(|r| r.count).sum::<usize>(), 120);
}

#[test]
fn runs_split_on_any_change_of_year() {
    let years = vec![2025, 2026, 2025];
    let runs = year_runs(&years);
    assert_eq!(runs.len(), 3);
    assert_eq!(runs[2].first, 2);
}
