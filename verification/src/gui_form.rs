//! The entries of the desktop form and the messages that edit them: text
//! typed into the fields (dates re-formatted as they are typed), the result
//! tab shown, the month picker, the chart axis and hover, and the manual
//! Euribor points. Messages that compute a schedule are handled elsewhere.
use crate::calendar::{
    dmy_date_text, dmy_text, format_date_dmy, format_dmy, is_valid_date, local_today, month_after,
    month_before, ymd_le, GuiCalendarState, Ymd,
};
use crate::date_entry::{filter_date_input, filtered_date};
use crate::gui::{DateField, ViewTab, XAxisMode};
use crate::text::{decimal, push_decimal};
use vstd::prelude::*;

verus! {

/// Date named by a `DD-MM-YYYY` text, as chrono's `NaiveDate::parse_from_str`
/// with the format `%d-%m-%Y` reads it.
pub uninterp spec fn dmy_parse(s: Seq<char>) -> Option<Ymd>;

/// Calls chrono's `NaiveDate::parse_from_str(s, "%d-%m-%Y")` and splits the
/// date into numbers. Trusted: the result is the date the parser reads
/// (named `dmy_parse`), and a date it returns is a valid one. Which texts it
/// accepts is not stated.
#[verifier::external_body]
pub(crate) fn parse_dmy(s: &str) -> (r: Option<Ymd>)
    ensures
        r == dmy_parse(s@),
        r matches Some(d) ==> is_valid_date(d.year as int, d.month as int, d.day as int),
{
    match chrono::NaiveDate::parse_from_str(s, "%d-%m-%Y") {
        Ok(d) => Some(
            Ymd {
                year: chrono::Datelike::year(&d),
                month: chrono::Datelike::month(&d),
                day: chrono::Datelike::day(&d),
            },
        ),
        Err(_) => None,
    }
}

/// What the user has entered and chosen in the desktop form, apart from the
/// prepayments and the computed results.
#[derive(Debug, Clone)]
pub struct GuiInputs {
    pub amount: String,
    pub term: String,
    pub start_date: String,
    pub rate: String,
    pub spread: String,
    pub currency: String,
    pub payment_type: String,
    pub rate_mode: String,
    pub euribor_tenor: String,
    pub euribor_spread: String,
    pub mixed_fix_years: String,
    pub mixed_fix_rate: String,
    pub mixed_fix_spread: String,
    pub mixed_euribor_tenor: String,
    pub mixed_euribor_spread: String,
    pub prepayment_date: String,
    pub prepayment_amount: String,
    pub prepayment_effect: String,
    pub upfront_cost: String,
    pub upfront_percent: String,
    pub down_payment: String,
    pub rent: String,
    pub reverse_target_payment: String,
    pub reverse_payment_type: String,
    pub reverse_rate_mode: String,
    pub reverse_fix_rate: String,
    pub reverse_fix_spread: String,
    pub reverse_euribor_tenor: String,
    pub reverse_euribor_spread: String,
    pub reverse_extra_monthly: String,
    pub same_spread: bool,
    pub active_tab: ViewTab,
    pub status: String,
    pub status_is_error: bool,
    pub calendar_target: Option<DateField>,
    pub calendar_state: GuiCalendarState,
    pub x_axis_mode: XAxisMode,
    pub hovered_payment: Option<usize>,
    /// Manual Euribor points as typed: (date, rate) texts.
    pub euribor_manual_points: Vec<(String, String)>,
    pub euribor_new_date: String,
    pub euribor_new_rate: String,
    pub use_manual_euribor: bool,
}

/// The entries of the desktop form as values.
pub struct GuiInputsView {
    pub amount: Seq<char>,
    pub term: Seq<char>,
    pub start_date: Seq<char>,
    pub rate: Seq<char>,
    pub spread: Seq<char>,
    pub currency: Seq<char>,
    pub payment_type: Seq<char>,
    pub rate_mode: Seq<char>,
    pub euribor_tenor: Seq<char>,
    pub euribor_spread: Seq<char>,
    pub mixed_fix_years: Seq<char>,
    pub mixed_fix_rate: Seq<char>,
    pub mixed_fix_spread: Seq<char>,
    pub mixed_euribor_tenor: Seq<char>,
    pub mixed_euribor_spread: Seq<char>,
    pub prepayment_date: Seq<char>,
    pub prepayment_amount: Seq<char>,
    pub prepayment_effect: Seq<char>,
    pub upfront_cost: Seq<char>,
    pub upfront_percent: Seq<char>,
    pub down_payment: Seq<char>,
    pub rent: Seq<char>,
    pub reverse_target_payment: Seq<char>,
    pub reverse_payment_type: Seq<char>,
    pub reverse_rate_mode: Seq<char>,
    pub reverse_fix_rate: Seq<char>,
    pub reverse_fix_spread: Seq<char>,
    pub reverse_euribor_tenor: Seq<char>,
    pub reverse_euribor_spread: Seq<char>,
    pub reverse_extra_monthly: Seq<char>,
    pub euribor_new_date: Seq<char>,
    pub euribor_new_rate: Seq<char>,
    pub same_spread: bool,
    pub active_tab: ViewTab,
    pub status: Seq<char>,
    pub status_is_error: bool,
    pub calendar_target: Option<DateField>,
    pub calendar_year: int,
    pub calendar_month: int,
    pub calendar_day: int,
    pub x_axis_mode: XAxisMode,
    pub hovered_payment: Option<usize>,
    pub euribor_manual_points: Seq<(Seq<char>, Seq<char>)>,
    pub use_manual_euribor: bool,
}

/// The texts of manual Euribor points.
pub open spec fn point_texts(points: Seq<(String, String)>) -> Seq<(Seq<char>, Seq<char>)> {
    points.map_values(|p: (String, String)| (p.0@, p.1@))
}

impl View for GuiInputs {
    type V = GuiInputsView;

    open spec fn view(&self) -> GuiInputsView {
        GuiInputsView {
            amount: self.amount@,
            term: self.term@,
            start_date: self.start_date@,
            rate: self.rate@,
            spread: self.spread@,
            currency: self.currency@,
            payment_type: self.payment_type@,
            rate_mode: self.rate_mode@,
            euribor_tenor: self.euribor_tenor@,
            euribor_spread: self.euribor_spread@,
            mixed_fix_years: self.mixed_fix_years@,
            mixed_fix_rate: self.mixed_fix_rate@,
            mixed_fix_spread: self.mixed_fix_spread@,
            mixed_euribor_tenor: self.mixed_euribor_tenor@,
            mixed_euribor_spread: self.mixed_euribor_spread@,
            prepayment_date: self.prepayment_date@,
            prepayment_amount: self.prepayment_amount@,
            prepayment_effect: self.prepayment_effect@,
            upfront_cost: self.upfront_cost@,
            upfront_percent: self.upfront_percent@,
            down_payment: self.down_payment@,
            rent: self.rent@,
            reverse_target_payment: self.reverse_target_payment@,
            reverse_payment_type: self.reverse_payment_type@,
            reverse_rate_mode: self.reverse_rate_mode@,
            reverse_fix_rate: self.reverse_fix_rate@,
            reverse_fix_spread: self.reverse_fix_spread@,
            reverse_euribor_tenor: self.reverse_euribor_tenor@,
            reverse_euribor_spread: self.reverse_euribor_spread@,
            reverse_extra_monthly: self.reverse_extra_monthly@,
            euribor_new_date: self.euribor_new_date@,
            euribor_new_rate: self.euribor_new_rate@,
            same_spread: self.same_spread,
            active_tab: self.active_tab,
            status: self.status@,
            status_is_error: self.status_is_error,
            calendar_target: self.calendar_target,
            calendar_year: self.calendar_state.year as int,
            calendar_month: self.calendar_state.month as int,
            calendar_day: self.calendar_state.day as int,
            x_axis_mode: self.x_axis_mode,
            hovered_payment: self.hovered_payment,
            euribor_manual_points: point_texts(self.euribor_manual_points@),
            use_manual_euribor: self.use_manual_euribor,
        }
    }
}

/// A message of the desktop form that edits its entries.
#[derive(Debug, Clone, PartialEq)]
pub enum InputMessage {
    AmountChanged(String),
    TermChanged(String),
    StartDateChanged(String),
    RateChanged(String),
    SpreadChanged(String),
    CurrencyChanged(String),
    PaymentTypeChanged(String),
    RateModeChanged(String),
    EuriborTenorChanged(String),
    EuriborSpreadChanged(String),
    MixedFixYearsChanged(String),
    MixedFixRateChanged(String),
    MixedFixSpreadChanged(String),
    MixedEuriborTenorChanged(String),
    MixedEuriborSpreadChanged(String),
    PrepaymentDateChanged(String),
    PrepaymentAmountChanged(String),
    PrepaymentEffectChanged(String),
    UpfrontCostChanged(String),
    UpfrontPercentChanged(String),
    DownPaymentChanged(String),
    RentChanged(String),
    ReverseTargetChanged(String),
    ReversePaymentTypeChanged(String),
    ReverseRateModeChanged(String),
    ReverseFixRateChanged(String),
    ReverseFixSpreadChanged(String),
    ReverseEuriborTenorChanged(String),
    ReverseEuriborSpreadChanged(String),
    ReverseExtraChanged(String),
    EuriborNewDateChanged(String),
    EuriborNewRateChanged(String),
    SameSpreadToggled(bool),
    ShowTable,
    ShowChart,
    ShowBalanceChart,
    ShowYearly,
    ShowSensitivity,
    ShowBreakEven,
    ShowCalculator,
    ShowReverseCalc,
    OpenCalendar(DateField),
    CloseCalendar,
    CalendarMonthPrev,
    CalendarMonthNext,
    CalendarDaySelect(u32),
    ToggleXAxis,
    StackedChartMouseMoved(usize),
    StackedChartMouseLeft,
    BalanceChartMouseMoved(usize),
    BalanceChartMouseLeft,
    RemoveEuriborManualPoint(usize),
    ToggleManualEuribor(bool),
}

/// `Removed Euribor point #`
pub open spec fn removed_point_prefix() -> Seq<char> {
    "Removed Euribor point #"@
}

/// Entries after a message.
pub open spec fn input_step(v: GuiInputsView, msg: InputMessage) -> GuiInputsView {
    match msg {
        InputMessage::AmountChanged(s) => GuiInputsView { amount: s@, ..v },
        InputMessage::TermChanged(s) => GuiInputsView { term: s@, ..v },
        InputMessage::StartDateChanged(s) => GuiInputsView { start_date: filtered_date(s@), ..v },
        InputMessage::RateChanged(s) => GuiInputsView { rate: s@, ..v },
        InputMessage::SpreadChanged(s) => GuiInputsView { spread: s@, ..v },
        InputMessage::CurrencyChanged(s) => GuiInputsView { currency: s@, ..v },
        InputMessage::PaymentTypeChanged(s) => GuiInputsView { payment_type: s@, ..v },
        InputMessage::RateModeChanged(s) => GuiInputsView { rate_mode: s@, ..v },
        InputMessage::EuriborTenorChanged(s) => GuiInputsView { euribor_tenor: s@, ..v },
        InputMessage::EuriborSpreadChanged(s) => GuiInputsView { euribor_spread: s@, ..v },
        InputMessage::MixedFixYearsChanged(s) => GuiInputsView { mixed_fix_years: s@, ..v },
        InputMessage::MixedFixRateChanged(s) => GuiInputsView { mixed_fix_rate: s@, ..v },
        InputMessage::MixedFixSpreadChanged(s) => GuiInputsView { mixed_fix_spread: s@, ..v },
        InputMessage::MixedEuriborTenorChanged(s) => GuiInputsView { mixed_euribor_tenor: s@, ..v },
        InputMessage::MixedEuriborSpreadChanged(s) => GuiInputsView { mixed_euribor_spread: s@, ..v },
        InputMessage::PrepaymentDateChanged(s) => GuiInputsView { prepayment_date: filtered_date(s@), ..v },
        InputMessage::PrepaymentAmountChanged(s) => GuiInputsView { prepayment_amount: s@, ..v },
        InputMessage::PrepaymentEffectChanged(s) => GuiInputsView { prepayment_effect: s@, ..v },
        InputMessage::UpfrontCostChanged(s) => GuiInputsView { upfront_cost: s@, ..v },
        InputMessage::UpfrontPercentChanged(s) => GuiInputsView { upfront_percent: s@, ..v },
        InputMessage::DownPaymentChanged(s) => GuiInputsView { down_payment: s@, ..v },
        InputMessage::RentChanged(s) => GuiInputsView { rent: s@, ..v },
        InputMessage::ReverseTargetChanged(s) => GuiInputsView { reverse_target_payment: s@, ..v },
        InputMessage::ReversePaymentTypeChanged(s) => GuiInputsView { reverse_payment_type: s@, ..v },
        InputMessage::ReverseRateModeChanged(s) => GuiInputsView { reverse_rate_mode: s@, ..v },
        InputMessage::ReverseFixRateChanged(s) => GuiInputsView { reverse_fix_rate: s@, ..v },
        InputMessage::ReverseFixSpreadChanged(s) => GuiInputsView { reverse_fix_spread: s@, ..v },
        InputMessage::ReverseEuriborTenorChanged(s) => GuiInputsView { reverse_euribor_tenor: s@, ..v },
        InputMessage::ReverseEuriborSpreadChanged(s) => GuiInputsView { reverse_euribor_spread: s@, ..v },
        InputMessage::ReverseExtraChanged(s) => GuiInputsView { reverse_extra_monthly: s@, ..v },
        InputMessage::EuriborNewDateChanged(s) => GuiInputsView { euribor_new_date: s@, ..v },
        InputMessage::EuriborNewRateChanged(s) => GuiInputsView { euribor_new_rate: s@, ..v },
        InputMessage::SameSpreadToggled(b) => GuiInputsView { same_spread: b, ..v },
        InputMessage::ShowTable => GuiInputsView { active_tab: ViewTab::Table, hovered_payment: None, ..v },
        InputMessage::ShowChart => GuiInputsView { active_tab: ViewTab::Chart, hovered_payment: None, ..v },
        InputMessage::ShowBalanceChart => GuiInputsView { active_tab: ViewTab::BalanceChart, hovered_payment: None, ..v },
        InputMessage::ShowYearly => GuiInputsView { active_tab: ViewTab::Yearly, hovered_payment: None, ..v },
        InputMessage::ShowSensitivity => GuiInputsView { active_tab: ViewTab::Sensitivity, hovered_payment: None, ..v },
        InputMessage::ShowBreakEven => GuiInputsView { active_tab: ViewTab::BreakEven, hovered_payment: None, ..v },
        InputMessage::ShowCalculator => GuiInputsView { active_tab: ViewTab::Table, hovered_payment: None, ..v },
        InputMessage::ShowReverseCalc => GuiInputsView { active_tab: ViewTab::ReverseCalc, ..v },
        InputMessage::OpenCalendar(target) => {
            let text = match target {
                DateField::StartDate => v.start_date,
                DateField::PrepaymentDate => v.prepayment_date,
            };
            match dmy_parse(text) {
                Some(d) => GuiInputsView {
                    calendar_target: Some(target),
                    calendar_year: d.year as int,
                    calendar_month: d.month as int,
                    calendar_day: d.day as int,
                    ..v
                },
                None => GuiInputsView { calendar_target: Some(target), ..v },
            }
        },
        InputMessage::CloseCalendar => GuiInputsView { calendar_target: None, ..v },
        InputMessage::CalendarMonthPrev => GuiInputsView {
            calendar_year: month_before(v.calendar_year, v.calendar_month).0,
            calendar_month: month_before(v.calendar_year, v.calendar_month).1,
            ..v
        },
        InputMessage::CalendarMonthNext => GuiInputsView {
            calendar_year: month_after(v.calendar_year, v.calendar_month).0,
            calendar_month: month_after(v.calendar_year, v.calendar_month).1,
            ..v
        },
        InputMessage::CalendarDaySelect(day) => {
            let text = dmy_text(day as nat, v.calendar_month as nat, v.calendar_year);
            match v.calendar_target {
                Some(DateField::StartDate) => GuiInputsView {
                    start_date: text,
                    calendar_target: None,
                    ..v
                },
                Some(DateField::PrepaymentDate) => GuiInputsView {
                    prepayment_date: text,
                    calendar_target: None,
                    ..v
                },
                None => v,
            }
        },
        InputMessage::ToggleXAxis => GuiInputsView {
            x_axis_mode: match v.x_axis_mode {
                XAxisMode::PaymentNumber => XAxisMode::Date,
                XAxisMode::Date => XAxisMode::PaymentNumber,
            },
            ..v
        },
        InputMessage::StackedChartMouseMoved(i) => GuiInputsView { hovered_payment: Some(i), ..v },
        InputMessage::BalanceChartMouseMoved(i) => GuiInputsView { hovered_payment: Some(i), ..v },
        InputMessage::StackedChartMouseLeft => GuiInputsView { hovered_payment: None, ..v },
        InputMessage::BalanceChartMouseLeft => GuiInputsView { hovered_payment: None, ..v },
        InputMessage::RemoveEuriborManualPoint(idx) => if idx < v.euribor_manual_points.len() {
            GuiInputsView {
                euribor_manual_points: v.euribor_manual_points.remove(idx as int),
                status: removed_point_prefix() + decimal((idx + 1) as nat),
                status_is_error: false,
                ..v
            }
        } else {
            v
        },
        InputMessage::ToggleManualEuribor(b) => GuiInputsView { use_manual_euribor: b, ..v },
    }
}

/// The calendar month can be paged without leaving the range of `i32`
/// years or `u32` months.
pub open spec fn can_page(v: GuiInputsView, msg: InputMessage) -> bool {
    &&& msg == InputMessage::CalendarMonthPrev ==> v.calendar_month >= 1 && (v.calendar_month == 1
        ==> v.calendar_year > i32::MIN)
    &&& msg == InputMessage::CalendarMonthNext ==> v.calendar_month < u32::MAX && (v.calendar_month
        == 12 ==> v.calendar_year < i32::MAX)
}

impl GuiInputs {
    /// The entries as the desktop form opens them on `today`.
    pub open spec fn is_fresh(&self, today: Ymd) -> bool {
        &&& self.amount@ == "185000"@
        &&& self.term@ == "30"@
        &&& self.rate@ == "3.6"@
        &&& self.spread@ == "0.0"@
        &&& self.currency@ == "EUR"@
        &&& self.payment_type@ == "Annuity"@
        &&& self.rate_mode@ == "Fix"@
        &&& self.euribor_tenor@ == "6m"@
        &&& self.euribor_spread@ == "1.0"@
        &&& self.mixed_fix_years@ == "2"@
        &&& self.mixed_fix_rate@ == "3.0"@
        &&& self.mixed_fix_spread@ == "1.0"@
        &&& self.mixed_euribor_tenor@ == "6m"@
        &&& self.mixed_euribor_spread@ == "1.5"@
        &&& self.prepayment_date@ == "01-01-2027"@
        &&& self.prepayment_amount@ == "20000"@
        &&& self.prepayment_effect@ == "ReduceTerm"@
        &&& self.upfront_cost@ == "0"@
        &&& self.upfront_percent@ == "5"@
        &&& self.down_payment@ == "0"@
        &&& self.rent@ == "900"@
        &&& self.reverse_target_payment@ == "1000"@
        &&& self.reverse_payment_type@ == "Annuity"@
        &&& self.reverse_rate_mode@ == "Fix"@
        &&& self.reverse_fix_rate@ == "3.6"@
        &&& self.reverse_fix_spread@ == "0.0"@
        &&& self.reverse_euribor_tenor@ == "6m"@
        &&& self.reverse_euribor_spread@ == "1.0"@
        &&& self.reverse_extra_monthly@ == "0"@
        &&& self.start_date@ == dmy_date_text(today)
        &&& !self.same_spread
        &&& self.active_tab == ViewTab::Table
        &&& self.status@.len() == 0
        &&& !self.status_is_error
        &&& self.calendar_target is None
        &&& self.calendar_state.year == today.year
        &&& self.calendar_state.month == today.month
        &&& self.calendar_state.day == today.day
        &&& self.x_axis_mode == XAxisMode::PaymentNumber
        &&& self.hovered_payment is None
        &&& self.euribor_manual_points@.len() == 0
        &&& self.euribor_new_date@.len() == 0
        &&& self.euribor_new_rate@.len() == 0
        &&& !self.use_manual_euribor
    }

    /// The entries as the desktop form opens them on `today`.
    pub fn starting_on(today: Ymd) -> (g: GuiInputs)
        ensures
            g.is_fresh(today),
    {
        GuiInputs {
            amount: String::from_str("185000"),
            term: String::from_str("30"),
            rate: String::from_str("3.6"),
            spread: String::from_str("0.0"),
            currency: String::from_str("EUR"),
            payment_type: String::from_str("Annuity"),
            rate_mode: String::from_str("Fix"),
            euribor_tenor: String::from_str("6m"),
            euribor_spread: String::from_str("1.0"),
            mixed_fix_years: String::from_str("2"),
            mixed_fix_rate: String::from_str("3.0"),
            mixed_fix_spread: String::from_str("1.0"),
            mixed_euribor_tenor: String::from_str("6m"),
            mixed_euribor_spread: String::from_str("1.5"),
            prepayment_date: String::from_str("01-01-2027"),
            prepayment_amount: String::from_str("20000"),
            prepayment_effect: String::from_str("ReduceTerm"),
            upfront_cost: String::from_str("0"),
            upfront_percent: String::from_str("5"),
            down_payment: String::from_str("0"),
            rent: String::from_str("900"),
            reverse_target_payment: String::from_str("1000"),
            reverse_payment_type: String::from_str("Annuity"),
            reverse_rate_mode: String::from_str("Fix"),
            reverse_fix_rate: String::from_str("3.6"),
            reverse_fix_spread: String::from_str("0.0"),
            reverse_euribor_tenor: String::from_str("6m"),
            reverse_euribor_spread: String::from_str("1.0"),
            reverse_extra_monthly: String::from_str("0"),
            start_date: format_date_dmy(today),
            same_spread: false,
            active_tab: ViewTab::Table,
            status: String::new(),
            status_is_error: false,
            calendar_target: None,
            calendar_state: GuiCalendarState { year: today.year, month: today.month, day: today.day },
            x_axis_mode: XAxisMode::PaymentNumber,
            hovered_payment: None,
            euribor_manual_points: Vec::new(),
            euribor_new_date: String::new(),
            euribor_new_rate: String::new(),
            use_manual_euribor: false,
        }
    }

    /// Applies a message of the desktop form to its entries.
    pub fn apply(&mut self, msg: InputMessage)
        requires
            can_page(old(self)@, msg),
        ensures
            final(self)@ == input_step(old(self)@, msg),
    {
        match msg {
            InputMessage::AmountChanged(s) => {
                self.amount = s;
            },
            InputMessage::TermChanged(s) => {
                self.term = s;
            },
            InputMessage::StartDateChanged(s) => {
                self.start_date = filter_date_input(s.as_str());
            },
            InputMessage::RateChanged(s) => {
                self.rate = s;
            },
            InputMessage::SpreadChanged(s) => {
                self.spread = s;
            },
            InputMessage::CurrencyChanged(s) => {
                self.currency = s;
            },
            InputMessage::PaymentTypeChanged(s) => {
                self.payment_type = s;
            },
            InputMessage::RateModeChanged(s) => {
                self.rate_mode = s;
            },
            InputMessage::EuriborTenorChanged(s) => {
                self.euribor_tenor = s;
            },
            InputMessage::EuriborSpreadChanged(s) => {
                self.euribor_spread = s;
            },
            InputMessage::MixedFixYearsChanged(s) => {
                self.mixed_fix_years = s;
            },
            InputMessage::MixedFixRateChanged(s) => {
                self.mixed_fix_rate = s;
            },
            InputMessage::MixedFixSpreadChanged(s) => {
                self.mixed_fix_spread = s;
            },
            InputMessage::MixedEuriborTenorChanged(s) => {
                self.mixed_euribor_tenor = s;
            },
            InputMessage::MixedEuriborSpreadChanged(s) => {
                self.mixed_euribor_spread = s;
            },
            InputMessage::PrepaymentDateChanged(s) => {
                self.prepayment_date = filter_date_input(s.as_str());
            },
            InputMessage::PrepaymentAmountChanged(s) => {
                self.prepayment_amount = s;
            },
            InputMessage::PrepaymentEffectChanged(s) => {
                self.prepayment_effect = s;
            },
            InputMessage::UpfrontCostChanged(s) => {
                self.upfront_cost = s;
            },
            InputMessage::UpfrontPercentChanged(s) => {
                self.upfront_percent = s;
            },
            InputMessage::DownPaymentChanged(s) => {
                self.down_payment = s;
            },
            InputMessage::RentChanged(s) => {
                self.rent = s;
            },
            InputMessage::ReverseTargetChanged(s) => {
                self.reverse_target_payment = s;
            },
            InputMessage::ReversePaymentTypeChanged(s) => {
                self.reverse_payment_type = s;
            },
            InputMessage::ReverseRateModeChanged(s) => {
                self.reverse_rate_mode = s;
            },
            InputMessage::ReverseFixRateChanged(s) => {
                self.reverse_fix_rate = s;
            },
            InputMessage::ReverseFixSpreadChanged(s) => {
                self.reverse_fix_spread = s;
            },
            InputMessage::ReverseEuriborTenorChanged(s) => {
                self.reverse_euribor_tenor = s;
            },
            InputMessage::ReverseEuriborSpreadChanged(s) => {
                self.reverse_euribor_spread = s;
            },
            InputMessage::ReverseExtraChanged(s) => {
                self.reverse_extra_monthly = s;
            },
            InputMessage::EuriborNewDateChanged(s) => {
                self.euribor_new_date = s;
            },
            InputMessage::EuriborNewRateChanged(s) => {
                self.euribor_new_rate = s;
            },
            InputMessage::SameSpreadToggled(b) => {
                self.same_spread = b;
            },
            InputMessage::ShowTable => {
                self.active_tab = ViewTab::Table;
                self.hovered_payment = None;
            },
            InputMessage::ShowChart => {
                self.active_tab = ViewTab::Chart;
                self.hovered_payment = None;
            },
            InputMessage::ShowBalanceChart => {
                self.active_tab = ViewTab::BalanceChart;
                self.hovered_payment = None;
            },
            InputMessage::ShowYearly => {
                self.active_tab = ViewTab::Yearly;
                self.hovered_payment = None;
            },
            InputMessage::ShowSensitivity => {
                self.active_tab = ViewTab::Sensitivity;
                self.hovered_payment = None;
            },
            InputMessage::ShowBreakEven => {
                self.active_tab = ViewTab::BreakEven;
                self.hovered_payment = None;
            },
            InputMessage::ShowCalculator => {
                self.active_tab = ViewTab::Table;
                self.hovered_payment = None;
            },
            InputMessage::ShowReverseCalc => {
                self.active_tab = ViewTab::ReverseCalc;
            },
            InputMessage::OpenCalendar(target) => {
                self.calendar_target = Some(target);
                let parsed = match target {
                    DateField::StartDate => parse_dmy(self.start_date.as_str()),
                    DateField::PrepaymentDate => parse_dmy(self.prepayment_date.as_str()),
                };
                if let Some(d) = parsed {
                    self.calendar_state = GuiCalendarState { year: d.year, month: d.month, day: d.day };
                }
            },
            InputMessage::CloseCalendar => {
                self.calendar_target = None;
            },
            InputMessage::CalendarMonthPrev => {
                self.calendar_state.prev_month();
            },
            InputMessage::CalendarMonthNext => {
                self.calendar_state.next_month();
            },
            InputMessage::CalendarDaySelect(day) => {
                let text = format_dmy(day, self.calendar_state.month, self.calendar_state.year);
                match self.calendar_target {
                    Some(DateField::StartDate) => {
                        self.start_date = text;
                    },
                    Some(DateField::PrepaymentDate) => {
                        self.prepayment_date = text;
                    },
                    None => {},
                }
                self.calendar_target = None;
            },
            InputMessage::ToggleXAxis => {
                self.x_axis_mode = self.x_axis_mode.toggled();
            },
            InputMessage::StackedChartMouseMoved(i) => {
                self.hovered_payment = Some(i);
            },
            InputMessage::BalanceChartMouseMoved(i) => {
                self.hovered_payment = Some(i);
            },
            InputMessage::StackedChartMouseLeft => {
                self.hovered_payment = None;
            },
            InputMessage::BalanceChartMouseLeft => {
                self.hovered_payment = None;
            },
            InputMessage::RemoveEuriborManualPoint(idx) => {
                if idx < self.euribor_manual_points.len() {
                    let ghost before = self.euribor_manual_points@;
                    self.euribor_manual_points.remove(idx);
                    proof {
                        assert(point_texts(self.euribor_manual_points@) =~= point_texts(
                            before,
                        ).remove(idx as int));
                    }
                    let mut status = String::from_str("Removed Euribor point #");
                    push_decimal(&mut status, idx as u64 + 1);
                    self.status = status;
                    self.status_is_error = false;
                }
            },
            InputMessage::ToggleManualEuribor(b) => {
                self.use_manual_euribor = b;
            },
        }
    }
}

/// What becomes of a point typed into the manual Euribor curve.
#[derive(Debug, Clone, Copy, PartialEq, Eq, Structural)]
pub enum ManualPointVerdict {
    /// The point is appended to the curve.
    Added,
    /// The rate text does not read as a number.
    InvalidRate,
    /// The date text is not a `DD-MM-YYYY` date.
    InvalidDate,
    /// The date is not later than a readable date already on the curve.
    OutOfOrder,
}

/// A point dated `d` may not follow a point dated `e`: `e` is a date and `d`
/// is not later than it.
pub open spec fn blocks(d: Ymd, e: Option<Ymd>) -> bool {
    match e {
        Some(e) => ymd_le(d, e),
        None => false,
    }
}

/// `d` is later than every readable date of a curve.
pub open spec fn after_every(d: Ymd, existing: Seq<Option<Ymd>>) -> bool {
    forall|i: int| 0 <= i < existing.len() ==> !#[trigger] blocks(d, existing[i])
}

/// Verdict on a typed point: the rate is checked first, then the date, then
/// that the date comes after every readable date of the curve.
pub open spec fn manual_point_verdict_of(
    rate_is_number: bool,
    new_date: Option<Ymd>,
    existing: Seq<Option<Ymd>>,
) -> ManualPointVerdict {
    if !rate_is_number {
        ManualPointVerdict::InvalidRate
    } else {
        match new_date {
            None => ManualPointVerdict::InvalidDate,
            Some(d) => if after_every(d, existing) {
                ManualPointVerdict::Added
            } else {
                ManualPointVerdict::OutOfOrder
            },
        }
    }
}

/// Decides whether a typed point joins the manual Euribor curve, from
/// whether its rate reads as a number, its date, and the dates read from the
/// points already on the curve (none where a date does not read).
pub fn manual_point_verdict(
    rate_is_number: bool,
    new_date: Option<Ymd>,
    existing: &Vec<Option<Ymd>>,
) -> (v: ManualPointVerdict)
    ensures
        v == manual_point_verdict_of(rate_is_number, new_date, existing@),
{
    if !rate_is_number {
        return ManualPointVerdict::InvalidRate;
    }
    let d = match new_date {
        None => return ManualPointVerdict::InvalidDate,
        Some(d) => d,
    };
    let n = existing.len();
    let mut i: usize = 0;
    while i < n
        invariant
            n == existing@.len(),
            i <= n,
            rate_is_number,
            new_date == Some(d),
            forall|j: int| 0 <= j < i ==> !#[trigger] blocks(d, existing@[j]),
        decreases n - i,
    {
        if let Some(e) = existing[i] {
            if d.on_or_before(&e) {
                assert(blocks(d, existing@[i as int]));
                return ManualPointVerdict::OutOfOrder;
            }
        }
        i = i + 1;
    }
    ManualPointVerdict::Added
}

/// `Added Euribor point #`
pub open spec fn added_point_prefix() -> Seq<char> {
    "Added Euribor point #"@
}

/// Dates read from the points of the manual curve.
pub open spec fn curve_point_dates(v: GuiInputsView) -> Seq<Option<Ymd>> {
    v.euribor_manual_points.map_values(|p: (Seq<char>, Seq<char>)| dmy_parse(p.0))
}

/// Entries after the typed point is offered to the manual curve: appended
/// with the entry boxes cleared, or refused with an error status.
pub open spec fn point_offered(v: GuiInputsView, rate_is_number: bool) -> GuiInputsView {
    match manual_point_verdict_of(rate_is_number, dmy_parse(v.euribor_new_date), curve_point_dates(v)) {
        ManualPointVerdict::Added => GuiInputsView {
            euribor_manual_points: v.euribor_manual_points.push((v.euribor_new_date, v.euribor_new_rate)),
            euribor_new_date: Seq::empty(),
            euribor_new_rate: Seq::empty(),
            status: added_point_prefix() + decimal(v.euribor_manual_points.len() + 1),
            status_is_error: false,
            ..v
        },
        ManualPointVerdict::InvalidRate => GuiInputsView {
            status: "Invalid rate"@,
            status_is_error: true,
            ..v
        },
        ManualPointVerdict::InvalidDate => GuiInputsView {
            status: "Invalid date format (DD-MM-YYYY)"@,
            status_is_error: true,
            ..v
        },
        ManualPointVerdict::OutOfOrder => GuiInputsView {
            status: "Dates must be in chronological order"@,
            status_is_error: true,
            ..v
        },
    }
}

impl GuiInputs {
    /// Offers the point typed into the entry boxes to the manual Euribor
    /// curve; `rate_is_number` tells whether the typed rate reads as a
    /// number.
    pub fn add_manual_point(&mut self, rate_is_number: bool)
        ensures
            final(self)@ == point_offered(old(self)@, rate_is_number),
    {
        let n = self.euribor_manual_points.len();
        let mut dates: Vec<Option<Ymd>> = Vec::new();
        let mut i: usize = 0;
        while i < n
            invariant
                n == self.euribor_manual_points@.len(),
                i <= n,
                dates@.len() == i,
                forall|j: int|
                    0 <= j < i ==> dates@[j] == dmy_parse(
                        #[trigger] self.euribor_manual_points@[j].0@,
                    ),
            decreases n - i,
        {
            dates.push(parse_dmy(self.euribor_manual_points[i].0.as_str()));
            i = i + 1;
        }
        assert(dates@ =~= curve_point_dates(self@));
        let new_date = parse_dmy(self.euribor_new_date.as_str());
        match manual_point_verdict(rate_is_number, new_date, &dates) {
            ManualPointVerdict::Added => {
                let ghost before = self.euribor_manual_points@;
                let date_text = self.euribor_new_date.clone();
                let rate_text = self.euribor_new_rate.clone();
                self.euribor_manual_points.push((date_text, rate_text));
                proof {
                    assert(point_texts(self.euribor_manual_points@) =~= point_texts(before).push(
                        (old(self).euribor_new_date@, old(self).euribor_new_rate@),
                    ));
                }
                self.euribor_new_date = String::new();
                self.euribor_new_rate = String::new();
                let mut status = String::from_str("Added Euribor point #");
                push_decimal(&mut status, self.euribor_manual_points.len() as u64);
                self.status = status;
                self.status_is_error = false;
            },
            ManualPointVerdict::InvalidRate => {
                self.status = String::from_str("Invalid rate");
                self.status_is_error = true;
            },
            ManualPointVerdict::InvalidDate => {
                self.status = String::from_str("Invalid date format (DD-MM-YYYY)");
                self.status_is_error = true;
            },
            ManualPointVerdict::OutOfOrder => {
                self.status = String::from_str("Dates must be in chronological order");
                self.status_is_error = true;
            },
        }
    }
}

/// `Removed prepayment. `
pub open spec fn removed_prepayment_prefix() -> Seq<char> {
    "Removed prepayment. "@
}

/// ` remaining`
pub open spec fn remaining_suffix() -> Seq<char> {
    " remaining"@
}

impl GuiInputs {
    /// Removes the prepayment at `idx` from the desktop form's list, if there
    /// is one, and reports how many remain. The prepayments themselves carry
    /// amounts and are held by the caller; only their order matters here.
    pub fn remove_prepayment<T>(&mut self, prepayments: &mut Vec<T>, idx: usize)
        ensures
            idx < old(prepayments)@.len() ==> {
                &&& final(prepayments)@ == old(prepayments)@.remove(idx as int)
                &&& final(self)@ == GuiInputsView {
                    status: removed_prepayment_prefix() + decimal(
                        (old(prepayments)@.len() - 1) as nat,
                    ) + remaining_suffix(),
                    status_is_error: false,
                    ..old(self)@
                }
            },
            idx >= old(prepayments)@.len() ==> {
                &&& final(prepayments)@ == old(prepayments)@
                &&& final(self)@ == old(self)@
            },
    {
        if idx < prepayments.len() {
            prepayments.remove(idx);
            let mut status = String::from_str("Removed prepayment. ");
            push_decimal(&mut status, prepayments.len() as u64);
            let status = status.concat(" remaining");
            self.status = status;
            self.status_is_error = false;
        }
    }
}

impl Default for GuiInputs {
    /// The entries as the desktop form opens them, on today's date.
    fn default() -> (g: Self)
        ensures
            exists|today: Ymd| g.is_fresh(today),
    {
        GuiInputs::starting_on(local_today())
    }
}


/// A message that an entry of the desktop form changed sets that entry and
/// no other: the rate message sets the rate and leaves the spread, the
/// spread message sets the spread, and so on for every entry; the start and
/// prepayment dates are set to the re-formatted text.
pub proof fn entry_messages_set_their_own_entries(v: GuiInputsView, s: String)
    ensures
        input_step(v, InputMessage::AmountChanged(s)).amount == s@,
        (GuiInputsView { amount: v.amount, ..input_step(v, InputMessage::AmountChanged(s)) }) == v,
        input_step(v, InputMessage::TermChanged(s)).term == s@,
        (GuiInputsView { term: v.term, ..input_step(v, InputMessage::TermChanged(s)) }) == v,
        input_step(v, InputMessage::StartDateChanged(s)).start_date == filtered_date(s@),
        (GuiInputsView { start_date: v.start_date, ..input_step(v, InputMessage::StartDateChanged(s)) }) == v,
        input_step(v, InputMessage::RateChanged(s)).rate == s@,
        (GuiInputsView { rate: v.rate, ..input_step(v, InputMessage::RateChanged(s)) }) == v,
        input_step(v, InputMessage::SpreadChanged(s)).spread == s@,
        (GuiInputsView { spread: v.spread, ..input_step(v, InputMessage::SpreadChanged(s)) }) == v,
        input_step(v, InputMessage::CurrencyChanged(s)).currency == s@,
        (GuiInputsView { currency: v.currency, ..input_step(v, InputMessage::CurrencyChanged(s)) }) == v,
        input_step(v, InputMessage::PaymentTypeChanged(s)).payment_type == s@,
        (GuiInputsView { payment_type: v.payment_type, ..input_step(v, InputMessage::PaymentTypeChanged(s)) }) == v,
        input_step(v, InputMessage::RateModeChanged(s)).rate_mode == s@,
        (GuiInputsView { rate_mode: v.rate_mode, ..input_step(v, InputMessage::RateModeChanged(s)) }) == v,
        input_step(v, InputMessage::EuriborTenorChanged(s)).euribor_tenor == s@,
        (GuiInputsView { euribor_tenor: v.euribor_tenor, ..input_step(v, InputMessage::EuriborTenorChanged(s)) }) == v,
        input_step(v, InputMessage::EuriborSpreadChanged(s)).euribor_spread == s@,
        (GuiInputsView { euribor_spread: v.euribor_spread, ..input_step(v, InputMessage::EuriborSpreadChanged(s)) }) == v,
        input_step(v, InputMessage::MixedFixYearsChanged(s)).mixed_fix_years == s@,
        (GuiInputsView { mixed_fix_years: v.mixed_fix_years, ..input_step(v, InputMessage::MixedFixYearsChanged(s)) }) == v,
        input_step(v, InputMessage::MixedFixRateChanged(s)).mixed_fix_rate == s@,
        (GuiInputsView { mixed_fix_rate: v.mixed_fix_rate, ..input_step(v, InputMessage::MixedFixRateChanged(s)) }) == v,
        input_step(v, InputMessage::MixedFixSpreadChanged(s)).mixed_fix_spread == s@,
        (GuiInputsView { mixed_fix_spread: v.mixed_fix_spread, ..input_step(v, InputMessage::MixedFixSpreadChanged(s)) }) == v,
        input_step(v, InputMessage::MixedEuriborTenorChanged(s)).mixed_euribor_tenor == s@,
        (GuiInputsView { mixed_euribor_tenor: v.mixed_euribor_tenor, ..input_step(v, InputMessage::MixedEuriborTenorChanged(s)) }) == v,
        input_step(v, InputMessage::MixedEuriborSpreadChanged(s)).mixed_euribor_spread == s@,
        (GuiInputsView { mixed_euribor_spread: v.mixed_euribor_spread, ..input_step(v, InputMessage::MixedEuriborSpreadChanged(s)) }) == v,
        input_step(v, InputMessage::PrepaymentDateChanged(s)).prepayment_date == filtered_date(s@),
        (GuiInputsView { prepayment_date: v.prepayment_date, ..input_step(v, InputMessage::PrepaymentDateChanged(s)) }) == v,
        input_step(v, InputMessage::PrepaymentAmountChanged(s)).prepayment_amount == s@,
        (GuiInputsView { prepayment_amount: v.prepayment_amount, ..input_step(v, InputMessage::PrepaymentAmountChanged(s)) }) == v,
        input_step(v, InputMessage::PrepaymentEffectChanged(s)).prepayment_effect == s@,
        (GuiInputsView { prepayment_effect: v.prepayment_effect, ..input_step(v, InputMessage::PrepaymentEffectChanged(s)) }) == v,
        input_step(v, InputMessage::UpfrontCostChanged(s)).upfront_cost == s@,
        (GuiInputsView { upfront_cost: v.upfront_cost, ..input_step(v, InputMessage::UpfrontCostChanged(s)) }) == v,
        input_step(v, InputMessage::UpfrontPercentChanged(s)).upfront_percent == s@,
        (GuiInputsView { upfront_percent: v.upfront_percent, ..input_step(v, InputMessage::UpfrontPercentChanged(s)) }) == v,
        input_step(v, InputMessage::DownPaymentChanged(s)).down_payment == s@,
        (GuiInputsView { down_payment: v.down_payment, ..input_step(v, InputMessage::DownPaymentChanged(s)) }) == v,
        input_step(v, InputMessage::RentChanged(s)).rent == s@,
        (GuiInputsView { rent: v.rent, ..input_step(v, InputMessage::RentChanged(s)) }) == v,
        input_step(v, InputMessage::ReverseTargetChanged(s)).reverse_target_payment == s@,
        (GuiInputsView { reverse_target_payment: v.reverse_target_payment, ..input_step(v, InputMessage::ReverseTargetChanged(s)) }) == v,
        input_step(v, InputMessage::ReversePaymentTypeChanged(s)).reverse_payment_type == s@,
        (GuiInputsView { reverse_payment_type: v.reverse_payment_type, ..input_step(v, InputMessage::ReversePaymentTypeChanged(s)) }) == v,
        input_step(v, InputMessage::ReverseRateModeChanged(s)).reverse_rate_mode == s@,
        (GuiInputsView { reverse_rate_mode: v.reverse_rate_mode, ..input_step(v, InputMessage::ReverseRateModeChanged(s)) }) == v,
        input_step(v, InputMessage::ReverseFixRateChanged(s)).reverse_fix_rate == s@,
        (GuiInputsView { reverse_fix_rate: v.reverse_fix_rate, ..input_step(v, InputMessage::ReverseFixRateChanged(s)) }) == v,
        input_step(v, InputMessage::ReverseFixSpreadChanged(s)).reverse_fix_spread == s@,
        (GuiInputsView { reverse_fix_spread: v.reverse_fix_spread, ..input_step(v, InputMessage::ReverseFixSpreadChanged(s)) }) == v,
        input_step(v, InputMessage::ReverseEuriborTenorChanged(s)).reverse_euribor_tenor == s@,
        (GuiInputsView { reverse_euribor_tenor: v.reverse_euribor_tenor, ..input_step(v, InputMessage::ReverseEuriborTenorChanged(s)) }) == v,
        input_step(v, InputMessage::ReverseEuriborSpreadChanged(s)).reverse_euribor_spread == s@,
        (GuiInputsView { reverse_euribor_spread: v.reverse_euribor_spread, ..input_step(v, InputMessage::ReverseEuriborSpreadChanged(s)) }) == v,
        input_step(v, InputMessage::ReverseExtraChanged(s)).reverse_extra_monthly == s@,
        (GuiInputsView { reverse_extra_monthly: v.reverse_extra_monthly, ..input_step(v, InputMessage::ReverseExtraChanged(s)) }) == v,
        input_step(v, InputMessage::EuriborNewDateChanged(s)).euribor_new_date == s@,
        (GuiInputsView { euribor_new_date: v.euribor_new_date, ..input_step(v, InputMessage::EuriborNewDateChanged(s)) }) == v,
        input_step(v, InputMessage::EuriborNewRateChanged(s)).euribor_new_rate == s@,
        (GuiInputsView { euribor_new_rate: v.euribor_new_rate, ..input_step(v, InputMessage::EuriborNewRateChanged(s)) }) == v,
{
}

/// Each tab message of the desktop form shows its own tab: the table, the
/// two charts, the yearly summary, the sensitivity and break-even analyses,
/// and the maximum-loan calculator; the entries stay as they are.
pub proof fn tab_messages_show_their_own_tabs(v: GuiInputsView)
    ensures
        input_step(v, InputMessage::ShowTable).active_tab == ViewTab::Table,
        input_step(v, InputMessage::ShowTable).amount == v.amount && input_step(v, InputMessage::ShowTable).rate == v.rate,
        input_step(v, InputMessage::ShowChart).active_tab == ViewTab::Chart,
        input_step(v, InputMessage::ShowChart).amount == v.amount && input_step(v, InputMessage::ShowChart).rate == v.rate,
        input_step(v, InputMessage::ShowBalanceChart).active_tab == ViewTab::BalanceChart,
        input_step(v, InputMessage::ShowBalanceChart).amount == v.amount && input_step(v, InputMessage::ShowBalanceChart).rate == v.rate,
        input_step(v, InputMessage::ShowYearly).active_tab == ViewTab::Yearly,
        input_step(v, InputMessage::ShowYearly).amount == v.amount && input_step(v, InputMessage::ShowYearly).rate == v.rate,
        input_step(v, InputMessage::ShowSensitivity).active_tab == ViewTab::Sensitivity,
        input_step(v, InputMessage::ShowSensitivity).amount == v.amount && input_step(v, InputMessage::ShowSensitivity).rate == v.rate,
        input_step(v, InputMessage::ShowBreakEven).active_tab == ViewTab::BreakEven,
        input_step(v, InputMessage::ShowBreakEven).amount == v.amount && input_step(v, InputMessage::ShowBreakEven).rate == v.rate,
        input_step(v, InputMessage::ShowCalculator).active_tab == ViewTab::Table,
        input_step(v, InputMessage::ShowCalculator).amount == v.amount && input_step(v, InputMessage::ShowCalculator).rate == v.rate,
        input_step(v, InputMessage::ShowReverseCalc).active_tab == ViewTab::ReverseCalc,
        input_step(v, InputMessage::ShowReverseCalc).amount == v.amount && input_step(v, InputMessage::ShowReverseCalc).rate == v.rate,
        input_step(v, InputMessage::ShowReverseCalc).hovered_payment == v.hovered_payment,
{
}

/// The two switches of the desktop form set their own settings: the
/// same-spread switch the shared spread, the manual-curve switch the use of
/// the manual Euribor curve.
pub proof fn switch_messages_set_their_own_settings(v: GuiInputsView, b: bool)
    ensures
        input_step(v, InputMessage::SameSpreadToggled(b)).same_spread == b,
        (GuiInputsView { same_spread: v.same_spread, ..input_step(v, InputMessage::SameSpreadToggled(b)) }) == v,
        input_step(v, InputMessage::ToggleManualEuribor(b)).use_manual_euribor == b,
        (GuiInputsView {
            use_manual_euribor: v.use_manual_euribor,
            ..input_step(v, InputMessage::ToggleManualEuribor(b))
        }) == v,
{
}

} // verus!
