//! The input forms of the terminal front end: screens and tabs, the fields
//! each form shows, and the navigation and option cycling of its keys.
use crate::calendar::CalendarState;
use crate::models::{tenor_text, EuriborTenor};
use vstd::prelude::*;

verus! {

/// What the terminal front end shows.
#[derive(Debug, Clone, PartialEq)]
pub enum Screen {
    Form,
    Results,
    Help,
    Popup(String),
    Calendar { field: Field, state: CalendarState },
}

/// The two calculators of the terminal front end.
#[derive(Debug, Clone, Copy, PartialEq, Eq, Structural)]
pub enum Tab {
    Calculator,
    ReverseCalculator,
}

impl Tab {
    /// Title of the tab.
    pub fn label(&self) -> (s: &'static str)
        ensures
            s@ == tab_label(*self),
    {
        proof {
            reveal_strlit("Calculator");
            reveal_strlit("Max Loan");
        }
        match self {
            Tab::Calculator => "Calculator",
            Tab::ReverseCalculator => "Max Loan",
        }
    }

    /// The other tab (what Ctrl+Tab switches to).
    pub fn toggled(&self) -> (t: Tab)
        ensures
            t != *self,
    {
        match self {
            Tab::Calculator => Tab::ReverseCalculator,
            Tab::ReverseCalculator => Tab::Calculator,
        }
    }
}

/// Title of a tab.
pub open spec fn tab_label(t: Tab) -> Seq<char> {
    match t {
        Tab::Calculator => seq!['C', 'a', 'l', 'c', 'u', 'l', 'a', 't', 'o', 'r'],
        Tab::ReverseCalculator => seq!['M', 'a', 'x', ' ', 'L', 'o', 'a', 'n'],
    }
}

/// A field of the loan form.
#[derive(Debug, Clone, Copy, PartialEq, Eq, Structural)]
pub enum Field {
    Amount,
    Term,
    StartDate,
    Currency,
    PaymentType,
    RateMode,
    FixRate,
    FixSpread,
    EuriborTenor,
    EuriborSpread,
    EuriborFetchButton,
    EuriborDate,
    EuriborRate,
    AddEuriborPoint,
    MixedFixYears,
    MixedFixRate,
    MixedFixSpread,
    MixedEuriborTenor,
    MixedEuriborSpread,
    SameSpread,
    PrepaymentDate,
    PrepaymentAmount,
    PrepaymentEffect,
    AddPrepayment,
    UpfrontCost,
    UpfrontPercent,
    DownPayment,
    ExtraMonthlyCost,
}

/// How the left and right keys act on a field.
#[derive(Debug, Clone, Copy, PartialEq, Eq, Structural)]
pub enum FieldChoice {
    /// The keys do nothing.
    NotAChoice,
    /// The keys flip a yes/no setting.
    Toggle,
    /// The keys cycle through this many options.
    Options(i8),
}

/// How the left and right keys act on a field of the loan form.
pub open spec fn field_choice(f: Field) -> FieldChoice {
    match f {
        Field::Currency | Field::PaymentType | Field::PrepaymentEffect => FieldChoice::Options(2),
        Field::RateMode => FieldChoice::Options(3),
        Field::EuriborTenor | Field::MixedEuriborTenor => FieldChoice::Options(4),
        Field::SameSpread => FieldChoice::Toggle,
        _ => FieldChoice::NotAChoice,
    }
}

/// Fields that hold a `DD-MM-YYYY` date.
pub open spec fn is_date(f: Field) -> bool {
    f == Field::StartDate || f == Field::PrepaymentDate || f == Field::EuriborDate
}

impl Field {
    /// The field holds a `DD-MM-YYYY` date (typed with the date mask and
    /// picked from the calendar).
    pub fn is_date_field(&self) -> (b: bool)
        ensures
            b == is_date(*self),
    {
        *self == Field::StartDate || *self == Field::PrepaymentDate || *self == Field::EuriborDate
    }

    /// How the left and right keys act on the field.
    pub fn choice(&self) -> (c: FieldChoice)
        ensures
            c == field_choice(*self),
    {
        match self {
            Field::Currency | Field::PaymentType | Field::PrepaymentEffect => FieldChoice::Options(
                2,
            ),
            Field::RateMode => FieldChoice::Options(3),
            Field::EuriborTenor | Field::MixedEuriborTenor => FieldChoice::Options(4),
            Field::SameSpread => FieldChoice::Toggle,
            _ => FieldChoice::NotAChoice,
        }
    }
}

/// Fields shown first, whatever the rate mode.
pub open spec fn leading_fields() -> Seq<Field> {
    seq![
        Field::Amount,
        Field::DownPayment,
        Field::Term,
        Field::StartDate,
        Field::Currency,
        Field::PaymentType,
        Field::RateMode,
    ]
}

/// Fields of the rate mode with the given index (0 fixed, 1 Euribor,
/// 2 mixed; any other index has none).
pub open spec fn rate_mode_fields(rate_mode: usize) -> Seq<Field> {
    if rate_mode == 0 {
        seq![Field::FixRate, Field::FixSpread]
    } else if rate_mode == 1 {
        seq![
            Field::EuriborTenor,
            Field::EuriborSpread,
            Field::EuriborFetchButton,
            Field::EuriborDate,
            Field::EuriborRate,
            Field::AddEuriborPoint,
        ]
    } else if rate_mode == 2 {
        seq![
            Field::MixedFixYears,
            Field::MixedFixRate,
            Field::MixedFixSpread,
            Field::MixedEuriborTenor,
            Field::MixedEuriborSpread,
            Field::SameSpread,
            Field::EuriborFetchButton,
            Field::EuriborDate,
            Field::EuriborRate,
            Field::AddEuriborPoint,
        ]
    } else {
        seq![]
    }
}

/// Fields shown last, whatever the rate mode.
pub open spec fn trailing_fields() -> Seq<Field> {
    seq![
        Field::PrepaymentDate,
        Field::PrepaymentAmount,
        Field::PrepaymentEffect,
        Field::AddPrepayment,
        Field::UpfrontCost,
        Field::UpfrontPercent,
        Field::ExtraMonthlyCost,
    ]
}

/// Fields of the loan form for a rate mode, in the order the form shows
/// them.
pub open spec fn form_field_list(rate_mode: usize) -> Seq<Field> {
    leading_fields() + rate_mode_fields(rate_mode) + trailing_fields()
}

/// The fields of the loan form for the rate mode with the given index.
pub fn form_fields(rate_mode: usize) -> (v: Vec<Field>)
    ensures
        v@ == form_field_list(rate_mode),
{
    let mut f = vec![
        Field::Amount,
        Field::DownPayment,
        Field::Term,
        Field::StartDate,
        Field::Currency,
        Field::PaymentType,
        Field::RateMode,
    ];
    assert(f@ =~= leading_fields());
    if rate_mode == 0 {
        f.push(Field::FixRate);
        f.push(Field::FixSpread);
    } else if rate_mode == 1 {
        f.push(Field::EuriborTenor);
        f.push(Field::EuriborSpread);
        f.push(Field::EuriborFetchButton);
        f.push(Field::EuriborDate);
        f.push(Field::EuriborRate);
        f.push(Field::AddEuriborPoint);
    } else if rate_mode == 2 {
        f.push(Field::MixedFixYears);
        f.push(Field::MixedFixRate);
        f.push(Field::MixedFixSpread);
        f.push(Field::MixedEuriborTenor);
        f.push(Field::MixedEuriborSpread);
        f.push(Field::SameSpread);
        f.push(Field::EuriborFetchButton);
        f.push(Field::EuriborDate);
        f.push(Field::EuriborRate);
        f.push(Field::AddEuriborPoint);
    }
    assert(f@ =~= leading_fields() + rate_mode_fields(rate_mode));
    f.push(Field::PrepaymentDate);
    f.push(Field::PrepaymentAmount);
    f.push(Field::PrepaymentEffect);
    f.push(Field::AddPrepayment);
    f.push(Field::UpfrontCost);
    f.push(Field::UpfrontPercent);
    f.push(Field::ExtraMonthlyCost);
    assert(f@ =~= form_field_list(rate_mode));
    f
}

/// A field of the maximum-loan form.
#[derive(Debug, Clone, Copy, PartialEq, Eq, Structural)]
pub enum ReverseField {
    TargetPayment,
    PaymentType,
    RateMode,
    FixRate,
    FixSpread,
    EuriborTenor,
    EuriborSpread,
    EuriborFetchButton,
    ExtraMonthlyCost,
}

/// Number of options the left and right keys cycle through on a field of
/// the maximum-loan form, if it is a choice.
pub open spec fn reverse_field_options(f: ReverseField) -> Option<i8> {
    match f {
        ReverseField::PaymentType | ReverseField::RateMode => Some(2i8),
        ReverseField::EuriborTenor => Some(4i8),
        _ => None,
    }
}

impl ReverseField {
    /// Number of options the left and right keys cycle through, if the
    /// field is a choice.
    pub fn options(&self) -> (n: Option<i8>)
        ensures
            n == reverse_field_options(*self),
    {
        match self {
            ReverseField::PaymentType | ReverseField::RateMode => Some(2),
            ReverseField::EuriborTenor => Some(4),
            _ => None,
        }
    }
}


/// The fields of the maximum-loan form for the rate mode with the given
/// index.
pub fn reverse_form_fields(rate_mode: usize) -> (v: Vec<ReverseField>)
    ensures
        v@ == reverse_field_list(rate_mode),
{
    let mut f = vec![ReverseField::TargetPayment, ReverseField::PaymentType, ReverseField::RateMode];
    if rate_mode == 0 {
        f.push(ReverseField::FixRate);
        f.push(ReverseField::FixSpread);
    } else if rate_mode == 1 {
        f.push(ReverseField::EuriborTenor);
        f.push(ReverseField::EuriborSpread);
        f.push(ReverseField::EuriborFetchButton);
    }
    f.push(ReverseField::ExtraMonthlyCost);
    assert(f@ =~= reverse_field_list(rate_mode));
    f
}

/// Fields of the maximum-loan form for a rate mode.
pub open spec fn reverse_field_list(rate_mode: usize) -> Seq<ReverseField> {
    seq![ReverseField::TargetPayment, ReverseField::PaymentType, ReverseField::RateMode] + (
    if rate_mode == 0 {
        seq![ReverseField::FixRate, ReverseField::FixSpread]
    } else if rate_mode == 1 {
        seq![
            ReverseField::EuriborTenor,
            ReverseField::EuriborSpread,
            ReverseField::EuriborFetchButton,
        ]
    } else {
        seq![]
    }) + seq![ReverseField::ExtraMonthlyCost]
}

// ---------------------------------------------------------------------------
// Selection and option cycling
// ---------------------------------------------------------------------------

/// Selection kept when a list of `len` fields replaces the shown one: the
/// old selection, or the last field if the old selection is past the end.
pub open spec fn kept_selection(selected: int, len: int) -> int {
    if selected < len {
        selected
    } else {
        len - 1
    }
}

/// Selection kept after the list of fields changed to `len` entries: the
/// last field if the old selection is past the end.
pub fn clamp_selection(selected: usize, len: usize) -> (s: usize)
    ensures
        s == (if selected >= len {
            if len == 0 {
                0
            } else {
                len - 1
            }
        } else {
            selected as int
        }),
        len > 0 ==> s < len,
{
    if selected >= len {
        len.saturating_sub(1)
    } else {
        selected
    }
}

/// The next field, wrapping around after the last (Tab, Down).
pub fn next_index(selected: usize, len: usize) -> (s: usize)
    requires
        len > 0,
        selected < usize::MAX,
    ensures
        s == (selected + 1) % (len as int),
        s < len,
{
    (selected + 1) % len
}

/// The previous field, wrapping around before the first (Shift+Tab, Up).
pub fn previous_index(selected: usize, len: usize) -> (s: usize)
    requires
        len > 0,
        selected + len <= usize::MAX,
    ensures
        s == (selected + len - 1) % (len as int),
        s < len,
{
    (selected + len - 1) % len
}

/// Option index after cycling `delta` steps through `len` options, starting
/// from `value` taken as an `i8`.
pub open spec fn cycled_index(value: usize, delta: i8, len: i8) -> int {
    (#[verifier::truncate] (value as i8) as int + delta as int) % (len as int)
}

/// Cycles an option index by `delta` steps among `len` options, wrapping
/// around at both ends (Left is -1, Right is +1); the index is taken as an
/// `i8`, and the sum must stay an `i8`.
pub fn cycle_index(value: usize, delta: i8, len: i8) -> (r: usize)
    requires
        len > 0,
        i8::MIN <= #[verifier::truncate] (value as i8) as int + delta as int <= i8::MAX,
    ensures
        r as int == cycled_index(value, delta, len),
        r < len,
{
    let v: i8 = #[verifier::truncate] (value as i8) + delta;
    if v >= 0 {
        (v % len) as usize
    } else {
        let magnitude: i16 = 0i16 - v as i16;
        let m: i16 = magnitude % (len as i16);
        assert((v as int) % (len as int) == (if m == 0 {
            0
        } else {
            len - m
        })) by (nonlinear_arith)
            requires
                v < 0,
                len > 0,
                magnitude == -(v as int),
                m == (magnitude as int) % (len as int),
        ;
        if m == 0 {
            0
        } else {
            (len as i16 - m) as usize
        }
    }
}

// ---------------------------------------------------------------------------
// Tenor choice by index
// ---------------------------------------------------------------------------

/// Tenor chosen by an option index: 0 one month, 1 three months, 2 six
/// months, anything else twelve months.
pub open spec fn tenor_at(idx: usize) -> EuriborTenor {
    if idx == 0 {
        EuriborTenor::OneMonth
    } else if idx == 1 {
        EuriborTenor::ThreeMonths
    } else if idx == 2 {
        EuriborTenor::SixMonths
    } else {
        EuriborTenor::TwelveMonths
    }
}

/// Short name of the tenor chosen by an option index.
pub fn tenor_name(idx: usize) -> (s: &'static str)
    ensures
        s@ == tenor_text(tenor_at(idx)),
{
    proof {
        reveal_strlit("1m");
        reveal_strlit("3m");
        reveal_strlit("6m");
        reveal_strlit("12m");
    }
    match idx {
        0 => "1m",
        1 => "3m",
        2 => "6m",
        _ => "12m",
    }
}

/// Tenor chosen by an option index.
pub fn tenor_from_idx(idx: usize) -> (t: EuriborTenor)
    ensures
        t == tenor_at(idx),
{
    match idx {
        0 => EuriborTenor::OneMonth,
        1 => EuriborTenor::ThreeMonths,
        2 => EuriborTenor::SixMonths,
        _ => EuriborTenor::TwelveMonths,
    }
}

/// Option index of a tenor in the tenor choices (the inverse of
/// `tenor_from_idx`).
pub open spec fn tenor_position(t: EuriborTenor) -> usize {
    match t {
        EuriborTenor::OneMonth => 0,
        EuriborTenor::ThreeMonths => 1,
        EuriborTenor::SixMonths => 2,
        EuriborTenor::TwelveMonths => 3,
    }
}

/// Option index of a tenor in the tenor choices.
pub fn tenor_index(t: EuriborTenor) -> (idx: usize)
    ensures
        idx == tenor_position(t),
{
    match t {
        EuriborTenor::OneMonth => 0,
        EuriborTenor::ThreeMonths => 1,
        EuriborTenor::SixMonths => 2,
        EuriborTenor::TwelveMonths => 3,
    }
}

// ---------------------------------------------------------------------------
// Laws
// ---------------------------------------------------------------------------

/// Choosing a tenor by its option index gives the tenor back, and the name
/// shown for that index is the tenor's short name.
pub proof fn tenor_index_round_trip(t: EuriborTenor)
    ensures
        tenor_at(tenor_position(t)) == t,
        tenor_position(t) < 4,
{
}

/// Every option index below four chooses a different tenor, and its
/// position is the index again.
pub proof fn tenor_choice_round_trip(idx: usize)
    requires
        idx < 4,
    ensures
        tenor_position(tenor_at(idx)) == idx,
{
}

/// Cycling an option one step right and then one step left comes back to
/// it, and the result is always one of the options.
pub proof fn cycle_right_then_left(value: usize, len: i8)
    requires
        0 < len,
        value < len,
    ensures
        0 <= cycled_index(value, 1, len) < len,
        cycled_index(cycled_index(value, 1, len) as usize, -1i8, len) == value,
{
    assert((#[verifier::truncate] (value as i8)) as int == value as int) by (bit_vector)
        requires
            value < 128,
    ;
    let next: usize = cycled_index(value, 1, len) as usize;
    assert(next as int == cycled_index(value, 1, len));
    assert((#[verifier::truncate] (next as i8)) as int == next as int) by (bit_vector)
        requires
            next < 128,
    ;
    assert(cycled_index(value, 1, len) == (value as int + 1) % (len as int));
    if value + 1 < len {
        assert((value as int + 1) % (len as int) == value + 1) by (nonlinear_arith)
            requires
                0 <= value + 1 < len,
        ;
        assert((value as int) % (len as int) == value) by (nonlinear_arith)
            requires
                0 <= value < len,
        ;
        assert(cycled_index(next, -1i8, len) == (next as int - 1) % (len as int));
    } else {
        assert((value as int + 1) % (len as int) == 0) by (nonlinear_arith)
            requires
                value + 1 == len,
                len > 0,
        ;
        assert((0int - 1) % (len as int) == len - 1) by (nonlinear_arith)
            requires
                len > 0,
        ;
        assert(cycled_index(next, -1i8, len) == (next as int - 1) % (len as int));
    }
}

/// Moving the selection to the next field and back returns to the field
/// selected before.
pub proof fn next_then_previous_index(selected: usize, len: usize)
    requires
        selected < len,
        len < usize::MAX,
    ensures
        ((selected + 1) % (len as int) + len - 1) % (len as int) == selected,
{
    assert(((selected + 1) % (len as int) + len - 1) % (len as int) == selected) by (nonlinear_arith)
        requires
            selected < len,
    ;
}

/// Whatever the rate mode, the loan form starts with the amount, down
/// payment, term, start date, currency, payment type and rate mode fields,
/// ends with the prepayment and cost fields, and so a clamped selection is
/// always on a field.
pub proof fn form_fields_frame(rate_mode: usize)
    ensures
        form_field_list(rate_mode).len() >= 14,
        form_field_list(rate_mode).subrange(0, 7) == leading_fields(),
        form_field_list(rate_mode)[3] == Field::StartDate,
        form_field_list(rate_mode)[6] == Field::RateMode,
{
    assert(form_field_list(rate_mode).subrange(0, 7) =~= leading_fields());
}

} // verus!
