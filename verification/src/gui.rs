//! Choices of the desktop front end that carry no amounts: the date fields
//! a picker can fill, the result tabs, the axis of the charts, and the
//! tenor named in a drop-down.
use crate::models::{tenor_from_lower, tenor_text, tenor_text_parses_back, EuriborTenor};
use crate::text::{all_ascii, ascii_lower, lowercase_of};
use vstd::prelude::*;

verus! {

/// The date fields of the desktop form that the month picker can fill.
#[derive(Debug, Clone, Copy, PartialEq, Eq, Structural)]
pub enum DateField {
    StartDate,
    PrepaymentDate,
}

/// The result tabs of the desktop front end.
#[derive(Debug, Clone, Copy, PartialEq, Eq, Structural)]
pub enum ViewTab {
    Table,
    Chart,
    BalanceChart,
    Yearly,
    Sensitivity,
    BreakEven,
    ReverseCalc,
}

impl Default for ViewTab {
    /// The payment table.
    fn default() -> (t: Self)
        ensures
            t == ViewTab::Table,
    {
        ViewTab::Table
    }
}

/// What the horizontal axis of the charts counts.
#[derive(Debug, Clone, Copy, PartialEq, Eq, Structural)]
pub enum XAxisMode {
    PaymentNumber,
    Date,
}

impl Default for XAxisMode {
    /// Payment numbers.
    fn default() -> (m: Self)
        ensures
            m == XAxisMode::PaymentNumber,
    {
        XAxisMode::PaymentNumber
    }
}

impl XAxisMode {
    /// The other axis (what the axis toggle switches to).
    pub fn toggled(&self) -> (m: XAxisMode)
        ensures
            m != *self,
    {
        match self {
            XAxisMode::PaymentNumber => XAxisMode::Date,
            XAxisMode::Date => XAxisMode::PaymentNumber,
        }
    }
}

/// Tenor named in a drop-down, or six months when the name is not a tenor.
pub open spec fn tenor_or_default(s: Seq<char>) -> EuriborTenor {
    match tenor_from_lower(lowercase_of(s)) {
        Some(t) => t,
        None => EuriborTenor::SixMonths,
    }
}

/// Tenor named by `s` in any letter case, or six months when `s` names none.
pub fn parse_tenor(s: &str) -> (t: EuriborTenor)
    ensures
        t == tenor_or_default(s@),
        all_ascii(s@) ==> t == (match tenor_from_lower(ascii_lower(s@)) {
            Some(found) => found,
            None => EuriborTenor::SixMonths,
        }),
{
    match EuriborTenor::parse(s) {
        Ok(t) => t,
        Err(_) => EuriborTenor::SixMonths,
    }
}

/// The drop-down reads back every tenor from its short name.
pub proof fn tenor_names_read_back(t: EuriborTenor)
    ensures
        all_ascii(tenor_text(t)),
        (match tenor_from_lower(ascii_lower(tenor_text(t))) {
            Some(found) => found,
            None => EuriborTenor::SixMonths,
        }) == t,
{
    tenor_text_parses_back(t);
}

} // verus!
