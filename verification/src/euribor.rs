//! Euribor series of the ECB data portal: the series of each tenor, the
//! request addresses for the latest and for a range of observations, the
//! rate of a manual curve that applies on a date, and when a cached rate is
//! still current.
use crate::calendar::{format_iso_date, iso_date_text, ymd_le, Ymd};
use crate::models::EuriborTenor;
use vstd::prelude::*;

verus! {

/// Series key of the ECB monthly Euribor series of a tenor.
pub open spec fn series_code(t: EuriborTenor) -> Seq<char> {
    match t {
        EuriborTenor::OneMonth => "EURIBOR1MD_"@,
        EuriborTenor::ThreeMonths => "EURIBOR3MD_"@,
        EuriborTenor::SixMonths => "EURIBOR6MD_"@,
        EuriborTenor::TwelveMonths => "EURIBOR1YD_"@,
    }
}

/// Series key of the ECB monthly Euribor series of a tenor.
pub fn provider_id(tenor: EuriborTenor) -> (s: &'static str)
    ensures
        s@ == series_code(tenor),
{
    match tenor {
        EuriborTenor::OneMonth => "EURIBOR1MD_",
        EuriborTenor::ThreeMonths => "EURIBOR3MD_",
        EuriborTenor::SixMonths => "EURIBOR6MD_",
        EuriborTenor::TwelveMonths => "EURIBOR1YD_",
    }
}

/// Start of every request address: the monthly money-market series of the
/// FM dataset, up to the series key.
pub open spec fn series_base() -> Seq<char> {
    "https://data-api.ecb.europa.eu/service/data/FM/M.U2.EUR.RT.MM."@
}

/// Address of the latest observation of a tenor's series, as JSON.
pub open spec fn latest_url_text(t: EuriborTenor) -> Seq<char> {
    series_base() + series_code(t) + ".?lastNObservations=1&format=jsondata"@
}

/// Address of the observations of a tenor's series between two dates, as
/// JSON.
pub open spec fn range_url_text(t: EuriborTenor, start: Ymd, end: Ymd) -> Seq<char> {
    series_base() + series_code(t) + ".?startPeriod="@ + iso_date_text(start) + "&endPeriod="@
        + iso_date_text(end) + "&format=jsondata"@
}

/// Request address for the latest Euribor observation of a tenor.
pub fn latest_rate_url(tenor: EuriborTenor) -> (u: String)
    ensures
        u@ == latest_url_text(tenor),
{
    let u = String::from_str("https://data-api.ecb.europa.eu/service/data/FM/M.U2.EUR.RT.MM.")
        .concat(provider_id(tenor)).concat(".?lastNObservations=1&format=jsondata");
    u
}

/// Request address for the Euribor observations of a tenor from `start` to
/// `end`.
pub fn historical_rates_url(tenor: EuriborTenor, start: Ymd, end: Ymd) -> (u: String)
    ensures
        u@ == range_url_text(tenor, start, end),
{
    let start_text = format_iso_date(start);
    let end_text = format_iso_date(end);
    String::from_str("https://data-api.ecb.europa.eu/service/data/FM/M.U2.EUR.RT.MM.").concat(
        provider_id(tenor),
    ).concat(".?startPeriod=").concat(start_text.as_str()).concat("&endPeriod=").concat(
        end_text.as_str(),
    ).concat("&format=jsondata")
}

/// Index of the curve point whose rate applies on `date`: the last point,
/// in the order of the curve, that starts on or before `date`; none if
/// every point starts later.
pub fn applicable_point(starts: &Vec<Ymd>, date: Ymd) -> (r: Option<usize>)
    ensures
        match r {
            Some(i) => {
                &&& i < starts@.len()
                &&& ymd_le(starts@[i as int], date)
                &&& forall|j: int| i < j < starts@.len() ==> !ymd_le(#[trigger] starts@[j], date)
            },
            None => forall|j: int| 0 <= j < starts@.len() ==> !ymd_le(#[trigger] starts@[j], date),
        },
{
    let mut k = starts.len();
    while k > 0
        invariant
            k <= starts@.len(),
            forall|j: int| k <= j < starts@.len() ==> !ymd_le(#[trigger] starts@[j], date),
        decreases k,
    {
        if starts[k - 1].on_or_before(&date) {
            return Some(k - 1);
        }
        k = k - 1;
    }
    None
}

/// A cached rate may be reused: it was fetched for the same tenor on the
/// same day, and a rate is held.
pub open spec fn cache_current(
    cached_tenor: Option<EuriborTenor>,
    fetched_on: Option<Ymd>,
    has_rate: bool,
    tenor: EuriborTenor,
    today: Ymd,
) -> bool {
    cached_tenor == Some(tenor) && fetched_on == Some(today) && has_rate
}

/// Decides whether a cached Euribor rate can be returned without a new
/// request: only a rate fetched today for the same tenor is reused.
pub fn cached_rate_is_current(
    cached_tenor: Option<EuriborTenor>,
    fetched_on: Option<Ymd>,
    has_rate: bool,
    tenor: EuriborTenor,
    today: Ymd,
) -> (b: bool)
    ensures
        b == cache_current(cached_tenor, fetched_on, has_rate, tenor, today),
{
    match (cached_tenor, fetched_on) {
        (Some(t), Some(d)) => has_rate && t == tenor && d == today,
        _ => false,
    }
}

} // verus!
