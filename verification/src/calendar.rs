//! Calendar arithmetic in the proleptic Gregorian calendar over the range of
//! years that dates can take, the month pickers of the two front ends, and
//! the `DD-MM-YYYY` and ISO renderings of dates.
use crate::text::{decimal, digit_char, push_char, push_decimal, zero_padded};
use vstd::prelude::*;

verus! {

/// Smallest year a date can take.
pub const MIN_YEAR: i32 = -262143;

/// Largest year a date can take.
pub const MAX_YEAR: i32 = 262142;

/// Leap year of the proleptic Gregorian calendar.
pub open spec fn is_leap_year(year: int) -> bool {
    year % 4 == 0 && (year % 100 != 0 || year % 400 == 0)
}

/// Number of days of month `month` (1..=12) of `year`.
pub open spec fn month_length(year: int, month: int) -> int {
    if month == 2 {
        if is_leap_year(year) {
            29
        } else {
            28
        }
    } else if month == 4 || month == 6 || month == 9 || month == 11 {
        30
    } else {
        31
    }
}

/// `year`-`month`-`day` is a date: the year is in range, the month is one of
/// the twelve, and the day exists in that month.
pub open spec fn is_valid_date(year: int, month: int, day: int) -> bool {
    &&& MIN_YEAR <= year <= MAX_YEAR
    &&& 1 <= month <= 12
    &&& 1 <= day <= month_length(year, month)
}

/// Length of a month as the date library reports it: the real length for a
/// month whose first day is a date and whose following month is too, and 30
/// for anything else (an invalid month, a year out of range, or the last
/// month of the last year).
pub open spec fn reported_month_length(year: int, month: int) -> int {
    if is_valid_date(year, month, 1) && !(year == MAX_YEAR && month == 12) {
        month_length(year, month)
    } else {
        30
    }
}

/// Leap-year test.
pub fn is_leap(year: i32) -> (b: bool)
    ensures
        b == is_leap_year(year as int),
{
    // Shift by a multiple of 400 so that the remainders are taken of a
    // non-negative number; the leap-year rule only depends on `year % 400`.
    let shifted: i64 = year as i64 + 400 * 10_000_000;
    assert(shifted % 4 == (year as int) % 4) by (nonlinear_arith)
        requires shifted == year as int + 400 * 10_000_000;
    assert(shifted % 100 == (year as int) % 100) by (nonlinear_arith)
        requires shifted == year as int + 400 * 10_000_000;
    assert(shifted % 400 == (year as int) % 400) by (nonlinear_arith)
        requires shifted == year as int + 400 * 10_000_000;
    shifted % 4 == 0 && (shifted % 100 != 0 || shifted % 400 == 0)
}

/// Number of days in `month` of `year`: the real length of the month when
/// it lies in the range of dates (and is not the last month of the last
/// year), and 30 otherwise.
pub fn days_in_month(year: i32, month: u32) -> (d: u32)
    ensures
        d == reported_month_length(year as int, month as int),
        28 <= d <= 31,
{
    if year < MIN_YEAR || year > MAX_YEAR || month < 1 || month > 12 || (year == MAX_YEAR
        && month == 12) {
        return 30;
    }
    if month == 2 {
        if is_leap(year) {
            29
        } else {
            28
        }
    } else if month == 4 || month == 6 || month == 9 || month == 11 {
        30
    } else {
        31
    }
}

/// A calendar date as plain numbers.
#[derive(Debug, Clone, Copy, PartialEq, Eq, Structural)]
pub struct Ymd {
    pub year: i32,
    pub month: u32,
    pub day: u32,
}

/// Chronological order of dates: by year, then month, then day.
pub open spec fn ymd_le(a: Ymd, b: Ymd) -> bool {
    a.year < b.year || (a.year == b.year && (a.month < b.month || (a.month == b.month && a.day
        <= b.day)))
}

impl Ymd {
    /// `self` is on or before `other`.
    pub fn on_or_before(&self, other: &Ymd) -> (b: bool)
        ensures
            b == ymd_le(*self, *other),
    {
        self.year < other.year || (self.year == other.year && (self.month < other.month || (
        self.month == other.month && self.day <= other.day)))
    }
}

/// Calls chrono's `Local::now().date_naive()` and splits the date into
/// numbers. Trusted: the result is a date within the range of years. Which
/// date it is depends on the clock and the local time zone, and is not
/// stated.
#[verifier::external_body]
pub(crate) fn local_today() -> (d: Ymd)
    ensures
        is_valid_date(d.year as int, d.month as int, d.day as int),
{
    let today = chrono::Local::now().date_naive();
    Ymd {
        year: chrono::Datelike::year(&today),
        month: chrono::Datelike::month(&today),
        day: chrono::Datelike::day(&today),
    }
}

// ---------------------------------------------------------------------------
// Month navigation
// ---------------------------------------------------------------------------

/// The month before `(year, month)`.
pub open spec fn month_before(year: int, month: int) -> (int, int) {
    if month == 1 {
        (year - 1, 12)
    } else {
        (year, month - 1)
    }
}

/// The month after `(year, month)`.
pub open spec fn month_after(year: int, month: int) -> (int, int) {
    if month == 12 {
        (year + 1, 1)
    } else {
        (year, month + 1)
    }
}

/// The month picker of the terminal front end: the month shown and the
/// highlighted day, if any.
#[derive(Debug, Clone, PartialEq)]
pub struct CalendarState {
    pub year: i32,
    pub month: u32,
    pub selected_day: Option<u32>,
}

/// A move of the highlighted day or of the month shown in the picker.
#[derive(Debug, Clone, Copy, PartialEq, Eq, Structural)]
pub enum CalendarMove {
    /// One week earlier, if that stays in the month.
    Up,
    /// One week later, if that stays in the month.
    Down,
    /// One day earlier, if that stays in the month.
    Left,
    /// One day later, if that stays in the month.
    Right,
    /// Show the previous month.
    PreviousMonth,
    /// Show the next month.
    NextMonth,
}

/// Highlighted day after a move within the month shown; `dim` is the
/// length of that month.
pub open spec fn day_after_move(day: int, dim: int, mv: CalendarMove) -> int {
    match mv {
        CalendarMove::Up => if day > 7 {
            day - 7
        } else {
            day
        },
        CalendarMove::Down => if day + 7 <= dim {
            day + 7
        } else {
            day
        },
        CalendarMove::Left => if day > 1 {
            day - 1
        } else {
            day
        },
        CalendarMove::Right => if day < dim {
            day + 1
        } else {
            day
        },
        _ => day,
    }
}

impl CalendarState {
    /// Opens the picker on the month of the given date, with its day
    /// highlighted.
    pub fn new(year: i32, month: u32, day: u32) -> (s: Self)
        ensures
            s.year == year,
            s.month == month,
            s.selected_day == Some(day),
    {
        CalendarState { year, month, selected_day: Some(day) }
    }

    /// Shows the previous month (December of the previous year after
    /// January).
    pub fn prev_month(&mut self)
        requires
            old(self).month >= 1,
            old(self).month == 1 ==> old(self).year > i32::MIN,
        ensures
            (final(self).year as int, final(self).month as int) == month_before(
                old(self).year as int,
                old(self).month as int,
            ),
            final(self).selected_day == old(self).selected_day,
    {
        if self.month == 1 {
            self.month = 12;
            self.year = self.year - 1;
        } else {
            self.month = self.month - 1;
        }
    }

    /// Shows the next month (January of the next year after December).
    pub fn next_month(&mut self)
        requires
            old(self).month < u32::MAX,
            old(self).month == 12 ==> old(self).year < i32::MAX,
        ensures
            (final(self).year as int, final(self).month as int) == month_after(
                old(self).year as int,
                old(self).month as int,
            ),
            final(self).selected_day == old(self).selected_day,
    {
        if self.month == 12 {
            self.month = 1;
            self.year = self.year + 1;
        } else {
            self.month = self.month + 1;
        }
    }

    /// Applies a key of the picker: moves the highlighted day within the
    /// month shown, or changes the month.
    pub fn apply_move(&mut self, mv: CalendarMove)
        requires
            mv == CalendarMove::PreviousMonth ==> old(self).month >= 1 && (old(self).month == 1
                ==> old(self).year > i32::MIN),
            mv == CalendarMove::NextMonth ==> old(self).month < u32::MAX && (old(self).month == 12
                ==> old(self).year < i32::MAX),
            mv == CalendarMove::Down ==> (old(self).selected_day matches Some(d) ==> d + 7
                <= u32::MAX),
        ensures
            mv == CalendarMove::PreviousMonth ==> (final(self).year as int, final(self).month as int) == month_before(old(self).year as int, old(self).month as int)
                && final(self).selected_day == old(self).selected_day,
            mv == CalendarMove::NextMonth ==> (final(self).year as int, final(self).month as int) == month_after(old(self).year as int, old(self).month as int)
                && final(self).selected_day == old(self).selected_day,
            mv != CalendarMove::PreviousMonth && mv != CalendarMove::NextMonth ==> {
                &&& final(self).year == old(self).year
                &&& final(self).month == old(self).month
                &&& match old(self).selected_day {
                    None => final(self).selected_day is None,
                    Some(d) => final(self).selected_day == Some(
                        day_after_move(
                            d as int,
                            reported_month_length(old(self).year as int, old(self).month as int),
                            mv,
                        ) as u32,
                    ),
                }
            },
    {
        match mv {
            CalendarMove::PreviousMonth => self.prev_month(),
            CalendarMove::NextMonth => self.next_month(),
            _ => {
                let dim = days_in_month(self.year, self.month);
                if let Some(day) = self.selected_day {
                    let moved = match mv {
                        CalendarMove::Up => if day > 7 {
                            day - 7
                        } else {
                            day
                        },
                        CalendarMove::Down => if day + 7 <= dim {
                            day + 7
                        } else {
                            day
                        },
                        CalendarMove::Left => if day > 1 {
                            day - 1
                        } else {
                            day
                        },
                        _ => if day < dim {
                            day + 1
                        } else {
                            day
                        },
                    };
                    self.selected_day = Some(moved);
                }
            },
        }
    }

    /// The highlighted date in `DD-MM-YYYY` form, if a day is highlighted.
    pub fn selected_date_text(&self) -> (s: Option<String>)
        ensures
            match self.selected_day {
                None => s is None,
                Some(d) => s matches Some(t) && t@ == dmy_text(
                    d as nat,
                    self.month as nat,
                    self.year as int,
                ),
            },
    {
        match self.selected_day {
            None => None,
            Some(day) => Some(format_dmy(day, self.month, self.year)),
        }
    }
}

/// The month picker of the desktop front end: the month shown and the day
/// last picked.
#[derive(Debug, Clone)]
pub struct GuiCalendarState {
    pub year: i32,
    pub month: u32,
    pub day: u32,
}

impl Default for GuiCalendarState {
    /// Opens on today's date.
    fn default() -> (s: Self)
        ensures
            is_valid_date(s.year as int, s.month as int, s.day as int),
    {
        let today = local_today();
        GuiCalendarState { year: today.year, month: today.month, day: today.day }
    }
}

impl GuiCalendarState {
    /// Shows the previous month (December of the previous year after
    /// January).
    pub fn prev_month(&mut self)
        requires
            old(self).month >= 1,
            old(self).month == 1 ==> old(self).year > i32::MIN,
        ensures
            (final(self).year as int, final(self).month as int) == month_before(
                old(self).year as int,
                old(self).month as int,
            ),
            final(self).day == old(self).day,
    {
        if self.month == 1 {
            self.month = 12;
            self.year = self.year - 1;
        } else {
            self.month = self.month - 1;
        }
    }

    /// Shows the next month (January of the next year after December).
    pub fn next_month(&mut self)
        requires
            old(self).month < u32::MAX,
            old(self).month == 12 ==> old(self).year < i32::MAX,
        ensures
            (final(self).year as int, final(self).month as int) == month_after(
                old(self).year as int,
                old(self).month as int,
            ),
            final(self).day == old(self).day,
    {
        if self.month == 12 {
            self.month = 1;
            self.year = self.year + 1;
        } else {
            self.month = self.month + 1;
        }
    }
}

// ---------------------------------------------------------------------------
// Renderings
// ---------------------------------------------------------------------------

/// Decimal rendering of a signed integer: a minus sign for negatives, no
/// padding.
pub open spec fn signed_decimal(n: int) -> Seq<char> {
    if n < 0 {
        seq!['-'] + decimal((-n) as nat)
    } else {
        decimal(n as nat)
    }
}

/// `DD-MM-Y` rendering: day and month zero-padded to two digits, the year
/// as a plain signed number.
pub open spec fn dmy_text(day: nat, month: nat, year: int) -> Seq<char> {
    zero_padded(day, 2) + seq!['-'] + zero_padded(month, 2) + seq!['-'] + signed_decimal(year)
}

/// Year as the `%Y` field of a date format writes it: four digits,
/// zero-padded, for years 0..=9999, and otherwise an explicit sign before at
/// least four digits.
pub open spec fn iso_year_text(year: int) -> Seq<char> {
    if 0 <= year <= 9999 {
        zero_padded(year as nat, 4)
    } else if year < 0 {
        seq!['-'] + zero_padded((-year) as nat, 4)
    } else {
        seq!['+'] + zero_padded(year as nat, 4)
    }
}

/// `YYYY-MM-DD` rendering of a date.
pub open spec fn iso_date_text(d: Ymd) -> Seq<char> {
    iso_year_text(d.year as int) + seq!['-'] + zero_padded(d.month as nat, 2) + seq!['-']
        + zero_padded(d.day as nat, 2)
}

/// `DD-MM-YYYY` rendering of a date as a `%d-%m-%Y` date format writes it:
/// day and month zero-padded to two digits, the year as `%Y` writes it.
pub open spec fn dmy_date_text(d: Ymd) -> Seq<char> {
    zero_padded(d.day as nat, 2) + seq!['-'] + zero_padded(d.month as nat, 2) + seq!['-']
        + iso_year_text(d.year as int)
}

/// Number of digits of the decimal rendering of `n`, by magnitude.
pub proof fn lemma_decimal_len(n: nat)
    ensures
        n < 10 ==> decimal(n).len() == 1,
        10 <= n < 100 ==> decimal(n).len() == 2,
        100 <= n < 1000 ==> decimal(n).len() == 3,
        1000 <= n ==> decimal(n).len() >= 4,
    decreases n,
{
    if n >= 10 {
        lemma_decimal_len(n / 10);
    }
}

/// Appends `count` zeros.
fn push_zeros(s: &mut String, count: u64)
    ensures
        final(s)@ == old(s)@ + Seq::new(count as nat, |i: int| '0'),
{
    let mut k: u64 = 0;
    while k < count
        invariant
            k <= count,
            s@ == old(s)@ + Seq::new(k as nat, |i: int| '0'),
        decreases count - k,
    {
        push_char(s, '0');
        k = k + 1;
        assert(s@ =~= old(s)@ + Seq::new(k as nat, |i: int| '0'));
    }
}

/// Appends `n` zero-padded to at least `width` digits.
fn push_zero_padded(s: &mut String, n: u64, width: u64)
    requires
        width <= 4,
    ensures
        final(s)@ == old(s)@ + zero_padded(n as nat, width as nat),
{
    proof {
        lemma_decimal_len(n as nat);
    }
    let len: u64 = if n < 10 {
        1
    } else if n < 100 {
        2
    } else if n < 1000 {
        3
    } else {
        4
    };
    if len < width {
        push_zeros(s, width - len);
    }
    let ghost mid = s@;
    push_decimal(s, n);
    assert(s@ =~= old(s)@ + zero_padded(n as nat, width as nat));
}

/// Appends the decimal rendering of a signed number.
fn push_signed_decimal(s: &mut String, n: i32)
    ensures
        final(s)@ == old(s)@ + signed_decimal(n as int),
{
    if n < 0 {
        push_char(s, '-');
        let magnitude: u64 = (0i64 - n as i64) as u64;
        push_decimal(s, magnitude);
        assert(s@ =~= old(s)@ + signed_decimal(n as int));
    } else {
        push_decimal(s, n as u64);
    }
}

/// `DD-MM-Y` rendering of a day, month and year, as the pickers write a
/// picked date into a date field.
pub fn format_dmy(day: u32, month: u32, year: i32) -> (s: String)
    ensures
        s@ == dmy_text(day as nat, month as nat, year as int),
{
    let mut s = String::new();
    push_zero_padded(&mut s, day as u64, 2);
    push_char(&mut s, '-');
    push_zero_padded(&mut s, month as u64, 2);
    push_char(&mut s, '-');
    push_signed_decimal(&mut s, year);
    assert(s@ =~= dmy_text(day as nat, month as nat, year as int));
    s
}

/// `YYYY-MM-DD` rendering of a date, with the year written as the `%Y`
/// field of a date format writes it.
pub fn format_iso_date(d: Ymd) -> (s: String)
    ensures
        s@ == iso_date_text(d),
{
    let mut s = String::new();
    if 0 <= d.year && d.year <= 9999 {
        push_zero_padded(&mut s, d.year as u64, 4);
    } else if d.year < 0 {
        push_char(&mut s, '-');
        let magnitude: u64 = (0i64 - d.year as i64) as u64;
        push_zero_padded(&mut s, magnitude, 4);
    } else {
        push_char(&mut s, '+');
        push_zero_padded(&mut s, d.year as u64, 4);
    }
    let ghost year_part = s@;
    assert(year_part =~= iso_year_text(d.year as int));
    push_char(&mut s, '-');
    push_zero_padded(&mut s, d.month as u64, 2);
    push_char(&mut s, '-');
    push_zero_padded(&mut s, d.day as u64, 2);
    assert(s@ =~= iso_date_text(d));
    s
}

/// Appends the year as the `%Y` field of a date format writes it.
fn push_iso_year(s: &mut String, year: i32)
    ensures
        final(s)@ == old(s)@ + iso_year_text(year as int),
{
    if 0 <= year && year <= 9999 {
        push_zero_padded(s, year as u64, 4);
    } else if year < 0 {
        push_char(s, '-');
        let magnitude: u64 = (0i64 - year as i64) as u64;
        push_zero_padded(s, magnitude, 4);
        assert(s@ =~= old(s)@ + iso_year_text(year as int));
    } else {
        push_char(s, '+');
        push_zero_padded(s, year as u64, 4);
        assert(s@ =~= old(s)@ + iso_year_text(year as int));
    }
}

/// `DD-MM-YYYY` rendering of a date, as the `%d-%m-%Y` date format writes
/// it (how the forms show today's date).
pub fn format_date_dmy(d: Ymd) -> (s: String)
    ensures
        s@ == dmy_date_text(d),
{
    let mut s = String::new();
    push_zero_padded(&mut s, d.day as u64, 2);
    push_char(&mut s, '-');
    push_zero_padded(&mut s, d.month as u64, 2);
    push_char(&mut s, '-');
    push_iso_year(&mut s, d.year);
    assert(s@ =~= dmy_date_text(d));
    s
}

// ---------------------------------------------------------------------------
// Laws
// ---------------------------------------------------------------------------

/// Paging forward one month and then back one month shows the month shown
/// before, and the month number stays one of the twelve.
pub proof fn next_then_previous_month(year: int, month: int)
    requires
        1 <= month <= 12,
    ensures
        1 <= month_after(year, month).1 <= 12,
        month_before(month_after(year, month).0, month_after(year, month).1) == (year, month),
{
}

/// Paging back one month and then forward one month shows the month shown
/// before, and the month number stays one of the twelve.
pub proof fn previous_then_next_month(year: int, month: int)
    requires
        1 <= month <= 12,
    ensures
        1 <= month_before(year, month).1 <= 12,
        month_after(month_before(year, month).0, month_before(year, month).1) == (year, month),
{
}

/// A move of the highlighted day keeps it inside the month shown.
pub proof fn day_move_stays_in_month(day: int, dim: int, mv: CalendarMove)
    requires
        1 <= day <= dim,
    ensures
        1 <= day_after_move(day, dim, mv) <= dim,
{
}

/// Every month of a year in range has 28 to 31 days, and February has 29
/// exactly in leap years.
pub proof fn month_lengths(year: int, month: int)
    requires
        MIN_YEAR <= year <= MAX_YEAR,
        1 <= month <= 12,
    ensures
        28 <= month_length(year, month) <= 31,
        month == 2 ==> (month_length(year, month) == 29 <==> is_leap_year(year)),
{
}

/// A picked date renders as exactly ten characters `DD-MM-YYYY` when its
/// year has four digits.
pub proof fn picked_date_text_length(day: nat, month: nat, year: int)
    requires
        1 <= day <= 31,
        1 <= month <= 12,
        1000 <= year <= 9999,
    ensures
        dmy_text(day, month, year).len() == 10,
{
    lemma_decimal_len(day);
    lemma_decimal_len(month);
    lemma_decimal_len(year as nat);
    assert(decimal(year as nat).len() == 4) by {
        assert(decimal(year as nat) == decimal(year as nat / 10).push(digit_char(
            (year as nat % 10) as int,
        )));
        lemma_decimal_len(year as nat / 10);
    }
}


/// Dates are ordered by year, then by month, then by day: a date of an
/// earlier year comes first, and so does a date of an earlier month of the
/// same year, whatever the days; within one month the earlier day comes
/// first.
pub proof fn dates_order_by_year_then_month_then_day(a: Ymd, b: Ymd)
    ensures
        a.year < b.year ==> ymd_le(a, b),
        a.year > b.year ==> !ymd_le(a, b),
        a.year == b.year && a.month < b.month ==> ymd_le(a, b),
        a.year == b.year && a.month > b.month ==> !ymd_le(a, b),
        a.year == b.year && a.month == b.month ==> (ymd_le(a, b) <==> a.day <= b.day),
{
}

/// The order of dates is a total order: every date is on or before itself,
/// of two dates one is on or before the other, two dates each on or before
/// the other are the same date, and it is transitive.
pub proof fn date_order_is_total(a: Ymd, b: Ymd, c: Ymd)
    ensures
        ymd_le(a, a),
        ymd_le(a, b) || ymd_le(b, a),
        ymd_le(a, b) && ymd_le(b, a) ==> a == b,
        ymd_le(a, b) && ymd_le(b, c) ==> ymd_le(a, c),
{
}

/// The months other than February alternate between 31 and 30 days, from 31
/// in January up to July and again from 31 in August: January, March, May,
/// July, August, October and December have 31 days, April, June, September
/// and November 30. This is what the pickers report for every month of a
/// year in range (the last month of the last year aside).
pub proof fn months_alternate_between_31_and_30_days(year: int, month: int)
    requires
        1 <= month <= 12,
        month != 2,
    ensures
        month_length(year, month) == (if (month % 2 == 1) == (month <= 7) {
            31int
        } else {
            30int
        }),
        MIN_YEAR <= year <= MAX_YEAR && !(year == MAX_YEAR && month == 12) ==> reported_month_length(
            year,
            month,
        ) == (if (month % 2 == 1) == (month <= 7) {
            31int
        } else {
            30int
        }),
{
}

/// The twelve months of a year add up to 365 days, or 366 in a leap year;
/// in a year in range the pickers report the same for the first eleven
/// months and December.
pub proof fn months_add_up_to_the_year(year: int)
    ensures
        month_length(year, 1) + month_length(year, 2) + month_length(year, 3) + month_length(year, 4)
            + month_length(year, 5) + month_length(year, 6) + month_length(year, 7) + month_length(
            year,
            8,
        ) + month_length(year, 9) + month_length(year, 10) + month_length(year, 11) + month_length(
            year,
            12,
        ) == (if is_leap_year(year) {
            366int
        } else {
            365int
        }),
        MIN_YEAR <= year < MAX_YEAR ==> reported_month_length(year, 1) + reported_month_length(year, 2)
            + reported_month_length(year, 3) + reported_month_length(year, 4) + reported_month_length(
            year,
            5,
        ) + reported_month_length(year, 6) + reported_month_length(year, 7) + reported_month_length(
            year,
            8,
        ) + reported_month_length(year, 9) + reported_month_length(year, 10) + reported_month_length(
            year,
            11,
        ) + reported_month_length(year, 12) == (if is_leap_year(year) {
            366int
        } else {
            365int
        }),
{
}

/// A year is a leap year exactly when it is divisible by 400, or by 4 but
/// not by 100: 2024 and 2000 are, 2025 and 1900 are not.
pub proof fn leap_years_follow_the_gregorian_rule(year: int)
    ensures
        year % 400 == 0 ==> is_leap_year(year),
        year % 4 != 0 ==> !is_leap_year(year),
        year % 100 == 0 && year % 400 != 0 ==> !is_leap_year(year),
        year % 4 == 0 && year % 100 != 0 ==> is_leap_year(year),
{
}

} // verus!
