//! The vocabularies of a loan: currency, Euribor tenor, payment schedule type
//! and prepayment effect, with their display forms and their parsers.
use crate::text::{
    all_ascii, ascii_lower, ascii_upper, lowercase_of, to_lowercase, to_uppercase, uppercase_of,
};
use vstd::prelude::*;

verus! {

/// Currency used to format amounts; it does not affect any calculation.
#[derive(Debug, Clone, Copy, PartialEq, Eq, Structural)]
pub enum Currency {
    Usd,
    Eur,
}

/// Euribor tenor (maturity period).
#[derive(Debug, Clone, Copy, PartialEq, Eq, Structural)]
pub enum EuriborTenor {
    OneMonth,
    ThreeMonths,
    SixMonths,
    TwelveMonths,
}

/// Payment schedule type: equal (annuity) payments or a declining balance
/// with equal principal parts.
#[derive(Debug, Clone, Copy, PartialEq, Eq, Structural)]
pub enum PaymentType {
    Annuity,
    Diff,
}

/// Effect of a prepayment on the rest of the schedule.
#[derive(Debug, Clone, Copy, PartialEq, Eq, Structural)]
pub enum PrepaymentEffect {
    /// Reduce the remaining term; the monthly payment stays roughly the same.
    ReduceTerm,
    /// Reduce the monthly payment; the term stays the same.
    ReducePayment,
}

// ---------------------------------------------------------------------------
// Display forms
// ---------------------------------------------------------------------------

/// Symbol printed in front of an amount.
pub open spec fn currency_symbol(c: Currency) -> Seq<char> {
    match c {
        Currency::Usd => seq!['$'],
        Currency::Eur => seq!['€'],
    }
}

/// Display form of a currency: its ISO code.
pub open spec fn currency_text(c: Currency) -> Seq<char> {
    match c {
        Currency::Usd => seq!['U', 'S', 'D'],
        Currency::Eur => seq!['E', 'U', 'R'],
    }
}

/// Display form (and short name) of a tenor.
pub open spec fn tenor_text(t: EuriborTenor) -> Seq<char> {
    match t {
        EuriborTenor::OneMonth => seq!['1', 'm'],
        EuriborTenor::ThreeMonths => seq!['3', 'm'],
        EuriborTenor::SixMonths => seq!['6', 'm'],
        EuriborTenor::TwelveMonths => seq!['1', '2', 'm'],
    }
}

/// Display form of a payment type.
pub open spec fn payment_type_text(p: PaymentType) -> Seq<char> {
    match p {
        PaymentType::Annuity => seq!['A', 'n', 'n', 'u', 'i', 't', 'y'],
        PaymentType::Diff => seq!['D', 'i', 'f', 'f'],
    }
}

/// Display form of a prepayment effect.
pub open spec fn effect_text(e: PrepaymentEffect) -> Seq<char> {
    match e {
        PrepaymentEffect::ReduceTerm => seq!['R', 'e', 'd', 'u', 'c', 'e', 'T', 'e', 'r', 'm'],
        PrepaymentEffect::ReducePayment => seq![
            'R', 'e', 'd', 'u', 'c', 'e', 'P', 'a', 'y', 'm', 'e', 'n', 't',
        ],
    }
}

// ---------------------------------------------------------------------------
// Parsers, stated over the case-mapped input
// ---------------------------------------------------------------------------

/// Currency named by an upper-cased code.
pub open spec fn currency_from_upper(u: Seq<char>) -> Option<Currency> {
    if u == currency_text(Currency::Usd) {
        Some(Currency::Usd)
    } else if u == currency_text(Currency::Eur) {
        Some(Currency::Eur)
    } else {
        None
    }
}

/// Tenor named by a lower-cased name.
pub open spec fn tenor_from_lower(l: Seq<char>) -> Option<EuriborTenor> {
    if l == tenor_text(EuriborTenor::OneMonth) {
        Some(EuriborTenor::OneMonth)
    } else if l == tenor_text(EuriborTenor::ThreeMonths) {
        Some(EuriborTenor::ThreeMonths)
    } else if l == tenor_text(EuriborTenor::SixMonths) {
        Some(EuriborTenor::SixMonths)
    } else if l == tenor_text(EuriborTenor::TwelveMonths) {
        Some(EuriborTenor::TwelveMonths)
    } else {
        None
    }
}

/// `annuity`, the English name of the annuity schedule.
pub open spec fn annuity_word() -> Seq<char> {
    seq!['a', 'n', 'n', 'u', 'i', 't', 'y']
}

/// `annuitet`, the transliterated name accepted as well.
pub open spec fn annuitet_word() -> Seq<char> {
    seq!['a', 'n', 'n', 'u', 'i', 't', 'e', 't']
}

/// `diff`, the name of the declining-balance schedule.
pub open spec fn diff_word() -> Seq<char> {
    seq!['d', 'i', 'f', 'f']
}

/// Payment type named by a lower-cased name.
pub open spec fn payment_type_from_lower(l: Seq<char>) -> Option<PaymentType> {
    if l == annuity_word() || l == annuitet_word() {
        Some(PaymentType::Annuity)
    } else if l == diff_word() {
        Some(PaymentType::Diff)
    } else {
        None
    }
}

/// Prepayment effect named exactly (case matters).
pub open spec fn effect_from_text(s: Seq<char>) -> Option<PrepaymentEffect> {
    if s == effect_text(PrepaymentEffect::ReduceTerm) {
        Some(PrepaymentEffect::ReduceTerm)
    } else if s == effect_text(PrepaymentEffect::ReducePayment) {
        Some(PrepaymentEffect::ReducePayment)
    } else {
        None
    }
}

/// `r` is `Ok(v)` when `found` is `Some(v)`, and otherwise an error whose
/// text is `prefix` followed by the rejected input.
pub open spec fn parse_outcome<T>(
    found: Option<T>,
    prefix: Seq<char>,
    input: Seq<char>,
    r: Result<T, String>,
) -> bool {
    match found {
        Some(v) => r == Ok::<T, String>(v),
        None => r matches Err(msg) && msg@ == prefix + input,
    }
}

/// `Unknown currency: `
pub open spec fn unknown_currency_prefix() -> Seq<char> {
    seq!['U', 'n', 'k', 'n', 'o', 'w', 'n', ' ', 'c', 'u', 'r', 'r', 'e', 'n', 'c', 'y', ':', ' ']
}

/// `Unknown tenor: `
pub open spec fn unknown_tenor_prefix() -> Seq<char> {
    seq!['U', 'n', 'k', 'n', 'o', 'w', 'n', ' ', 't', 'e', 'n', 'o', 'r', ':', ' ']
}

/// `Unknown payment type: `
pub open spec fn unknown_payment_type_prefix() -> Seq<char> {
    seq![
        'U', 'n', 'k', 'n', 'o', 'w', 'n', ' ', 'p', 'a', 'y', 'm', 'e', 'n', 't', ' ', 't', 'y',
        'p', 'e', ':', ' ',
    ]
}

/// `Unknown prepayment effect: `
pub open spec fn unknown_effect_prefix() -> Seq<char> {
    seq![
        'U', 'n', 'k', 'n', 'o', 'w', 'n', ' ', 'p', 'r', 'e', 'p', 'a', 'y', 'm', 'e', 'n', 't',
        ' ', 'e', 'f', 'f', 'e', 'c', 't', ':', ' ',
    ]
}

/// Builds the error text `prefix` + `input`.
fn unknown_value(prefix: &str, input: &str) -> (r: String)
    ensures
        r@ == prefix@ + input@,
{
    String::from_str(prefix).concat(input)
}

impl Currency {
    /// Symbol printed in front of an amount: `$` or `€`.
    pub fn symbol(&self) -> (s: &'static str)
        ensures
            s@ == currency_symbol(*self),
    {
        match self {
            Currency::Usd => {
                proof {
                    reveal_strlit("$");
                }
                "$"
            },
            Currency::Eur => {
                proof {
                    reveal_strlit("€");
                }
                "€"
            },
        }
    }

    /// Display form: `USD` or `EUR`.
    pub fn to_string(&self) -> (s: String)
        ensures
            s@ == currency_text(*self),
    {
        match self {
            Currency::Usd => {
                proof {
                    reveal_strlit("USD");
                }
                String::from_str("USD")
            },
            Currency::Eur => {
                proof {
                    reveal_strlit("EUR");
                }
                String::from_str("EUR")
            },
        }
    }

    /// Parses a currency code in any letter case (`usd`, `Eur`, ...).
    pub fn parse(s: &str) -> (r: Result<Currency, String>)
        ensures
            parse_outcome(currency_from_upper(uppercase_of(s@)), unknown_currency_prefix(), s@, r),
            all_ascii(s@) ==> parse_outcome(
                currency_from_upper(ascii_upper(s@)),
                unknown_currency_prefix(),
                s@,
                r,
            ),
    {
        let upper = to_uppercase(s);
        proof {
            reveal_strlit("USD");
            reveal_strlit("EUR");
            reveal_strlit("Unknown currency: ");
            assert("USD"@ =~= currency_text(Currency::Usd));
            assert("EUR"@ =~= currency_text(Currency::Eur));
            assert("Unknown currency: "@ =~= unknown_currency_prefix());
        }
        if upper == String::from_str("USD") {
            Ok(Currency::Usd)
        } else if upper == String::from_str("EUR") {
            Ok(Currency::Eur)
        } else {
            Err(unknown_value("Unknown currency: ", s))
        }
    }
}

impl EuriborTenor {
    /// Short name: `1m`, `3m`, `6m` or `12m`.
    pub fn as_str(&self) -> (s: &'static str)
        ensures
            s@ == tenor_text(*self),
    {
        proof {
            reveal_strlit("1m");
            reveal_strlit("3m");
            reveal_strlit("6m");
            reveal_strlit("12m");
        }
        match self {
            EuriborTenor::OneMonth => "1m",
            EuriborTenor::ThreeMonths => "3m",
            EuriborTenor::SixMonths => "6m",
            EuriborTenor::TwelveMonths => "12m",
        }
    }

    /// Display form: the short name.
    pub fn to_string(&self) -> (s: String)
        ensures
            s@ == tenor_text(*self),
    {
        String::from_str(self.as_str())
    }

    /// Parses a tenor name in any letter case (`6m`, `12M`, ...).
    pub fn parse(s: &str) -> (r: Result<EuriborTenor, String>)
        ensures
            parse_outcome(tenor_from_lower(lowercase_of(s@)), unknown_tenor_prefix(), s@, r),
            all_ascii(s@) ==> parse_outcome(
                tenor_from_lower(ascii_lower(s@)),
                unknown_tenor_prefix(),
                s@,
                r,
            ),
    {
        let lower = to_lowercase(s);
        proof {
            reveal_strlit("1m");
            reveal_strlit("3m");
            reveal_strlit("6m");
            reveal_strlit("12m");
            reveal_strlit("Unknown tenor: ");
            assert("1m"@ =~= tenor_text(EuriborTenor::OneMonth));
            assert("3m"@ =~= tenor_text(EuriborTenor::ThreeMonths));
            assert("6m"@ =~= tenor_text(EuriborTenor::SixMonths));
            assert("12m"@ =~= tenor_text(EuriborTenor::TwelveMonths));
            assert("Unknown tenor: "@ =~= unknown_tenor_prefix());
        }
        if lower == String::from_str("1m") {
            Ok(EuriborTenor::OneMonth)
        } else if lower == String::from_str("3m") {
            Ok(EuriborTenor::ThreeMonths)
        } else if lower == String::from_str("6m") {
            Ok(EuriborTenor::SixMonths)
        } else if lower == String::from_str("12m") {
            Ok(EuriborTenor::TwelveMonths)
        } else {
            Err(unknown_value("Unknown tenor: ", s))
        }
    }
}

impl Default for EuriborTenor {
    /// The six-month tenor.
    fn default() -> (t: Self)
        ensures
            t == EuriborTenor::SixMonths,
    {
        EuriborTenor::SixMonths
    }
}

impl PaymentType {
    /// Display form: `Annuity` or `Diff`.
    pub fn to_string(&self) -> (s: String)
        ensures
            s@ == payment_type_text(*self),
    {
        proof {
            reveal_strlit("Annuity");
            reveal_strlit("Diff");
        }
        match self {
            PaymentType::Annuity => String::from_str("Annuity"),
            PaymentType::Diff => String::from_str("Diff"),
        }
    }

    /// Parses `annuity`, `annuitet` or `diff`, in any letter case.
    pub fn parse(s: &str) -> (r: Result<PaymentType, String>)
        ensures
            parse_outcome(
                payment_type_from_lower(lowercase_of(s@)),
                unknown_payment_type_prefix(),
                s@,
                r,
            ),
            all_ascii(s@) ==> parse_outcome(
                payment_type_from_lower(ascii_lower(s@)),
                unknown_payment_type_prefix(),
                s@,
                r,
            ),
    {
        let lower = to_lowercase(s);
        proof {
            reveal_strlit("annuity");
            reveal_strlit("annuitet");
            reveal_strlit("diff");
            reveal_strlit("Unknown payment type: ");
            assert("annuity"@ =~= annuity_word());
            assert("annuitet"@ =~= annuitet_word());
            assert("diff"@ =~= diff_word());
            assert("Unknown payment type: "@ =~= unknown_payment_type_prefix());
        }
        if lower == String::from_str("annuity") || lower == String::from_str("annuitet") {
            Ok(PaymentType::Annuity)
        } else if lower == String::from_str("diff") {
            Ok(PaymentType::Diff)
        } else {
            Err(unknown_value("Unknown payment type: ", s))
        }
    }
}

impl PrepaymentEffect {
    /// Display form: `ReduceTerm` or `ReducePayment`.
    pub fn to_string(&self) -> (s: String)
        ensures
            s@ == effect_text(*self),
    {
        proof {
            reveal_strlit("ReduceTerm");
            reveal_strlit("ReducePayment");
        }
        match self {
            PrepaymentEffect::ReduceTerm => String::from_str("ReduceTerm"),
            PrepaymentEffect::ReducePayment => String::from_str("ReducePayment"),
        }
    }

    /// Parses `ReduceTerm` or `ReducePayment`, exactly as written.
    pub fn parse(s: &str) -> (r: Result<PrepaymentEffect, String>)
        ensures
            parse_outcome(effect_from_text(s@), unknown_effect_prefix(), s@, r),
    {
        let owned = String::from_str(s);
        proof {
            reveal_strlit("ReduceTerm");
            reveal_strlit("ReducePayment");
            reveal_strlit("Unknown prepayment effect: ");
            assert("ReduceTerm"@ =~= effect_text(PrepaymentEffect::ReduceTerm));
            assert("ReducePayment"@ =~= effect_text(PrepaymentEffect::ReducePayment));
            assert("Unknown prepayment effect: "@ =~= unknown_effect_prefix());
        }
        if owned == String::from_str("ReduceTerm") {
            Ok(PrepaymentEffect::ReduceTerm)
        } else if owned == String::from_str("ReducePayment") {
            Ok(PrepaymentEffect::ReducePayment)
        } else {
            Err(unknown_value("Unknown prepayment effect: ", s))
        }
    }
}

impl std::str::FromStr for Currency {
    type Err = String;

    fn from_str(s: &str) -> (r: Result<Self, Self::Err>)
        ensures
            parse_outcome(currency_from_upper(uppercase_of(s@)), unknown_currency_prefix(), s@, r),
            all_ascii(s@) ==> parse_outcome(
                currency_from_upper(ascii_upper(s@)),
                unknown_currency_prefix(),
                s@,
                r,
            ),
    {
        Currency::parse(s)
    }
}

impl std::str::FromStr for EuriborTenor {
    type Err = String;

    fn from_str(s: &str) -> (r: Result<Self, Self::Err>)
        ensures
            parse_outcome(tenor_from_lower(lowercase_of(s@)), unknown_tenor_prefix(), s@, r),
            all_ascii(s@) ==> parse_outcome(
                tenor_from_lower(ascii_lower(s@)),
                unknown_tenor_prefix(),
                s@,
                r,
            ),
    {
        EuriborTenor::parse(s)
    }
}

impl std::str::FromStr for PaymentType {
    type Err = String;

    fn from_str(s: &str) -> (r: Result<Self, Self::Err>)
        ensures
            parse_outcome(
                payment_type_from_lower(lowercase_of(s@)),
                unknown_payment_type_prefix(),
                s@,
                r,
            ),
            all_ascii(s@) ==> parse_outcome(
                payment_type_from_lower(ascii_lower(s@)),
                unknown_payment_type_prefix(),
                s@,
                r,
            ),
    {
        PaymentType::parse(s)
    }
}

impl std::str::FromStr for PrepaymentEffect {
    type Err = String;

    fn from_str(s: &str) -> (r: Result<Self, Self::Err>)
        ensures
            parse_outcome(effect_from_text(s@), unknown_effect_prefix(), s@, r),
    {
        PrepaymentEffect::parse(s)
    }
}


// ---------------------------------------------------------------------------
// Laws: every display form parses back to the value it came from
// ---------------------------------------------------------------------------

/// The display form of a currency is ASCII, and upper-casing and parsing it
/// gives the currency back; so `Currency::parse(&c.to_string())` is `Ok(c)`.
pub proof fn currency_text_parses_back(c: Currency)
    ensures
        all_ascii(currency_text(c)),
        currency_from_upper(ascii_upper(currency_text(c))) == Some(c),
{
    assert(ascii_upper(currency_text(c)) =~= currency_text(c));
}

/// The display form of a tenor is ASCII, and lower-casing and parsing it
/// gives the tenor back; so `EuriborTenor::parse(t.as_str())` is `Ok(t)`.
pub proof fn tenor_text_parses_back(t: EuriborTenor)
    ensures
        all_ascii(tenor_text(t)),
        tenor_from_lower(ascii_lower(tenor_text(t))) == Some(t),
{
    assert(ascii_lower(tenor_text(t)) =~= tenor_text(t));
}

/// The display form of a payment type is ASCII, and lower-casing and parsing
/// it gives the payment type back.
pub proof fn payment_type_text_parses_back(p: PaymentType)
    ensures
        all_ascii(payment_type_text(p)),
        payment_type_from_lower(ascii_lower(payment_type_text(p))) == Some(p),
{
    match p {
        PaymentType::Annuity => {
            assert(ascii_lower(payment_type_text(p)) =~= annuity_word());
        },
        PaymentType::Diff => {
            assert(ascii_lower(payment_type_text(p)) =~= diff_word());
        },
    }
}

/// The display form of a prepayment effect parses back to the effect.
pub proof fn effect_text_parses_back(e: PrepaymentEffect)
    ensures
        effect_from_text(effect_text(e)) == Some(e),
{
}

} // verus!
