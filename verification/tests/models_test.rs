use mortgage_core::models::{Currency, EuriborTenor, PaymentType, PrepaymentEffect};

#[test]
fn test_display_currency() {
    assert_eq!(Currency::Usd.to_string(), "USD");
    assert_eq!(Currency::Eur.to_string(), "EUR");
}

#[test]
fn test_display_payment_type() {
    assert_eq!(PaymentType::Annuity.to_string(), "Annuity");
    assert_eq!(PaymentType::Diff.to_string(), "Diff");
}

#[test]
fn test_display_euribor_tenor() {
    assert_eq!(EuriborTenor::OneMonth.to_string(), "1m");
    assert_eq!(EuriborTenor::ThreeMonths.to_string(), "3m");
    assert_eq!(EuriborTenor::SixMonths.to_string(), "6m");
    assert_eq!(EuriborTenor::TwelveMonths.to_string(), "12m");
}

#[test]
fn test_display_prepayment_effect() {
    assert_eq!(PrepaymentEffect::ReduceTerm.to_string(), "ReduceTerm");
    assert_eq!(PrepaymentEffect::ReducePayment.to_string(), "ReducePayment");
}

#[test]
fn test_from_str_currency() {
    assert_eq!("USD".parse::<Currency>().unwrap(), Currency::Usd);
    assert_eq!("eur".parse::<Currency>().unwrap(), Currency::Eur);
    assert_eq!("EUR".parse::<Currency>().unwrap(), Currency::Eur);
    assert!("GBP".parse::<Currency>().is_err());
}

#[test]
fn test_from_str_payment_type() {
    assert_eq!(
        "annuity".parse::<PaymentType>().unwrap(),
        PaymentType::Annuity
    );
    assert_eq!(
        "annuitet".parse::<PaymentType>().unwrap(),
        PaymentType::Annuity
    );
    assert_eq!("diff".parse::<PaymentType>().unwrap(), PaymentType::Diff);
    assert!("unknown".parse::<PaymentType>().is_err());
}

#[test]
fn test_from_str_euribor_tenor() {
    assert_eq!(
        "1m".parse::<EuriborTenor>().unwrap(),
        EuriborTenor::OneMonth
    );
    assert_eq!(
        "3m".parse::<EuriborTenor>().unwrap(),
        EuriborTenor::ThreeMonths
    );
    assert_eq!(
        "6m".parse::<EuriborTenor>().unwrap(),
        EuriborTenor::SixMonths
    );
    assert_eq!(
        "12m".parse::<EuriborTenor>().unwrap(),
        EuriborTenor::TwelveMonths
    );
    assert!("24m".parse::<EuriborTenor>().is_err());
}

#[test]
fn test_from_str_prepayment_effect() {
    assert_eq!(
        "ReduceTerm".parse::<PrepaymentEffect>().unwrap(),
        PrepaymentEffect::ReduceTerm
    );
    assert_eq!(
        "ReducePayment".parse::<PrepaymentEffect>().unwrap(),
        PrepaymentEffect::ReducePayment
    );
    assert!("Unknown".parse::<PrepaymentEffect>().is_err());
}

#[test]
fn currency_symbols() {
    assert_eq!(Currency::Usd.symbol(), "$");
    assert_eq!(Currency::Eur.symbol(), "€");
}

#[test]
fn tenor_short_names() {
    assert_eq!(EuriborTenor::OneMonth.as_str(), "1m");
    assert_eq!(EuriborTenor::TwelveMonths.as_str(), "12m");
    assert_eq!(EuriborTenor::default(), EuriborTenor::SixMonths);
}

#[test]
fn parse_is_case_insensitive_where_documented() {
    assert_eq!(Currency::parse("uSd"), Ok(Currency::Usd));
    assert_eq!(EuriborTenor::parse("12M"), Ok(EuriborTenor::TwelveMonths));
    assert_eq!(PaymentType::parse("DIFF"), Ok(PaymentType::Diff));
    assert_eq!(PaymentType::parse("AnnuiTet"), Ok(PaymentType::Annuity));
    // Prepayment effects are matched exactly.
    assert!(PrepaymentEffect::parse("reduceterm").is_err());
}

#[test]
fn parse_error_messages_name_the_input() {
    assert_eq!(
        Currency::parse("GBP"),
        Err("Unknown currency: GBP".to_string())
    );
    assert_eq!(
        EuriborTenor::parse("24m"),
        Err("Unknown tenor: 24m".to_string())
    );
    assert_eq!(
        PaymentType::parse("fixed"),
        Err("Unknown payment type: fixed".to_string())
    );
    assert_eq!(
        PrepaymentEffect::parse("Skip"),
        Err("Unknown prepayment effect: Skip".to_string())
    );
}

#[test]
fn display_forms_parse_back() {
    for c in [Currency::Usd, Currency::Eur] {
        assert_eq!(Currency::parse(&c.to_string()), Ok(c));
    }
    for t in [
        EuriborTenor::OneMonth,
        EuriborTenor::ThreeMonths,
        EuriborTenor::SixMonths,
        EuriborTenor::TwelveMonths,
    ] {
        assert_eq!(EuriborTenor::parse(&t.to_string()), Ok(t));
        assert_eq!(EuriborTenor::parse(t.as_str()), Ok(t));
    }
    for p in [PaymentType::Annuity, PaymentType::Diff] {
        assert_eq!(PaymentType::parse(&p.to_string()), Ok(p));
    }
    for e in [PrepaymentEffect::ReduceTerm, PrepaymentEffect::ReducePayment] {
        assert_eq!(PrepaymentEffect::parse(&e.to_string()), Ok(e));
    }
}
