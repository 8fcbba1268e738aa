use mortgage_core::calendar::CalendarState;
use mortgage_core::models::EuriborTenor;
use mortgage_core::tui::{
    clamp_selection, cycle_index, form_fields, next_index, previous_index, reverse_form_fields,
    tenor_from_idx, tenor_index, tenor_name, Field, FieldChoice, ReverseField, Screen, Tab,
};

#[test]
fn tab_labels_and_switching() {
    assert_eq!(Tab::Calculator.label(), "Calculator");
    assert_eq!(Tab::ReverseCalculator.label(), "Max Loan");
    assert_eq!(Tab::Calculator.toggled(), Tab::ReverseCalculator);
    assert_eq!(Tab::ReverseCalculator.toggled(), Tab::Calculator);
}

#[test]
fn form_fields_per_rate_mode() {
    let fixed = form_fields(0);
    assert_eq!(fixed.len(), 16);
    assert_eq!(fixed[0], Field::Amount);
    assert_eq!(fixed[1], Field::DownPayment);
    assert_eq!(fixed[7], Field::FixRate);
    assert_eq!(fixed[15], Field::ExtraMonthlyCost);
    let euribor = form_fields(1);
    assert_eq!(euribor.len(), 20);
    assert_eq!(euribor[7], Field::EuriborTenor);
    assert_eq!(euribor[12], Field::AddEuriborPoint);
    let mixed = form_fields(2);
    assert_eq!(mixed.len(), 24);
    assert_eq!(mixed[12], Field::SameSpread);
    assert_eq!(form_fields(9).len(), 14);
}

#[test]
fn reverse_fields_per_rate_mode() {
    assert_eq!(
        reverse_form_fields(0),
        vec![
            ReverseField::TargetPayment,
            ReverseField::PaymentType,
            ReverseField::RateMode,
            ReverseField::FixRate,
            ReverseField::FixSpread,
            ReverseField::ExtraMonthlyCost
        ]
    );
    assert_eq!(reverse_form_fields(1).len(), 7);
    assert_eq!(reverse_form_fields(2).len(), 4);
    assert_eq!(ReverseField::EuriborTenor.options(), Some(4));
    assert_eq!(ReverseField::RateMode.options(), Some(2));
    assert_eq!(ReverseField::FixRate.options(), None);
}

#[test]
fn field_kinds() {
    assert!(Field::StartDate.is_date_field());
    assert!(Field::EuriborDate.is_date_field());
    assert!(!Field::Amount.is_date_field());
    assert_eq!(Field::RateMode.choice(), FieldChoice::Options(3));
    assert_eq!(Field::MixedEuriborTenor.choice(), FieldChoice::Options(4));
    assert_eq!(Field::Currency.choice(), FieldChoice::Options(2));
    assert_eq!(Field::SameSpread.choice(), FieldChoice::Toggle);
    assert_eq!(Field::Term.choice(), FieldChoice::NotAChoice);
}

#[test]
fn selection_moves_and_clamps() {
    assert_eq!(next_index(3, 16), 4);
    assert_eq!(next_index(15, 16), 0);
    assert_eq!(previous_index(0, 16), 15);
    assert_eq!(previous_index(5, 16), 4);
    assert_eq!(clamp_selection(20, 16), 15);
    assert_eq!(clamp_selection(3, 16), 3);
    assert_eq!(clamp_selection(5, 0), 0);
}

#[test]
fn option_cycling_wraps() {
    assert_eq!(cycle_index(0, -1, 3), 2);
    assert_eq!(cycle_index(2, 1, 3), 0);
    assert_eq!(cycle_index(1, 1, 4), 2);
    assert_eq!(cycle_index(0, -1, 2), 1);
    assert_eq!(cycle_index(1, 1, 2), 0);
}

#[test]
fn tenor_choices() {
    assert_eq!(tenor_name(0), "1m");
    assert_eq!(tenor_name(1), "3m");
    assert_eq!(tenor_name(2), "6m");
    assert_eq!(tenor_name(7), "12m");
    assert_eq!(tenor_from_idx(2), EuriborTenor::SixMonths);
    assert_eq!(tenor_from_idx(99), EuriborTenor::TwelveMonths);
    for idx in 0..4 {
        assert_eq!(tenor_index(tenor_from_idx(idx)), idx);
        assert_eq!(tenor_name(idx), tenor_from_idx(idx).as_str());
    }
}

#[test]
fn screens_compare_by_content() {
    let a = Screen::Calendar {
        field: Field::StartDate,
        state: CalendarState::new(2025, 1, 1),
    };
    assert_eq!(a.clone(), a);
    assert_ne!(Screen::Popup("x".to_string()), Screen::Popup("y".to_string()));
    assert_ne!(Screen::Form, Screen::Results);
}
