use mortgage_core::gui::ViewTab;
use mortgage_core::gui_form::{GuiInputs, InputMessage};

#[test]
fn test_state_default() {
    let state = GuiInputs::default();
    assert_eq!(state.amount, "185000");
    assert_eq!(state.term, "30");
    assert_eq!(state.currency, "EUR");
    assert_eq!(state.payment_type, "Annuity");
    assert_eq!(state.rate_mode, "Fix");
}

#[test]
fn test_update_amount_changed() {
    let mut state = GuiInputs::default();
    state.apply(InputMessage::AmountChanged("200000".to_string()));
    assert_eq!(state.amount, "200000");
}

#[test]
fn test_update_term_changed() {
    let mut state = GuiInputs::default();
    state.apply(InputMessage::TermChanged("20".to_string()));
    assert_eq!(state.term, "20");
}

#[test]
fn test_update_currency_changed() {
    let mut state = GuiInputs::default();
    assert_eq!(state.currency, "EUR");
    state.apply(InputMessage::CurrencyChanged("USD".to_string()));
    assert_eq!(state.currency, "USD");
}

#[test]
fn test_update_payment_type_changed() {
    let mut state = GuiInputs::default();
    assert_eq!(state.payment_type, "Annuity");
    state.apply(InputMessage::PaymentTypeChanged("Diff".to_string()));
    assert_eq!(state.payment_type, "Diff");
}

#[test]
fn test_update_rate_mode_changed() {
    let mut state = GuiInputs::default();
    assert_eq!(state.rate_mode, "Fix");
    state.apply(InputMessage::RateModeChanged("Euribor".to_string()));
    assert_eq!(state.rate_mode, "Euribor");
    state.apply(InputMessage::RateModeChanged("Mixed".to_string()));
    assert_eq!(state.rate_mode, "Mixed");
}

#[test]
fn test_update_show_table() {
    let mut state = GuiInputs::default();
    state.apply(InputMessage::ShowTable);
    assert_eq!(state.active_tab, ViewTab::Table);
}

#[test]
fn test_update_show_yearly() {
    let mut state = GuiInputs::default();
    state.apply(InputMessage::ShowYearly);
    assert_eq!(state.active_tab, ViewTab::Yearly);
}

#[test]
fn test_update_show_sensitivity() {
    let mut state = GuiInputs::default();
    state.apply(InputMessage::ShowSensitivity);
    assert_eq!(state.active_tab, ViewTab::Sensitivity);
}

#[test]
fn test_update_show_break_even() {
    let mut state = GuiInputs::default();
    state.apply(InputMessage::ShowBreakEven);
    assert_eq!(state.active_tab, ViewTab::BreakEven);
}

#[test]
fn test_update_rent_changed() {
    let mut state = GuiInputs::default();
    state.apply(InputMessage::RentChanged("1000".to_string()));
    assert_eq!(state.rent, "1000");
}

#[test]
fn test_update_same_spread_toggled() {
    let mut state = GuiInputs::default();
    assert!(!state.same_spread);
    state.apply(InputMessage::SameSpreadToggled(true));
    assert!(state.same_spread);
    state.apply(InputMessage::SameSpreadToggled(false));
    assert!(!state.same_spread);
}
