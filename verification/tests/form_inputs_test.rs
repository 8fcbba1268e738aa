use mortgage_core::calendar::Ymd;
use mortgage_core::tui::{Field, ReverseField};
use mortgage_core::tui_form::{apply_edit, FormInputs, TextEdit};

fn today() -> Ymd {
    Ymd {
        year: 2025,
        month: 5,
        day: 12,
    }
}

fn select(form: &mut FormInputs, field: Field) {
    form.selected = form.fields.iter().position(|f| *f == field).unwrap();
}

#[test]
fn fresh_forms() {
    let f = FormInputs::starting_on(today());
    assert_eq!(f.amount, "185000");
    assert_eq!(f.term, "30");
    assert_eq!(f.start_date, "12-05-2025");
    assert_eq!(f.euribor_date, "12-05-2025");
    assert_eq!(f.fields.len(), 16);
    assert_eq!(f.selected, 0);
    assert_eq!(f.reverse_fields.len(), 6);
    assert_eq!(f.reverse_target_payment, "1000");
    assert_eq!(f.euribor_tenor, 2);
    let now = FormInputs::new();
    assert_eq!(now.start_date.len(), 10);
}

#[test]
fn typing_into_text_and_date_fields() {
    let mut f = FormInputs::starting_on(today());
    f.edit_text('5');
    assert_eq!(f.amount, "1850005");
    f.backspace();
    f.backspace();
    assert_eq!(f.amount, "18500");
    select(&mut f, Field::PrepaymentDate);
    f.backspace_date();
    assert_eq!(f.prepayment_date, "01-01-202");
    for _ in 0..3 {
        f.backspace_date();
    }
    assert_eq!(f.prepayment_date, "01-01");
    for _ in 0..4 {
        f.backspace_date();
    }
    assert_eq!(f.prepayment_date, "");
    for c in "0106x2028".chars() {
        f.edit_date(c);
    }
    assert_eq!(f.prepayment_date, "01-06-2028");
    select(&mut f, Field::Term);
    f.edit_date('5');
    assert_eq!(f.term, "305");
    select(&mut f, Field::Currency);
    f.edit_text('9');
    assert_eq!(f.amount, "18500");
}

#[test]
fn cycling_options_and_rate_modes() {
    let mut f = FormInputs::starting_on(today());
    select(&mut f, Field::Currency);
    f.cycle_enum(1);
    assert_eq!(f.currency, 1);
    f.cycle_enum(1);
    assert_eq!(f.currency, 0);
    select(&mut f, Field::RateMode);
    f.cycle_enum(-1);
    assert_eq!(f.rate_mode, 2);
    assert_eq!(f.fields.len(), 24);
    assert_eq!(f.fields[f.selected], Field::RateMode);
    select(&mut f, Field::SameSpread);
    f.cycle_enum(1);
    assert!(f.same_spread);
    select(&mut f, Field::Amount);
    f.cycle_enum(1);
    assert_eq!(f.amount, "185000");
}

#[test]
fn selection_wraps_around() {
    let mut f = FormInputs::starting_on(today());
    f.select_previous();
    assert_eq!(f.selected, 15);
    f.select_next();
    assert_eq!(f.selected, 0);
    f.selected = 15;
    f.rate_mode = 9;
    f.rebuild_fields();
    assert_eq!(f.fields.len(), 14);
    assert_eq!(f.selected, 13);
}

#[test]
fn reverse_form_keys() {
    let mut f = FormInputs::starting_on(today());
    f.reverse_selected = 0;
    f.reverse_edit_text('0');
    assert_eq!(f.reverse_target_payment, "10000");
    f.reverse_backspace();
    assert_eq!(f.reverse_target_payment, "1000");
    f.reverse_selected = 2;
    assert_eq!(f.reverse_fields[2], ReverseField::RateMode);
    f.reverse_cycle_enum(1);
    assert_eq!(f.reverse_rate_mode, 1);
    assert_eq!(f.reverse_fields.len(), 7);
    f.reverse_selected = 3;
    f.reverse_cycle_enum(-1);
    assert_eq!(f.reverse_euribor_tenor, 1);
}

#[test]
fn single_edits() {
    let mut s = "12-".to_string();
    apply_edit(&mut s, TextEdit::DateKey('1'));
    assert_eq!(s, "12-1");
    apply_edit(&mut s, TextEdit::Push('x'));
    assert_eq!(s, "12-1x");
    apply_edit(&mut s, TextEdit::Pop);
    apply_edit(&mut s, TextEdit::DateBackspace);
    assert_eq!(s, "12");
    apply_edit(&mut s, TextEdit::Pop);
    apply_edit(&mut s, TextEdit::Pop);
    assert_eq!(s, "");
    apply_edit(&mut s, TextEdit::Pop);
    assert_eq!(s, "");
}

#[test]
fn backspace_on_the_start_date_deletes_one_character() {
    let mut f = FormInputs::starting_on(today());
    f.selected = 3;
    assert_eq!(f.fields[3], Field::StartDate);
    f.start_date = "01-01-2025".to_string();
    f.backspace_date();
    assert_eq!(f.start_date, "01-01-202");
}

#[test]
fn rebuilt_fields_keep_or_clamp_the_selection() {
    let mut f = FormInputs::starting_on(today());
    f.rate_mode = 2;
    f.rebuild_fields();
    assert_eq!(f.fields.len(), 24);
    f.selected = 22;
    f.rate_mode = 0;
    f.rebuild_fields();
    assert_eq!(f.fields.len(), 16);
    assert_eq!(f.selected, 15);
    assert_eq!(f.fields[15], Field::ExtraMonthlyCost);
    f.selected = 5;
    f.rate_mode = 1;
    f.rebuild_fields();
    assert_eq!(f.fields.len(), 20);
    assert_eq!(f.selected, 5);
    f.reverse_rate_mode = 0;
    f.rebuild_reverse_fields();
    f.reverse_selected = 5;
    f.reverse_rate_mode = 1;
    f.rebuild_reverse_fields();
    assert_eq!(f.reverse_selected, 5);
    f.reverse_selected = 6;
    f.reverse_rate_mode = 0;
    f.rebuild_reverse_fields();
    assert_eq!(f.reverse_selected, 5);
}
