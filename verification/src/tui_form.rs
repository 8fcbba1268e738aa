//! The inputs of the terminal front end's two forms, held as the text and
//! option indices the user edits, and the keys that edit them: typing and
//! erasing (with the date mask on date fields), cycling options, and moving
//! between fields.
use crate::calendar::{dmy_date_text, format_date_dmy, local_today, Ymd};
use crate::date_entry::{after_date_backspace, backspace_date, push_date_digit, typed_date_suffix};
use crate::text::{digits_of, pop_char, push_char, zero_padded};
use crate::tui::{
    clamp_selection, cycle_index, cycled_index, field_choice, form_field_list, form_fields, is_date, kept_selection,
    next_index, previous_index, reverse_field_list, reverse_field_options, reverse_form_fields,
    Field, FieldChoice, ReverseField,
};
use vstd::prelude::*;

verus! {

/// An edit of a text field.
#[derive(Debug, Clone, Copy, PartialEq, Eq, Structural)]
pub enum TextEdit {
    /// Append a character.
    Push(char),
    /// Remove the last character.
    Pop,
    /// Type a character with the date mask.
    DateKey(char),
    /// Remove the last character and any dash this leaves at the end.
    DateBackspace,
}

/// Text after an edit.
pub open spec fn edited(s: Seq<char>, op: TextEdit) -> Seq<char> {
    match op {
        TextEdit::Push(c) => s.push(c),
        TextEdit::Pop => if s.len() > 0 {
            s.drop_last()
        } else {
            s
        },
        TextEdit::DateKey(c) => s + typed_date_suffix(digits_of(s), c),
        TextEdit::DateBackspace => after_date_backspace(s),
    }
}

/// Applies an edit to a text.
pub fn apply_edit(s: &mut String, op: TextEdit)
    ensures
        final(s)@ == edited(old(s)@, op),
{
    match op {
        TextEdit::Push(c) => push_char(s, c),
        TextEdit::Pop => pop_char(s),
        TextEdit::DateKey(c) => push_date_digit(s, c),
        TextEdit::DateBackspace => backspace_date(s),
    }
}

/// What the user has entered in the two forms of the terminal front end.
#[derive(Debug, Clone)]
pub struct FormInputs {
    /// Fields of the loan form, in display order.
    pub fields: Vec<Field>,
    /// Index of the selected field of the loan form.
    pub selected: usize,
    pub amount: String,
    pub term: String,
    pub start_date: String,
    pub fix_rate: String,
    pub fix_spread: String,
    pub euribor_spread: String,
    pub euribor_date: String,
    pub euribor_rate: String,
    pub mixed_fix_years: String,
    pub mixed_fix_rate: String,
    pub mixed_fix_spread: String,
    pub mixed_euribor_spread: String,
    pub prepayment_date: String,
    pub prepayment_amount: String,
    pub upfront_cost: String,
    pub upfront_percent: String,
    pub down_payment: String,
    pub extra_monthly_cost: String,
    pub currency: usize,
    pub payment_type: usize,
    pub rate_mode: usize,
    pub euribor_tenor: usize,
    pub mixed_euribor_tenor: usize,
    pub prepayment_effect: usize,
    pub same_spread: bool,
    /// Fields of the maximum-loan form, in display order.
    pub reverse_fields: Vec<ReverseField>,
    /// Index of the selected field of the maximum-loan form.
    pub reverse_selected: usize,
    pub reverse_target_payment: String,
    pub reverse_fix_rate: String,
    pub reverse_fix_spread: String,
    pub reverse_euribor_spread: String,
    pub reverse_extra_monthly: String,
    pub reverse_payment_type: usize,
    pub reverse_rate_mode: usize,
    pub reverse_euribor_tenor: usize,
}

impl FormInputs {
    /// Text of a field of the loan form, if the field holds text.
    pub open spec fn field_text(&self, f: Field) -> Option<Seq<char>> {
        match f {
            Field::Amount => Some(self.amount@),
            Field::Term => Some(self.term@),
            Field::StartDate => Some(self.start_date@),
            Field::FixRate => Some(self.fix_rate@),
            Field::FixSpread => Some(self.fix_spread@),
            Field::EuriborSpread => Some(self.euribor_spread@),
            Field::EuriborDate => Some(self.euribor_date@),
            Field::EuriborRate => Some(self.euribor_rate@),
            Field::MixedFixYears => Some(self.mixed_fix_years@),
            Field::MixedFixRate => Some(self.mixed_fix_rate@),
            Field::MixedFixSpread => Some(self.mixed_fix_spread@),
            Field::MixedEuriborSpread => Some(self.mixed_euribor_spread@),
            Field::PrepaymentDate => Some(self.prepayment_date@),
            Field::PrepaymentAmount => Some(self.prepayment_amount@),
            Field::UpfrontCost => Some(self.upfront_cost@),
            Field::UpfrontPercent => Some(self.upfront_percent@),
            Field::DownPayment => Some(self.down_payment@),
            Field::ExtraMonthlyCost => Some(self.extra_monthly_cost@),
            _ => None,
        }
    }

    /// Option index of a choice field of the loan form.
    pub open spec fn choice_value(&self, f: Field) -> usize {
        match f {
            Field::Currency => self.currency,
            Field::PaymentType => self.payment_type,
            Field::RateMode => self.rate_mode,
            Field::EuriborTenor => self.euribor_tenor,
            Field::MixedEuriborTenor => self.mixed_euribor_tenor,
            Field::PrepaymentEffect => self.prepayment_effect,
            _ => 0,
        }
    }

    /// Text of a field of the maximum-loan form, if the field holds text.
    pub open spec fn reverse_field_text(&self, f: ReverseField) -> Option<Seq<char>> {
        match f {
            ReverseField::TargetPayment => Some(self.reverse_target_payment@),
            ReverseField::FixRate => Some(self.reverse_fix_rate@),
            ReverseField::FixSpread => Some(self.reverse_fix_spread@),
            ReverseField::EuriborSpread => Some(self.reverse_euribor_spread@),
            ReverseField::ExtraMonthlyCost => Some(self.reverse_extra_monthly@),
            _ => None,
        }
    }

    /// Option index of a choice field of the maximum-loan form.
    pub open spec fn reverse_choice_value(&self, f: ReverseField) -> usize {
        match f {
            ReverseField::PaymentType => self.reverse_payment_type,
            ReverseField::RateMode => self.reverse_rate_mode,
            ReverseField::EuriborTenor => self.reverse_euribor_tenor,
            _ => 0,
        }
    }

    /// Everything of the loan form but its texts and option indices.
    pub open spec fn same_loan_frame(&self, other: &Self) -> bool {
        &&& self.fields@ == other.fields@
        &&& self.selected == other.selected
        &&& self.same_spread == other.same_spread
    }

    /// The maximum-loan form, untouched.
    pub open spec fn same_reverse_form(&self, other: &Self) -> bool {
        &&& self.reverse_fields@ == other.reverse_fields@
        &&& self.reverse_selected == other.reverse_selected
        &&& self.same_reverse_values(other)
    }

    /// The maximum-loan form's texts and option indices, untouched.
    pub open spec fn same_reverse_values(&self, other: &Self) -> bool {
        &&& self.reverse_target_payment@ == other.reverse_target_payment@
        &&& self.reverse_fix_rate@ == other.reverse_fix_rate@
        &&& self.reverse_fix_spread@ == other.reverse_fix_spread@
        &&& self.reverse_euribor_spread@ == other.reverse_euribor_spread@
        &&& self.reverse_extra_monthly@ == other.reverse_extra_monthly@
        &&& self.reverse_payment_type == other.reverse_payment_type
        &&& self.reverse_rate_mode == other.reverse_rate_mode
        &&& self.reverse_euribor_tenor == other.reverse_euribor_tenor
    }

    /// The loan form's texts and option indices, untouched.
    pub open spec fn same_loan_values(&self, other: &Self) -> bool {
        &&& self.amount@ == other.amount@
        &&& self.term@ == other.term@
        &&& self.start_date@ == other.start_date@
        &&& self.fix_rate@ == other.fix_rate@
        &&& self.fix_spread@ == other.fix_spread@
        &&& self.euribor_spread@ == other.euribor_spread@
        &&& self.euribor_date@ == other.euribor_date@
        &&& self.euribor_rate@ == other.euribor_rate@
        &&& self.mixed_fix_years@ == other.mixed_fix_years@
        &&& self.mixed_fix_rate@ == other.mixed_fix_rate@
        &&& self.mixed_fix_spread@ == other.mixed_fix_spread@
        &&& self.mixed_euribor_spread@ == other.mixed_euribor_spread@
        &&& self.prepayment_date@ == other.prepayment_date@
        &&& self.prepayment_amount@ == other.prepayment_amount@
        &&& self.upfront_cost@ == other.upfront_cost@
        &&& self.upfront_percent@ == other.upfront_percent@
        &&& self.down_payment@ == other.down_payment@
        &&& self.extra_monthly_cost@ == other.extra_monthly_cost@
        &&& self.currency == other.currency
        &&& self.payment_type == other.payment_type
        &&& self.rate_mode == other.rate_mode
        &&& self.euribor_tenor == other.euribor_tenor
        &&& self.mixed_euribor_tenor == other.mixed_euribor_tenor
        &&& self.prepayment_effect == other.prepayment_effect
    }

    /// `self` is `other` with the text of field `f` of the loan form
    /// replaced by `t`.
    pub open spec fn loan_text_replaced(&self, other: &Self, f: Field, t: Seq<char>) -> bool {
        &&& self.same_loan_frame(other)
        &&& self.same_reverse_form(other)
        &&& self.field_text(f) == Some(t)
        &&& forall|g: Field| g != f ==> #[trigger] self.field_text(g) == other.field_text(g)
        &&& forall|g: Field| #[trigger] self.choice_value(g) == other.choice_value(g)
    }

    /// `self` is `other` with the text of field `f` of the maximum-loan form
    /// replaced by `t`.
    pub open spec fn reverse_text_replaced(&self, other: &Self, f: ReverseField, t: Seq<char>) -> bool {
        &&& self.same_loan_frame(other)
        &&& self.same_loan_values(other)
        &&& self.reverse_fields@ == other.reverse_fields@
        &&& self.reverse_selected == other.reverse_selected
        &&& self.reverse_field_text(f) == Some(t)
        &&& forall|g: ReverseField| g != f ==> #[trigger] self.reverse_field_text(g) == other.reverse_field_text(g)
        &&& forall|g: ReverseField| #[trigger] self.reverse_choice_value(g) == other.reverse_choice_value(g)
    }

    /// Applies an edit to the text of field `f` of the loan form; fields
    /// without text are left alone.
    pub fn edit_field(&mut self, f: Field, op: TextEdit)
        ensures
            match old(self).field_text(f) {
                Some(t) => final(self).loan_text_replaced(old(self), f, edited(t, op)),
                None => *final(self) == *old(self),
            },
    {
        match f {
            Field::Amount => apply_edit(&mut self.amount, op),
            Field::Term => apply_edit(&mut self.term, op),
            Field::StartDate => apply_edit(&mut self.start_date, op),
            Field::FixRate => apply_edit(&mut self.fix_rate, op),
            Field::FixSpread => apply_edit(&mut self.fix_spread, op),
            Field::EuriborSpread => apply_edit(&mut self.euribor_spread, op),
            Field::EuriborDate => apply_edit(&mut self.euribor_date, op),
            Field::EuriborRate => apply_edit(&mut self.euribor_rate, op),
            Field::MixedFixYears => apply_edit(&mut self.mixed_fix_years, op),
            Field::MixedFixRate => apply_edit(&mut self.mixed_fix_rate, op),
            Field::MixedFixSpread => apply_edit(&mut self.mixed_fix_spread, op),
            Field::MixedEuriborSpread => apply_edit(&mut self.mixed_euribor_spread, op),
            Field::PrepaymentDate => apply_edit(&mut self.prepayment_date, op),
            Field::PrepaymentAmount => apply_edit(&mut self.prepayment_amount, op),
            Field::UpfrontCost => apply_edit(&mut self.upfront_cost, op),
            Field::UpfrontPercent => apply_edit(&mut self.upfront_percent, op),
            Field::DownPayment => apply_edit(&mut self.down_payment, op),
            Field::ExtraMonthlyCost => apply_edit(&mut self.extra_monthly_cost, op),
            _ => {},
        }
    }

    /// Applies an edit to the text of field `f` of the maximum-loan form;
    /// fields without text are left alone.
    pub fn edit_reverse_field(&mut self, f: ReverseField, op: TextEdit)
        ensures
            match old(self).reverse_field_text(f) {
                Some(t) => final(self).reverse_text_replaced(old(self), f, edited(t, op)),
                None => *final(self) == *old(self),
            },
    {
        match f {
            ReverseField::TargetPayment => apply_edit(&mut self.reverse_target_payment, op),
            ReverseField::FixRate => apply_edit(&mut self.reverse_fix_rate, op),
            ReverseField::FixSpread => apply_edit(&mut self.reverse_fix_spread, op),
            ReverseField::EuriborSpread => apply_edit(&mut self.reverse_euribor_spread, op),
            ReverseField::ExtraMonthlyCost => apply_edit(&mut self.reverse_extra_monthly, op),
            _ => {},
        }
    }

    /// Stores option index `v` for choice field `f` of the loan form.
    fn set_choice(&mut self, f: Field, v: usize)
        ensures
            final(self).same_loan_frame(old(self)),
            final(self).same_reverse_form(old(self)),
            forall|g: Field| #[trigger] final(self).field_text(g) == old(self).field_text(g),
            forall|g: Field|
                g != f ==> #[trigger] final(self).choice_value(g) == old(self).choice_value(g),
            field_choice(f) is Options ==> final(self).choice_value(f) == v,
    {
        match f {
            Field::Currency => self.currency = v,
            Field::PaymentType => self.payment_type = v,
            Field::RateMode => self.rate_mode = v,
            Field::EuriborTenor => self.euribor_tenor = v,
            Field::MixedEuriborTenor => self.mixed_euribor_tenor = v,
            Field::PrepaymentEffect => self.prepayment_effect = v,
            _ => {},
        }
    }

    /// Stores option index `v` for choice field `f` of the maximum-loan form.
    fn set_reverse_choice(&mut self, f: ReverseField, v: usize)
        ensures
            final(self).same_loan_frame(old(self)),
            final(self).same_loan_values(old(self)),
            final(self).reverse_fields@ == old(self).reverse_fields@,
            final(self).reverse_selected == old(self).reverse_selected,
            forall|g: ReverseField|
                #[trigger] final(self).reverse_field_text(g) == old(self).reverse_field_text(g),
            forall|g: ReverseField|
                g != f ==> #[trigger] final(self).reverse_choice_value(g) == old(self).reverse_choice_value(g),
            reverse_field_options(f) is Some ==> final(self).reverse_choice_value(f) == v,
    {
        match f {
            ReverseField::PaymentType => self.reverse_payment_type = v,
            ReverseField::RateMode => self.reverse_rate_mode = v,
            ReverseField::EuriborTenor => self.reverse_euribor_tenor = v,
            _ => {},
        }
    }

    /// Shows the fields of the current rate mode, keeping the selection on a
    /// field.
    pub fn rebuild_fields(&mut self)
        ensures
            final(self).fields@ == form_field_list(old(self).rate_mode),
            final(self).selected < final(self).fields@.len(),
            final(self).selected == kept_selection(old(self).selected as int, final(self).fields@.len() as int),
            final(self).same_spread == old(self).same_spread,
            final(self).same_loan_values(old(self)),
            final(self).same_reverse_form(old(self)),
            forall|g: Field| #[trigger] final(self).field_text(g) == old(self).field_text(g),
            forall|g: Field| #[trigger] final(self).choice_value(g) == old(self).choice_value(g),
    {
        self.fields = form_fields(self.rate_mode);
        self.selected = clamp_selection(self.selected, self.fields.len());
    }

    /// Shows the fields of the current rate mode of the maximum-loan form,
    /// keeping the selection on a field.
    pub fn rebuild_reverse_fields(&mut self)
        ensures
            final(self).reverse_fields@ == reverse_field_list(old(self).reverse_rate_mode),
            final(self).reverse_selected < final(self).reverse_fields@.len(),
            final(self).reverse_selected == kept_selection(
                old(self).reverse_selected as int,
                final(self).reverse_fields@.len() as int,
            ),
            final(self).same_loan_frame(old(self)),
            final(self).same_loan_values(old(self)),
            final(self).same_reverse_values(old(self)),
            forall|g: ReverseField|
                #[trigger] final(self).reverse_field_text(g) == old(self).reverse_field_text(g),
            forall|g: ReverseField|
                #[trigger] final(self).reverse_choice_value(g) == old(self).reverse_choice_value(g),
    {
        self.reverse_fields = reverse_form_fields(self.reverse_rate_mode);
        self.reverse_selected = clamp_selection(self.reverse_selected, self.reverse_fields.len());
    }

    /// Types a character into the selected field of the loan form (fields
    /// without text ignore it).
    pub fn edit_text(&mut self, c: char)
        requires
            old(self).selected < old(self).fields@.len(),
        ensures
            match old(self).field_text(old(self).fields@[old(self).selected as int]) {
                Some(t) => final(self).loan_text_replaced(
                    old(self),
                    old(self).fields@[old(self).selected as int],
                    t.push(c),
                ),
                None => *final(self) == *old(self),
            },
    {
        let f = self.fields[self.selected];
        self.edit_field(f, TextEdit::Push(c));
    }

    /// Erases the last character of the selected field of the loan form.
    pub fn backspace(&mut self)
        requires
            old(self).selected < old(self).fields@.len(),
        ensures
            match old(self).field_text(old(self).fields@[old(self).selected as int]) {
                Some(t) => final(self).loan_text_replaced(
                    old(self),
                    old(self).fields@[old(self).selected as int],
                    edited(t, TextEdit::Pop),
                ),
                None => *final(self) == *old(self),
            },
    {
        let f = self.fields[self.selected];
        self.edit_field(f, TextEdit::Pop);
    }

    /// Types a character into the selected field: with the date mask on a
    /// date field, as plain text elsewhere.
    pub fn edit_date(&mut self, c: char)
        requires
            old(self).selected < old(self).fields@.len(),
        ensures
            ({
                let f = old(self).fields@[old(self).selected as int];
                let op = if is_date(f) {
                    TextEdit::DateKey(c)
                } else {
                    TextEdit::Push(c)
                };
                match old(self).field_text(f) {
                    Some(t) => final(self).loan_text_replaced(old(self), f, edited(t, op)),
                    None => *final(self) == *old(self),
                }
            }),
    {
        let f = self.fields[self.selected];
        if f.is_date_field() {
            self.edit_field(f, TextEdit::DateKey(c));
        } else {
            self.edit_field(f, TextEdit::Push(c));
        }
    }

    /// Erases the last character of the selected field; on a date field a
    /// dash that this leaves at the end goes too.
    pub fn backspace_date(&mut self)
        requires
            old(self).selected < old(self).fields@.len(),
        ensures
            ({
                let f = old(self).fields@[old(self).selected as int];
                let op = if is_date(f) {
                    TextEdit::DateBackspace
                } else {
                    TextEdit::Pop
                };
                match old(self).field_text(f) {
                    Some(t) => final(self).loan_text_replaced(old(self), f, edited(t, op)),
                    None => *final(self) == *old(self),
                }
            }),
    {
        let f = self.fields[self.selected];
        if f.is_date_field() {
            self.edit_field(f, TextEdit::DateBackspace);
        } else {
            self.edit_field(f, TextEdit::Pop);
        }
    }

    /// Cycles the option of the selected choice field by `delta` (Left is
    /// -1, Right is +1), flips the same-spread toggle, and shows the fields
    /// of a newly chosen rate mode.
    pub fn cycle_enum(&mut self, delta: i8)
        requires
            old(self).selected < old(self).fields@.len(),
            field_choice(old(self).fields@[old(self).selected as int]) is Options ==> i8::MIN
                <= #[verifier::truncate] (old(self).choice_value(
                old(self).fields@[old(self).selected as int],
            ) as i8) as int + delta as int <= i8::MAX,
        ensures
            ({
                let f = old(self).fields@[old(self).selected as int];
                match field_choice(f) {
                    FieldChoice::NotAChoice => *final(self) == *old(self),
                    FieldChoice::Toggle => {
                        &&& final(self).same_spread == !old(self).same_spread
                        &&& final(self).fields@ == old(self).fields@
                        &&& final(self).selected == old(self).selected
                        &&& final(self).same_loan_values(old(self))
                        &&& final(self).same_reverse_form(old(self))
                    },
                    FieldChoice::Options(len) => {
                        let v = cycled_index(old(self).choice_value(f), delta, len);
                        &&& final(self).choice_value(f) == v
                        &&& forall|g: Field|
                            g != f ==> #[trigger] final(self).choice_value(g) == old(self).choice_value(g)
                        &&& forall|g: Field|
                            #[trigger] final(self).field_text(g) == old(self).field_text(g)
                        &&& final(self).same_spread == old(self).same_spread
                        &&& final(self).same_reverse_form(old(self))
                        &&& if f == Field::RateMode && v != old(self).rate_mode {
                            &&& final(self).fields@ == form_field_list(v as usize)
                            &&& final(self).selected == kept_selection(
                                old(self).selected as int,
                                final(self).fields@.len() as int,
                            )
                            &&& final(self).selected < final(self).fields@.len()
                        } else {
                            &&& final(self).fields@ == old(self).fields@
                            &&& final(self).selected == old(self).selected
                        }
                    },
                }
            }),
    {
        let f = self.fields[self.selected];
        match f.choice() {
            FieldChoice::NotAChoice => {},
            FieldChoice::Toggle => {
                self.same_spread = !self.same_spread;
            },
            FieldChoice::Options(len) => {
                let old_value = match f {
                    Field::Currency => self.currency,
                    Field::PaymentType => self.payment_type,
                    Field::RateMode => self.rate_mode,
                    Field::EuriborTenor => self.euribor_tenor,
                    Field::MixedEuriborTenor => self.mixed_euribor_tenor,
                    _ => self.prepayment_effect,
                };
                let value = cycle_index(old_value, delta, len);
                self.set_choice(f, value);
                if f == Field::RateMode && old_value != value {
                    self.rebuild_fields();
                }
            },
        }
    }

    /// Moves the selection to the next field of the loan form, wrapping
    /// around (Tab, Down).
    pub fn select_next(&mut self)
        requires
            old(self).fields@.len() > 0,
            old(self).selected < usize::MAX,
        ensures
            final(self).selected == (old(self).selected + 1) % (old(self).fields@.len() as int),
            final(self).fields@ == old(self).fields@,
            final(self).same_loan_values(old(self)),
            final(self).same_reverse_form(old(self)),
            final(self).same_spread == old(self).same_spread,
    {
        self.selected = next_index(self.selected, self.fields.len());
    }

    /// Moves the selection to the previous field of the loan form, wrapping
    /// around (Shift+Tab, Up).
    pub fn select_previous(&mut self)
        requires
            old(self).fields@.len() > 0,
            old(self).selected + old(self).fields@.len() <= usize::MAX,
        ensures
            final(self).selected == (old(self).selected + old(self).fields@.len() - 1) % (old(self).fields@.len() as int),
            final(self).fields@ == old(self).fields@,
            final(self).same_loan_values(old(self)),
            final(self).same_reverse_form(old(self)),
            final(self).same_spread == old(self).same_spread,
    {
        self.selected = previous_index(self.selected, self.fields.len());
    }

    /// Types a character into the selected field of the maximum-loan form
    /// (fields without text ignore it).
    pub fn reverse_edit_text(&mut self, c: char)
        requires
            old(self).reverse_selected < old(self).reverse_fields@.len(),
        ensures
            match old(self).reverse_field_text(
                old(self).reverse_fields@[old(self).reverse_selected as int],
            ) {
                Some(t) => final(self).reverse_text_replaced(
                    old(self),
                    old(self).reverse_fields@[old(self).reverse_selected as int],
                    t.push(c),
                ),
                None => *final(self) == *old(self),
            },
    {
        let f = self.reverse_fields[self.reverse_selected];
        self.edit_reverse_field(f, TextEdit::Push(c));
    }

    /// Erases the last character of the selected field of the maximum-loan
    /// form.
    pub fn reverse_backspace(&mut self)
        requires
            old(self).reverse_selected < old(self).reverse_fields@.len(),
        ensures
            match old(self).reverse_field_text(
                old(self).reverse_fields@[old(self).reverse_selected as int],
            ) {
                Some(t) => final(self).reverse_text_replaced(
                    old(self),
                    old(self).reverse_fields@[old(self).reverse_selected as int],
                    edited(t, TextEdit::Pop),
                ),
                None => *final(self) == *old(self),
            },
    {
        let f = self.reverse_fields[self.reverse_selected];
        self.edit_reverse_field(f, TextEdit::Pop);
    }

    /// Cycles the option of the selected choice field of the maximum-loan
    /// form by `delta`, and shows the fields of a newly chosen rate mode.
    pub fn reverse_cycle_enum(&mut self, delta: i8)
        requires
            old(self).reverse_selected < old(self).reverse_fields@.len(),
            reverse_field_options(old(self).reverse_fields@[old(self).reverse_selected as int])
                is Some ==> i8::MIN <= #[verifier::truncate] (old(self).reverse_choice_value(
                old(self).reverse_fields@[old(self).reverse_selected as int],
            ) as i8) as int + delta as int <= i8::MAX,
        ensures
            ({
                let f = old(self).reverse_fields@[old(self).reverse_selected as int];
                match reverse_field_options(f) {
                    None => *final(self) == *old(self),
                    Some(len) => {
                        let v = cycled_index(old(self).reverse_choice_value(f), delta, len);
                        &&& final(self).reverse_choice_value(f) == v
                        &&& forall|g: ReverseField|
                            g != f ==> #[trigger] final(self).reverse_choice_value(g) == old(self).reverse_choice_value(g)
                        &&& forall|g: ReverseField|
                            #[trigger] final(self).reverse_field_text(g) == old(self).reverse_field_text(g)
                        &&& final(self).same_loan_frame(old(self))
                        &&& final(self).same_loan_values(old(self))
                        &&& if f == ReverseField::RateMode && v != old(self).reverse_rate_mode {
                            &&& final(self).reverse_fields@ == reverse_field_list(v as usize)
                            &&& final(self).reverse_selected == kept_selection(
                                old(self).reverse_selected as int,
                                final(self).reverse_fields@.len() as int,
                            )
                            &&& final(self).reverse_selected < final(self).reverse_fields@.len()
                        } else {
                            &&& final(self).reverse_fields@ == old(self).reverse_fields@
                            &&& final(self).reverse_selected == old(self).reverse_selected
                        }
                    },
                }
            }),
    {
        let f = self.reverse_fields[self.reverse_selected];
        match f.options() {
            None => {},
            Some(len) => {
                let old_value = match f {
                    ReverseField::PaymentType => self.reverse_payment_type,
                    ReverseField::RateMode => self.reverse_rate_mode,
                    _ => self.reverse_euribor_tenor,
                };
                let value = cycle_index(old_value, delta, len);
                self.set_reverse_choice(f, value);
                if f == ReverseField::RateMode && old_value != value {
                    self.rebuild_reverse_fields();
                }
            },
        }
    }

    /// The forms as the terminal front end opens them, with `today` as the
    /// start date and as the date of a new Euribor point.
    pub open spec fn is_fresh(&self, today: Ymd) -> bool {
        &&& self.fields@ == form_field_list(0)
        &&& self.selected == 0
        &&& self.amount@ == "185000"@
        &&& self.term@ == "30"@
        &&& self.start_date@ == dmy_date_text(today)
        &&& self.currency == 0
        &&& self.payment_type == 0
        &&& self.rate_mode == 0
        &&& self.fix_rate@ == "3.6"@
        &&& self.fix_spread@ == "0.0"@
        &&& self.euribor_tenor == 2
        &&& self.euribor_spread@ == "1.0"@
        &&& self.mixed_fix_years@ == "2"@
        &&& self.mixed_fix_rate@ == "3.0"@
        &&& self.mixed_fix_spread@ == "1.0"@
        &&& self.mixed_euribor_tenor == 2
        &&& self.mixed_euribor_spread@ == "1.5"@
        &&& !self.same_spread
        &&& self.prepayment_date@ == "01-01-2027"@
        &&& self.prepayment_amount@ == "20000"@
        &&& self.prepayment_effect == 0
        &&& self.upfront_cost@ == "0"@
        &&& self.upfront_percent@ == "5"@
        &&& self.down_payment@ == "0"@
        &&& self.extra_monthly_cost@ == "0"@
        &&& self.euribor_date@ == dmy_date_text(today)
        &&& self.euribor_rate@ == "3.0"@
        &&& self.reverse_fields@ == reverse_field_list(0)
        &&& self.reverse_selected == 0
        &&& self.reverse_target_payment@ == "1000"@
        &&& self.reverse_payment_type == 0
        &&& self.reverse_rate_mode == 0
        &&& self.reverse_fix_rate@ == "3.6"@
        &&& self.reverse_fix_spread@ == "0.0"@
        &&& self.reverse_euribor_tenor == 2
        &&& self.reverse_euribor_spread@ == "1.0"@
        &&& self.reverse_extra_monthly@ == "0"@
    }

    /// The forms as the terminal front end opens them on `today`.
    pub fn starting_on(today: Ymd) -> (f: FormInputs)
        ensures
            f.is_fresh(today),
    {
        let mut f = FormInputs {
            fields: Vec::new(),
            selected: 0,
            amount: String::from_str("185000"),
            term: String::from_str("30"),
            start_date: format_date_dmy(today),
            currency: 0,
            payment_type: 0,
            rate_mode: 0,
            fix_rate: String::from_str("3.6"),
            fix_spread: String::from_str("0.0"),
            euribor_tenor: 2,
            euribor_spread: String::from_str("1.0"),
            mixed_fix_years: String::from_str("2"),
            mixed_fix_rate: String::from_str("3.0"),
            mixed_fix_spread: String::from_str("1.0"),
            mixed_euribor_tenor: 2,
            mixed_euribor_spread: String::from_str("1.5"),
            same_spread: false,
            prepayment_date: String::from_str("01-01-2027"),
            prepayment_amount: String::from_str("20000"),
            prepayment_effect: 0,
            upfront_cost: String::from_str("0"),
            upfront_percent: String::from_str("5"),
            down_payment: String::from_str("0"),
            extra_monthly_cost: String::from_str("0"),
            euribor_date: format_date_dmy(today),
            euribor_rate: String::from_str("3.0"),
            reverse_fields: Vec::new(),
            reverse_selected: 0,
            reverse_target_payment: String::from_str("1000"),
            reverse_payment_type: 0,
            reverse_rate_mode: 0,
            reverse_fix_rate: String::from_str("3.6"),
            reverse_fix_spread: String::from_str("0.0"),
            reverse_euribor_tenor: 2,
            reverse_euribor_spread: String::from_str("1.0"),
            reverse_extra_monthly: String::from_str("0"),
        };
        f.rebuild_fields();
        f.rebuild_reverse_fields();
        f
    }

    /// The forms as the terminal front end opens them, on today's date.
    pub fn new() -> (f: FormInputs)
        ensures
            exists|today: Ymd| f.is_fresh(today),
    {
        let today = local_today();
        FormInputs::starting_on(today)
    }
}


/// Editing the text of a field of the loan form edits the input that the
/// field names and no other: the amount field edits the amount, the fixed
/// rate field the fixed rate and not the spread, the fixed spread field the
/// spread, and so on for every text field; no option changes.
pub proof fn loan_fields_edit_their_own_inputs(a: FormInputs, b: FormInputs, f: Field, t: Seq<char>)
    requires
        b.loan_text_replaced(&a, f, t),
    ensures
        b.amount@ == (if f == Field::Amount { t } else { a.amount@ }),
        b.term@ == (if f == Field::Term { t } else { a.term@ }),
        b.start_date@ == (if f == Field::StartDate { t } else { a.start_date@ }),
        b.fix_rate@ == (if f == Field::FixRate { t } else { a.fix_rate@ }),
        b.fix_spread@ == (if f == Field::FixSpread { t } else { a.fix_spread@ }),
        b.euribor_spread@ == (if f == Field::EuriborSpread { t } else { a.euribor_spread@ }),
        b.euribor_date@ == (if f == Field::EuriborDate { t } else { a.euribor_date@ }),
        b.euribor_rate@ == (if f == Field::EuriborRate { t } else { a.euribor_rate@ }),
        b.mixed_fix_years@ == (if f == Field::MixedFixYears { t } else { a.mixed_fix_years@ }),
        b.mixed_fix_rate@ == (if f == Field::MixedFixRate { t } else { a.mixed_fix_rate@ }),
        b.mixed_fix_spread@ == (if f == Field::MixedFixSpread { t } else { a.mixed_fix_spread@ }),
        b.mixed_euribor_spread@ == (if f == Field::MixedEuriborSpread { t } else { a.mixed_euribor_spread@ }),
        b.prepayment_date@ == (if f == Field::PrepaymentDate { t } else { a.prepayment_date@ }),
        b.prepayment_amount@ == (if f == Field::PrepaymentAmount { t } else { a.prepayment_amount@ }),
        b.upfront_cost@ == (if f == Field::UpfrontCost { t } else { a.upfront_cost@ }),
        b.upfront_percent@ == (if f == Field::UpfrontPercent { t } else { a.upfront_percent@ }),
        b.down_payment@ == (if f == Field::DownPayment { t } else { a.down_payment@ }),
        b.extra_monthly_cost@ == (if f == Field::ExtraMonthlyCost { t } else { a.extra_monthly_cost@ }),
        b.currency == a.currency,
        b.payment_type == a.payment_type,
        b.rate_mode == a.rate_mode,
        b.euribor_tenor == a.euribor_tenor,
        b.mixed_euribor_tenor == a.mixed_euribor_tenor,
        b.prepayment_effect == a.prepayment_effect,
{
    assert(f == Field::Amount || b.field_text(Field::Amount) == a.field_text(Field::Amount));
    assert(f == Field::Term || b.field_text(Field::Term) == a.field_text(Field::Term));
    assert(f == Field::StartDate || b.field_text(Field::StartDate) == a.field_text(Field::StartDate));
    assert(f == Field::FixRate || b.field_text(Field::FixRate) == a.field_text(Field::FixRate));
    assert(f == Field::FixSpread || b.field_text(Field::FixSpread) == a.field_text(Field::FixSpread));
    assert(f == Field::EuriborSpread || b.field_text(Field::EuriborSpread) == a.field_text(Field::EuriborSpread));
    assert(f == Field::EuriborDate || b.field_text(Field::EuriborDate) == a.field_text(Field::EuriborDate));
    assert(f == Field::EuriborRate || b.field_text(Field::EuriborRate) == a.field_text(Field::EuriborRate));
    assert(f == Field::MixedFixYears || b.field_text(Field::MixedFixYears) == a.field_text(Field::MixedFixYears));
    assert(f == Field::MixedFixRate || b.field_text(Field::MixedFixRate) == a.field_text(Field::MixedFixRate));
    assert(f == Field::MixedFixSpread || b.field_text(Field::MixedFixSpread) == a.field_text(Field::MixedFixSpread));
    assert(f == Field::MixedEuriborSpread || b.field_text(Field::MixedEuriborSpread) == a.field_text(Field::MixedEuriborSpread));
    assert(f == Field::PrepaymentDate || b.field_text(Field::PrepaymentDate) == a.field_text(Field::PrepaymentDate));
    assert(f == Field::PrepaymentAmount || b.field_text(Field::PrepaymentAmount) == a.field_text(Field::PrepaymentAmount));
    assert(f == Field::UpfrontCost || b.field_text(Field::UpfrontCost) == a.field_text(Field::UpfrontCost));
    assert(f == Field::UpfrontPercent || b.field_text(Field::UpfrontPercent) == a.field_text(Field::UpfrontPercent));
    assert(f == Field::DownPayment || b.field_text(Field::DownPayment) == a.field_text(Field::DownPayment));
    assert(f == Field::ExtraMonthlyCost || b.field_text(Field::ExtraMonthlyCost) == a.field_text(Field::ExtraMonthlyCost));
    assert(b.choice_value(Field::Currency) == a.choice_value(Field::Currency));
    assert(b.choice_value(Field::PaymentType) == a.choice_value(Field::PaymentType));
    assert(b.choice_value(Field::RateMode) == a.choice_value(Field::RateMode));
    assert(b.choice_value(Field::EuriborTenor) == a.choice_value(Field::EuriborTenor));
    assert(b.choice_value(Field::MixedEuriborTenor) == a.choice_value(Field::MixedEuriborTenor));
    assert(b.choice_value(Field::PrepaymentEffect) == a.choice_value(Field::PrepaymentEffect));
}

/// Choosing an option of a choice field of the loan form sets the option
/// index that the field names and no other: the currency field sets the
/// currency, the payment type field the payment type, the rate mode field
/// the rate mode, the two tenor fields their own tenors, and the prepayment
/// effect field the effect; no text changes.
pub proof fn loan_choices_set_their_own_options(a: FormInputs, b: FormInputs, f: Field, v: usize)
    requires
        field_choice(f) is Options,
        b.choice_value(f) == v,
        forall|g: Field| g != f ==> #[trigger] b.choice_value(g) == a.choice_value(g),
        forall|g: Field| #[trigger] b.field_text(g) == a.field_text(g),
    ensures
        b.currency == (if f == Field::Currency { v } else { a.currency }),
        b.payment_type == (if f == Field::PaymentType { v } else { a.payment_type }),
        b.rate_mode == (if f == Field::RateMode { v } else { a.rate_mode }),
        b.euribor_tenor == (if f == Field::EuriborTenor { v } else { a.euribor_tenor }),
        b.mixed_euribor_tenor == (if f == Field::MixedEuriborTenor { v } else { a.mixed_euribor_tenor }),
        b.prepayment_effect == (if f == Field::PrepaymentEffect { v } else { a.prepayment_effect }),
        b.amount@ == a.amount@,
        b.term@ == a.term@,
        b.start_date@ == a.start_date@,
        b.fix_rate@ == a.fix_rate@,
        b.fix_spread@ == a.fix_spread@,
        b.euribor_spread@ == a.euribor_spread@,
        b.euribor_date@ == a.euribor_date@,
        b.euribor_rate@ == a.euribor_rate@,
        b.mixed_fix_years@ == a.mixed_fix_years@,
        b.mixed_fix_rate@ == a.mixed_fix_rate@,
        b.mixed_fix_spread@ == a.mixed_fix_spread@,
        b.mixed_euribor_spread@ == a.mixed_euribor_spread@,
        b.prepayment_date@ == a.prepayment_date@,
        b.prepayment_amount@ == a.prepayment_amount@,
        b.upfront_cost@ == a.upfront_cost@,
        b.upfront_percent@ == a.upfront_percent@,
        b.down_payment@ == a.down_payment@,
        b.extra_monthly_cost@ == a.extra_monthly_cost@,
{
    assert(f == Field::Currency || b.choice_value(Field::Currency) == a.choice_value(Field::Currency));
    assert(f == Field::PaymentType || b.choice_value(Field::PaymentType) == a.choice_value(Field::PaymentType));
    assert(f == Field::RateMode || b.choice_value(Field::RateMode) == a.choice_value(Field::RateMode));
    assert(f == Field::EuriborTenor || b.choice_value(Field::EuriborTenor) == a.choice_value(Field::EuriborTenor));
    assert(f == Field::MixedEuriborTenor || b.choice_value(Field::MixedEuriborTenor) == a.choice_value(Field::MixedEuriborTenor));
    assert(f == Field::PrepaymentEffect || b.choice_value(Field::PrepaymentEffect) == a.choice_value(Field::PrepaymentEffect));
    assert(b.field_text(Field::Amount) == a.field_text(Field::Amount));
    assert(b.field_text(Field::Term) == a.field_text(Field::Term));
    assert(b.field_text(Field::StartDate) == a.field_text(Field::StartDate));
    assert(b.field_text(Field::FixRate) == a.field_text(Field::FixRate));
    assert(b.field_text(Field::FixSpread) == a.field_text(Field::FixSpread));
    assert(b.field_text(Field::EuriborSpread) == a.field_text(Field::EuriborSpread));
    assert(b.field_text(Field::EuriborDate) == a.field_text(Field::EuriborDate));
    assert(b.field_text(Field::EuriborRate) == a.field_text(Field::EuriborRate));
    assert(b.field_text(Field::MixedFixYears) == a.field_text(Field::MixedFixYears));
    assert(b.field_text(Field::MixedFixRate) == a.field_text(Field::MixedFixRate));
    assert(b.field_text(Field::MixedFixSpread) == a.field_text(Field::MixedFixSpread));
    assert(b.field_text(Field::MixedEuriborSpread) == a.field_text(Field::MixedEuriborSpread));
    assert(b.field_text(Field::PrepaymentDate) == a.field_text(Field::PrepaymentDate));
    assert(b.field_text(Field::PrepaymentAmount) == a.field_text(Field::PrepaymentAmount));
    assert(b.field_text(Field::UpfrontCost) == a.field_text(Field::UpfrontCost));
    assert(b.field_text(Field::UpfrontPercent) == a.field_text(Field::UpfrontPercent));
    assert(b.field_text(Field::DownPayment) == a.field_text(Field::DownPayment));
    assert(b.field_text(Field::ExtraMonthlyCost) == a.field_text(Field::ExtraMonthlyCost));
}

/// Editing the text of a field of the maximum-loan form edits the input
/// that the field names and no other: the target payment, the fixed rate,
/// the fixed spread, the Euribor spread and the extra monthly cost each have
/// their own field; no option of the form changes.
pub proof fn reverse_fields_edit_their_own_inputs(
    a: FormInputs,
    b: FormInputs,
    f: ReverseField,
    t: Seq<char>,
)
    requires
        b.reverse_text_replaced(&a, f, t),
    ensures
        b.reverse_target_payment@ == (if f == ReverseField::TargetPayment { t } else { a.reverse_target_payment@ }),
        b.reverse_fix_rate@ == (if f == ReverseField::FixRate { t } else { a.reverse_fix_rate@ }),
        b.reverse_fix_spread@ == (if f == ReverseField::FixSpread { t } else { a.reverse_fix_spread@ }),
        b.reverse_euribor_spread@ == (if f == ReverseField::EuriborSpread { t } else { a.reverse_euribor_spread@ }),
        b.reverse_extra_monthly@ == (if f == ReverseField::ExtraMonthlyCost { t } else { a.reverse_extra_monthly@ }),
        b.reverse_payment_type == a.reverse_payment_type,
        b.reverse_rate_mode == a.reverse_rate_mode,
        b.reverse_euribor_tenor == a.reverse_euribor_tenor,
{
    assert(f == ReverseField::TargetPayment || b.reverse_field_text(ReverseField::TargetPayment) == a.reverse_field_text(ReverseField::TargetPayment));
    assert(f == ReverseField::FixRate || b.reverse_field_text(ReverseField::FixRate) == a.reverse_field_text(ReverseField::FixRate));
    assert(f == ReverseField::FixSpread || b.reverse_field_text(ReverseField::FixSpread) == a.reverse_field_text(ReverseField::FixSpread));
    assert(f == ReverseField::EuriborSpread || b.reverse_field_text(ReverseField::EuriborSpread) == a.reverse_field_text(ReverseField::EuriborSpread));
    assert(f == ReverseField::ExtraMonthlyCost || b.reverse_field_text(ReverseField::ExtraMonthlyCost) == a.reverse_field_text(ReverseField::ExtraMonthlyCost));
    assert(b.reverse_choice_value(ReverseField::PaymentType) == a.reverse_choice_value(ReverseField::PaymentType));
    assert(b.reverse_choice_value(ReverseField::RateMode) == a.reverse_choice_value(ReverseField::RateMode));
    assert(b.reverse_choice_value(ReverseField::EuriborTenor) == a.reverse_choice_value(ReverseField::EuriborTenor));
}

/// Choosing an option of a choice field of the maximum-loan form sets the
/// option index that the field names and no other; no text changes.
pub proof fn reverse_choices_set_their_own_options(
    a: FormInputs,
    b: FormInputs,
    f: ReverseField,
    v: usize,
)
    requires
        reverse_field_options(f) is Some,
        b.reverse_choice_value(f) == v,
        forall|g: ReverseField| g != f ==> #[trigger] b.reverse_choice_value(g) == a.reverse_choice_value(g),
        forall|g: ReverseField| #[trigger] b.reverse_field_text(g) == a.reverse_field_text(g),
    ensures
        b.reverse_payment_type == (if f == ReverseField::PaymentType { v } else { a.reverse_payment_type }),
        b.reverse_rate_mode == (if f == ReverseField::RateMode { v } else { a.reverse_rate_mode }),
        b.reverse_euribor_tenor == (if f == ReverseField::EuriborTenor { v } else { a.reverse_euribor_tenor }),
        b.reverse_target_payment@ == a.reverse_target_payment@,
        b.reverse_fix_rate@ == a.reverse_fix_rate@,
        b.reverse_fix_spread@ == a.reverse_fix_spread@,
        b.reverse_euribor_spread@ == a.reverse_euribor_spread@,
        b.reverse_extra_monthly@ == a.reverse_extra_monthly@,
{
    assert(f == ReverseField::PaymentType || b.reverse_choice_value(ReverseField::PaymentType) == a.reverse_choice_value(ReverseField::PaymentType));
    assert(f == ReverseField::RateMode || b.reverse_choice_value(ReverseField::RateMode) == a.reverse_choice_value(ReverseField::RateMode));
    assert(f == ReverseField::EuriborTenor || b.reverse_choice_value(ReverseField::EuriborTenor) == a.reverse_choice_value(ReverseField::EuriborTenor));
    assert(b.reverse_field_text(ReverseField::TargetPayment) == a.reverse_field_text(ReverseField::TargetPayment));
    assert(b.reverse_field_text(ReverseField::FixRate) == a.reverse_field_text(ReverseField::FixRate));
    assert(b.reverse_field_text(ReverseField::FixSpread) == a.reverse_field_text(ReverseField::FixSpread));
    assert(b.reverse_field_text(ReverseField::EuriborSpread) == a.reverse_field_text(ReverseField::EuriborSpread));
    assert(b.reverse_field_text(ReverseField::ExtraMonthlyCost) == a.reverse_field_text(ReverseField::ExtraMonthlyCost));
}

} // verus!
