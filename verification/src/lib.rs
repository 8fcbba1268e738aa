//! Verified core of a mortgage calculator: the currency, tenor, payment and
//! prepayment vocabularies with their text forms, calendar arithmetic and
//! date entry, the input forms of the terminal front end, and the
//! structural parts of schedules and Euribor curves.
pub mod text;
pub mod models;
pub mod calendar;
pub mod date_entry;
pub mod tui;
pub mod gui;
pub mod euribor;
pub mod schedule;
pub mod tui_form;
pub mod gui_form;
