# mortgage_core

A mortgage calculator whose non-numeric core is verified with Verus.

- `src/` — the verified library: the currency, tenor, payment-type and
  prepayment-effect vocabularies with their text forms; Gregorian calendar
  arithmetic, the date picker and the `DD-MM-YYYY` date entry mask; the
  input forms of the terminal and desktop front ends; the Euribor request
  addresses, curve lookup and cache decision; the year runs of a schedule.
- `tests/` — tests of the library on concrete values.
- `app/` — the program around it: the floating-point schedule, sensitivity
  and break-even calculations, the Euribor download, CSV and JSON files, the
  command-line front end (`clap`), the terminal front end (`ratatui`,
  started with `--tui`) and the desktop front end (`iced`, started with
  `--gui`).
