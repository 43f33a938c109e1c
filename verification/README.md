# ironcalc_patterns

A verified library for formula pattern keys and spreadsheet date functions, written in
Verus. Every function in `src/` carries a contract. Verus proves those contracts, except
for the few small functions marked `#[verifier::external_body]` that call chrono or std
(`date_from_day_number`, `day_number_of`, `add_months`, `sub_months`, `to_uppercase`,
`debug_text`, `vec_capacity`): their contracts, and the facts stated of the names
`uppercase` and `debug_str` that they apply, are believed as written, and each doc
comment says what is claimed of the call.

- `pattern_key`: pattern keys for SUMIFS, COUNTIFS, AVERAGEIFS and VLOOKUP formulas,
  their abstract models, and structural equality and copying.
- `builder`: fluent builders of pattern keys and constructors of criteria and lookup
  values.
- `error`, `text`: validation and extraction errors and their messages, and the text
  helpers they use.
- `validate`: validation of pattern keys.
- `number`: the parts of an IEEE-754 double that extraction reads from its bit pattern.
- `extract`: extraction of pattern keys from parsed formula nodes, with and without
  error reporting.
- `registry`: the substitution registry (patterns mapped to values), with activation and
  statistics.
- `conflict`: conflicts between substitutions and how an addition resolves them.
- `calendar`: the proleptic Gregorian calendar and the calls into chrono.
- `date_and_time`: DAY, MONTH, YEAR, DATE, EDATE, EOMONTH, DATEDIF and TODAY over serial
  numbers.
- `listing`: the `{:?}` listing of conflicts that a refused addition reports.
- `laws`: properties that relate several operations, proved over the models.

Numbers are carried as the bit patterns of doubles. `app/` holds what works with doubles
directly, reads the clock, and the Python bindings; `tests/` exercises the library.

The Python bindings in `app/` cover the pattern API only. The workbook bindings (the
model class with its cell, sheet and file methods, the result conversion and date
timestamp helpers, and the module's load and create functions) and the data-frame
wrapper are not part of this crate: they drive the spreadsheet engine's workbook model
and the polars data frame, and neither of those crates is a dependency here.
