//! Validation of pattern keys.

use vstd::prelude::*;
use vstd::utf8::encode_utf8;

use crate::error::{ErrorModel, PatternError, unit_view};
use crate::pattern_key::{
    CellReferenceIndex, CriteriaPair, CriteriaValue, LookupValue, PairModel, PatternKey, PatternModel,
    TableModel, TableRange, ValueModel, pairs_view, sheet_view,
};

verus! {

/// Largest number of criteria pairs a pattern may hold.
pub const MAX_CRITERIA: usize = 100;

/// Number of rows of a worksheet (Excel row limit).
pub const MAX_ROWS: i32 = 1_048_576;

/// Number of columns of a worksheet (Excel column limit).
pub const MAX_COLS: i32 = 16_384;

/// A sheet name is valid when it is non-empty and at most 255 bytes long in UTF-8.
pub open spec fn sheet_name_valid(name: Seq<char>) -> bool {
    name.len() > 0 && encode_utf8(name).len() <= 255
}

/// Outcome of checking an optional sheet name.
pub open spec fn sheet_check(sheet: Option<Seq<char>>) -> Result<(), ErrorModel> {
    match sheet {
        Some(name) => if sheet_name_valid(name) {
            Ok(())
        } else {
            Err(ErrorModel::InvalidSheetName { name })
        },
        None => Ok(()),
    }
}

/// Outcome of checking that a cell reference lies on a worksheet.
pub open spec fn cell_check(c: CellReferenceIndex) -> Result<(), ErrorModel> {
    if c.row < 0 || c.row >= MAX_ROWS || c.column < 0 || c.column >= MAX_COLS {
        Err(ErrorModel::CellOutOfBounds { sheet: c.sheet, row: c.row, column: c.column })
    } else {
        Ok(())
    }
}

/// Outcome of checking a criteria or lookup value: only cell references can fail.
pub open spec fn value_check(v: ValueModel) -> Result<(), ErrorModel> {
    match v {
        ValueModel::Cell(c) => cell_check(c),
        _ => Ok(()),
    }
}

/// Whether some pair before position `i` uses column `column`.
pub open spec fn column_seen(pairs: Seq<PairModel>, i: int, column: i32) -> bool {
    exists|j: int| 0 <= j < i && (#[trigger] pairs[j]).column == column
}

/// Outcome of checking pair `i`, given that the pairs before it passed.
pub open spec fn pair_check(pairs: Seq<PairModel>, i: int) -> Result<(), ErrorModel> {
    let p = pairs[i];
    if p.column < 0 {
        Err(ErrorModel::InvalidColumn { column: p.column })
    } else if column_seen(pairs, i, p.column) {
        Err(ErrorModel::DuplicateColumn { column: p.column })
    } else {
        value_check(p.criteria)
    }
}

/// Outcome of checking the first `n` pairs in order: the first failure, if any.
pub open spec fn pairs_check(pairs: Seq<PairModel>, n: nat) -> Result<(), ErrorModel>
    decreases n,
{
    if n == 0 {
        Ok(())
    } else {
        match pairs_check(pairs, (n - 1) as nat) {
            Err(e) => Err(e),
            Ok(_) => pair_check(pairs, n - 1),
        }
    }
}

/// Outcome of checking an IFS-family pattern; `data_column` is the sum or average column
/// (none for COUNTIFS).
pub open spec fn ifs_check(
    sheet: Option<Seq<char>>,
    data_column: Option<i32>,
    pairs: Seq<PairModel>,
) -> Result<(), ErrorModel> {
    if pairs.len() == 0 {
        Err(ErrorModel::EmptyCriteria)
    } else if pairs.len() > MAX_CRITERIA {
        Err(ErrorModel::TooManyCriteria { max: MAX_CRITERIA, found: pairs.len() as usize })
    } else if data_column is Some && data_column->0 < 0 {
        Err(ErrorModel::InvalidColumn { column: data_column->0 })
    } else {
        match sheet_check(sheet) {
            Err(e) => Err(e),
            Ok(_) => pairs_check(pairs, pairs.len()),
        }
    }
}

/// Outcome of checking a table range.
pub open spec fn table_check(t: TableModel) -> Result<(), ErrorModel> {
    match sheet_check(t.sheet) {
        Err(e) => Err(e),
        Ok(_) => if t.start_row < 0 || t.start_row >= MAX_ROWS || t.start_column < 0
            || t.start_column >= MAX_COLS {
            Err(ErrorModel::CellOutOfBounds { sheet: 0, row: t.start_row, column: t.start_column })
        } else if t.end_row < 0 || t.end_row >= MAX_ROWS || t.end_column < 0 || t.end_column
            >= MAX_COLS {
            Err(ErrorModel::CellOutOfBounds { sheet: 0, row: t.end_row, column: t.end_column })
        } else if t.start_row > t.end_row || t.start_column > t.end_column {
            Err(ErrorModel::InvalidColumn { column: -1i32 })
        } else {
            Ok(())
        },
    }
}

/// Number of columns of a table range that passed [`table_check`].
pub open spec fn table_width(t: TableModel) -> int {
    t.end_column - t.start_column + 1
}

/// Outcome of checking a VLOOKUP pattern.
pub open spec fn vlookup_check(
    sheet: Option<Seq<char>>,
    lookup: ValueModel,
    table: TableModel,
    column_index: u32,
) -> Result<(), ErrorModel> {
    match sheet_check(sheet) {
        Err(e) => Err(e),
        Ok(_) => match value_check(lookup) {
            Err(e) => Err(e),
            Ok(_) => match table_check(table) {
                Err(e) => Err(e),
                Ok(_) => if column_index == 0 {
                    Err(ErrorModel::InvalidColumn { column: 0 })
                } else if column_index > table_width(table) {
                    Err(ErrorModel::InvalidColumn { column: column_index as i32 })
                } else {
                    Ok(())
                },
            },
        },
    }
}

/// Outcome of validating a pattern.
pub open spec fn pattern_check(p: PatternModel) -> Result<(), ErrorModel> {
    match p {
        PatternModel::Sumifs { sheet, sum_column, criteria_pairs } => ifs_check(
            sheet,
            Some(sum_column),
            criteria_pairs,
        ),
        PatternModel::Countifs { sheet, criteria_pairs } => ifs_check(sheet, None, criteria_pairs),
        PatternModel::Averageifs { sheet, average_column, criteria_pairs } => ifs_check(
            sheet,
            Some(average_column),
            criteria_pairs,
        ),
        PatternModel::Vlookup { sheet, lookup_value, table_range, column_index, .. } =>
            vlookup_check(sheet, lookup_value, table_range, column_index),
    }
}

/// Checks an optional sheet name.
pub fn validate_sheet(sheet: &Option<String>) -> (r: Result<(), PatternError>)
    ensures
        unit_view(r) == sheet_check(sheet_view(*sheet)),
{
    match sheet {
        Some(name) => {
            let s = name.as_str();
            let bytes = s.as_bytes();
            proof {
                broadcast use vstd::slice::axiom_spec_len;
            }
            if s.is_empty() || bytes.len() > 255 {
                Err(PatternError::InvalidSheetName { name: name.clone() })
            } else {
                Ok(())
            }
        },
        None => Ok(()),
    }
}

/// Checks that a cell reference lies on a worksheet.
pub fn validate_cell(c: &CellReferenceIndex) -> (r: Result<(), PatternError>)
    ensures
        unit_view(r) == cell_check(*c),
{
    if c.row < 0 || c.row >= MAX_ROWS || c.column < 0 || c.column >= MAX_COLS {
        Err(PatternError::CellOutOfBounds { sheet: c.sheet, row: c.row, column: c.column })
    } else {
        Ok(())
    }
}

/// Checks a criteria value: string and numeric criteria are always accepted (as in Excel,
/// empty strings, NaN and infinities included); cell references must lie on a worksheet.
pub fn validate_criteria_value(criteria: &CriteriaValue) -> (r: Result<(), PatternError>)
    ensures
        unit_view(r) == value_check(criteria@),
{
    match criteria {
        CriteriaValue::CellReference(c) => validate_cell(c),
        _ => Ok(()),
    }
}

/// Checks a lookup value: only cell references can be out of bounds.
pub fn validate_lookup_value(lookup_value: &LookupValue) -> (r: Result<(), PatternError>)
    ensures
        unit_view(r) == value_check(lookup_value@),
{
    match lookup_value {
        LookupValue::CellReference(c) => validate_cell(c),
        _ => Ok(()),
    }
}

/// Whether some pair before position `i` uses column `column`.
fn column_used_before(pairs: &Vec<CriteriaPair>, i: usize, column: i32) -> (r: bool)
    requires
        i <= pairs.len(),
    ensures
        r == column_seen(pairs_view(pairs@), i as int, column),
{
    let ghost pv = pairs_view(pairs@);
    let mut j: usize = 0;
    while j < i
        invariant
            i <= pairs.len(),
            j <= i,
            pv == pairs_view(pairs@),
            forall|k: int| 0 <= k < j ==> (#[trigger] pv[k]).column != column,
        decreases i - j,
    {
        if pairs[j].column == column {
            assert(pv[j as int].column == column);
            return true;
        }
        j = j + 1;
    }
    false
}

/// Checks the criteria pairs in order and reports the first failure.
pub fn validate_pairs(pairs: &Vec<CriteriaPair>) -> (r: Result<(), PatternError>)
    ensures
        unit_view(r) == pairs_check(pairs_view(pairs@), pairs@.len()),
{
    let ghost pv = pairs_view(pairs@);
    let mut i: usize = 0;
    while i < pairs.len()
        invariant
            i <= pairs.len(),
            pv == pairs_view(pairs@),
            pairs_check(pv, i as nat) == Ok::<(), ErrorModel>(()),
        decreases pairs.len() - i,
    {
        let pair = &pairs[i];
        assert(pv[i as int] == pair@);
        if pair.column < 0 {
            let r = Err(PatternError::InvalidColumn { column: pair.column });
            proof {
                lemma_pairs_check_stops(pv, (i + 1) as nat, pairs@.len());
            }
            return r;
        }
        if column_used_before(pairs, i, pair.column) {
            let r = Err(PatternError::DuplicateColumn { column: pair.column });
            proof {
                lemma_pairs_check_stops(pv, (i + 1) as nat, pairs@.len());
            }
            return r;
        }
        match validate_criteria_value(&pair.criteria) {
            Err(e) => {
                proof {
                    lemma_pairs_check_stops(pv, (i + 1) as nat, pairs@.len());
                }
                return Err(e);
            },
            Ok(_) => {},
        }
        i = i + 1;
    }
    Ok(())
}

/// Once the check of a prefix fails, the checks of all longer prefixes fail the same way.
proof fn lemma_pairs_check_stops(pairs: Seq<PairModel>, n: nat, m: nat)
    requires
        n <= m,
        pairs_check(pairs, n) is Err,
    ensures
        pairs_check(pairs, m) == pairs_check(pairs, n),
    decreases m - n,
{
    if n < m {
        lemma_pairs_check_stops(pairs, n, (m - 1) as nat);
    }
}

/// Checks an IFS-family pattern.
fn validate_ifs(sheet: &Option<String>, data_column: Option<i32>, pairs: &Vec<CriteriaPair>) -> (r:
    Result<(), PatternError>)
    ensures
        unit_view(r) == ifs_check(sheet_view(*sheet), data_column, pairs_view(pairs@)),
{
    if pairs.len() == 0 {
        return Err(PatternError::EmptyCriteria);
    }
    if pairs.len() > MAX_CRITERIA {
        return Err(PatternError::TooManyCriteria { max: MAX_CRITERIA, found: pairs.len() });
    }
    match data_column {
        Some(c) => {
            if c < 0 {
                return Err(PatternError::InvalidColumn { column: c });
            }
        },
        None => {},
    }
    match validate_sheet(sheet) {
        Err(e) => {
            return Err(e);
        },
        Ok(_) => {},
    }
    validate_pairs(pairs)
}

/// Checks a table range: its sheet name, both corners on the worksheet, and
/// start not after end.
pub fn validate_table_range(table_range: &TableRange) -> (r: Result<(), PatternError>)
    ensures
        unit_view(r) == table_check(table_range@),
{
    match validate_sheet(&table_range.sheet) {
        Err(e) => {
            return Err(e);
        },
        Ok(_) => {},
    }
    if table_range.start_row < 0 || table_range.start_row >= MAX_ROWS {
        return Err(
            PatternError::CellOutOfBounds {
                sheet: 0,
                row: table_range.start_row,
                column: table_range.start_column,
            },
        );
    }
    if table_range.start_column < 0 || table_range.start_column >= MAX_COLS {
        return Err(
            PatternError::CellOutOfBounds {
                sheet: 0,
                row: table_range.start_row,
                column: table_range.start_column,
            },
        );
    }
    if table_range.end_row < 0 || table_range.end_row >= MAX_ROWS {
        return Err(
            PatternError::CellOutOfBounds {
                sheet: 0,
                row: table_range.end_row,
                column: table_range.end_column,
            },
        );
    }
    if table_range.end_column < 0 || table_range.end_column >= MAX_COLS {
        return Err(
            PatternError::CellOutOfBounds {
                sheet: 0,
                row: table_range.end_row,
                column: table_range.end_column,
            },
        );
    }
    if table_range.start_row > table_range.end_row {
        return Err(PatternError::InvalidColumn { column: -1 });
    }
    if table_range.start_column > table_range.end_column {
        return Err(PatternError::InvalidColumn { column: -1 });
    }
    Ok(())
}

/// Checks a VLOOKUP pattern.
fn validate_vlookup(
    sheet: &Option<String>,
    lookup_value: &LookupValue,
    table_range: &TableRange,
    column_index: u32,
) -> (r: Result<(), PatternError>)
    ensures
        unit_view(r) == vlookup_check(
            sheet_view(*sheet),
            lookup_value@,
            table_range@,
            column_index,
        ),
{
    match validate_sheet(sheet) {
        Err(e) => {
            return Err(e);
        },
        Ok(_) => {},
    }
    match validate_lookup_value(lookup_value) {
        Err(e) => {
            return Err(e);
        },
        Ok(_) => {},
    }
    match validate_table_range(table_range) {
        Err(e) => {
            return Err(e);
        },
        Ok(_) => {},
    }
    if column_index == 0 {
        return Err(PatternError::InvalidColumn { column: 0 });
    }
    let table_width: u32 = (table_range.end_column - table_range.start_column + 1) as u32;
    if column_index > table_width {
        return Err(PatternError::InvalidColumn { column: column_index as i32 });
    }
    Ok(())
}

impl PatternKey {
    /// Validates this pattern for correctness and consistency: `Ok(())` exactly when
    /// [`pattern_check`] accepts it, else the first error that check names.
    pub fn validate(&self) -> (r: Result<(), PatternError>)
        ensures
            unit_view(r) == pattern_check(self@),
    {
        match self {
            PatternKey::Sumifs { sheet, sum_column, criteria_pairs } => validate_ifs(
                sheet,
                Some(*sum_column),
                criteria_pairs,
            ),
            PatternKey::Countifs { sheet, criteria_pairs } => validate_ifs(
                sheet,
                None,
                criteria_pairs,
            ),
            PatternKey::Averageifs { sheet, average_column, criteria_pairs } => validate_ifs(
                sheet,
                Some(*average_column),
                criteria_pairs,
            ),
            PatternKey::Vlookup { sheet, lookup_value, table_range, column_index, .. } =>
                validate_vlookup(sheet, lookup_value, table_range, *column_index),
        }
    }
}

} // verus!
