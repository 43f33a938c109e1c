//! Fluent builders for pattern keys, and constructors of criteria and lookup values.
//!
//! Numbers are given by the IEEE-754 bit pattern of the double they stand for.

use vstd::prelude::*;
use crate::pattern_key::{
    CellReferenceIndex, CriteriaPair, CriteriaValue, LookupValue, NumberKey, PairModel,
    PatternKey, PatternModel, TableModel, TableRange, ValueModel, canonical_bits, pairs_view,
    sheet_copy, sheet_view,
};

verus! {

impl CriteriaValue {
    /// Create a string criteria value.
    pub fn string(value: &str) -> (r: CriteriaValue)
        ensures
            r@ == ValueModel::Text(value@),
    {
        CriteriaValue::String(String::from_str(value))
    }

    /// Create a numeric criteria value from the bit pattern of a double.
    pub fn number(bits: u64) -> (r: CriteriaValue)
        ensures
            r@ == ValueModel::Number(canonical_bits(bits)),
    {
        CriteriaValue::Number(NumberKey::from_bits(bits))
    }

    /// Create a cell reference criteria value.
    pub fn cell_ref(sheet: u32, row: i32, column: i32) -> (r: CriteriaValue)
        ensures
            r@ == ValueModel::Cell(CellReferenceIndex { sheet, row, column }),
    {
        CriteriaValue::CellReference(CellReferenceIndex { sheet, row, column })
    }
}

impl LookupValue {
    /// Create a string lookup value.
    pub fn string(value: &str) -> (r: LookupValue)
        ensures
            r@ == ValueModel::Text(value@),
    {
        LookupValue::String(String::from_str(value))
    }

    /// Create a numeric lookup value from the bit pattern of a double.
    pub fn number(bits: u64) -> (r: LookupValue)
        ensures
            r@ == ValueModel::Number(canonical_bits(bits)),
    {
        LookupValue::Number(NumberKey::from_bits(bits))
    }

    /// Create a cell reference lookup value.
    pub fn cell_ref(sheet: u32, row: i32, column: i32) -> (r: LookupValue)
        ensures
            r@ == ValueModel::Cell(CellReferenceIndex { sheet, row, column }),
    {
        LookupValue::CellReference(CellReferenceIndex { sheet, row, column })
    }
}

/// Appends one criteria pair to a list, with its abstract value.
fn push_pair(pairs: &mut Vec<CriteriaPair>, column: i32, criteria: CriteriaValue)
    ensures
        pairs_view(final(pairs)@) == pairs_view(old(pairs)@).push(
            PairModel { column, criteria: criteria@ },
        ),
{
    let ghost before = pairs@;
    pairs.push(CriteriaPair { column, criteria });
    assert(pairs_view(pairs@) =~= pairs_view(before).push(
        PairModel { column, criteria: criteria@ },
    ));
}

// ---------------------------------------------------------------------------
// SUMIFS
// ---------------------------------------------------------------------------

/// A field that the Python bindings' SUMIFS and AVERAGEIFS builders need before they
/// build: those builders also refuse a pattern without criteria pairs.
#[derive(Clone, Copy, Debug, PartialEq, Eq, Structural)]
pub enum MissingField {
    SumColumn,
    AverageColumn,
    CriteriaPairs,
}

/// The message raised for a missing field.
pub open spec fn missing_field_text(f: MissingField) -> Seq<char> {
    match f {
        MissingField::SumColumn => "Sum column is required"@,
        MissingField::AverageColumn => "Average column is required"@,
        MissingField::CriteriaPairs => "At least one criteria pair is required"@,
    }
}

impl MissingField {
    /// The message raised for this missing field.
    pub fn message(&self) -> (s: String)
        ensures
            s@ == missing_field_text(*self),
    {
        proof {
            reveal_strlit("Sum column is required");
            reveal_strlit("Average column is required");
            reveal_strlit("At least one criteria pair is required");
        }
        match self {
            MissingField::SumColumn => String::from_str("Sum column is required"),
            MissingField::AverageColumn => String::from_str("Average column is required"),
            MissingField::CriteriaPairs => String::from_str(
                "At least one criteria pair is required",
            ),
        }
    }
}

/// Builder of SUMIFS patterns.
pub struct SumifsBuilder {
    sheet: Option<String>,
    sum_column: Option<i32>,
    criteria_pairs: Vec<CriteriaPair>,
}

/// What a [`SumifsBuilder`] has been given so far.
pub struct SumifsDraft {
    pub sheet: Option<Seq<char>>,
    pub sum_column: Option<i32>,
    pub criteria_pairs: Seq<PairModel>,
}

impl View for SumifsBuilder {
    type V = SumifsDraft;

    closed spec fn view(&self) -> SumifsDraft {
        SumifsDraft {
            sheet: sheet_view(self.sheet),
            sum_column: self.sum_column,
            criteria_pairs: pairs_view(self.criteria_pairs@),
        }
    }
}

impl SumifsBuilder {
    /// Create a new SUMIFS pattern builder.
    pub fn new() -> (b: SumifsBuilder)
        ensures
            b@ == (SumifsDraft { sheet: None, sum_column: None, criteria_pairs: Seq::empty() }),
    {
        let b = SumifsBuilder { sheet: None, sum_column: None, criteria_pairs: Vec::new() };
        assert(pairs_view(b.criteria_pairs@) =~= Seq::<PairModel>::empty());
        b
    }

    /// Set the sheet name for all ranges in this pattern.
    pub fn sheet(self, sheet: &str) -> (b: SumifsBuilder)
        ensures
            b@ == (SumifsDraft { sheet: Some(sheet@), ..self@ }),
    {
        SumifsBuilder { sheet: Some(String::from_str(sheet)), ..self }
    }

    /// Set the column of the sum range (1-based).
    pub fn sum_column(self, column: i32) -> (b: SumifsBuilder)
        ensures
            b@ == (SumifsDraft { sum_column: Some(column), ..self@ }),
    {
        SumifsBuilder { sum_column: Some(column), ..self }
    }

    /// Add a criteria pair to the pattern.
    pub fn criteria(self, column: i32, criteria: CriteriaValue) -> (b: SumifsBuilder)
        ensures
            b@ == (SumifsDraft {
                criteria_pairs: self@.criteria_pairs.push(
                    PairModel { column, criteria: criteria@ },
                ),
                ..self@
            }),
    {
        let mut b = self;
        push_pair(&mut b.criteria_pairs, column, criteria);
        b
    }

    /// Add a string criteria pair.
    pub fn criteria_string(self, column: i32, criteria: &str) -> (b: SumifsBuilder)
        ensures
            b@ == (SumifsDraft {
                criteria_pairs: self@.criteria_pairs.push(
                    PairModel { column, criteria: ValueModel::Text(criteria@) },
                ),
                ..self@
            }),
    {
        self.criteria(column, CriteriaValue::string(criteria))
    }

    /// Add a numeric criteria pair, the number given by its bit pattern.
    pub fn criteria_number(self, column: i32, bits: u64) -> (b: SumifsBuilder)
        ensures
            b@ == (SumifsDraft {
                criteria_pairs: self@.criteria_pairs.push(
                    PairModel { column, criteria: ValueModel::Number(canonical_bits(bits)) },
                ),
                ..self@
            }),
    {
        self.criteria(column, CriteriaValue::number(bits))
    }

    /// Add a cell reference criteria pair.
    pub fn criteria_cell(self, column: i32, cell_ref: CellReferenceIndex) -> (b: SumifsBuilder)
        ensures
            b@ == (SumifsDraft {
                criteria_pairs: self@.criteria_pairs.push(
                    PairModel { column, criteria: ValueModel::Cell(cell_ref) },
                ),
                ..self@
            }),
    {
        self.criteria(column, CriteriaValue::CellReference(cell_ref))
    }

    /// Build the pattern; `None` when no sum column was given.
    pub fn build(self) -> (r: Option<PatternKey>)
        ensures
            match self@.sum_column {
                None => r is None,
                Some(c) => r is Some && r->0@ == (PatternModel::Sumifs {
                    sheet: self@.sheet,
                    sum_column: c,
                    criteria_pairs: self@.criteria_pairs,
                }),
            },
    {
        match self.sum_column {
            None => None,
            Some(c) => Some(
                PatternKey::Sumifs {
                    sheet: self.sheet,
                    sum_column: c,
                    criteria_pairs: self.criteria_pairs,
                },
            ),
        }
    }

    /// Build the pattern only when the sum column and at least one criteria pair were
    /// given, naming the first missing field otherwise.
    pub fn build_complete(self) -> (r: Result<PatternKey, MissingField>)
        ensures
            match self@.sum_column {
                None => r == Err::<PatternKey, MissingField>(MissingField::SumColumn),
                Some(c) => if self@.criteria_pairs.len() == 0 {
                    r == Err::<PatternKey, MissingField>(MissingField::CriteriaPairs)
                } else {
                    match r {
                        Ok(k) => k@ == (PatternModel::Sumifs {
                            sheet: self@.sheet,
                            sum_column: c,
                            criteria_pairs: self@.criteria_pairs,
                        }),
                        Err(_) => false,
                    }
                },
            },
    {
        if self.sum_column.is_none() {
            return Err(MissingField::SumColumn);
        }
        if self.criteria_pairs.len() == 0 {
            return Err(MissingField::CriteriaPairs);
        }
        match self.build() {
            Some(k) => Ok(k),
            None => Err(MissingField::SumColumn),
        }
    }
}

impl Default for SumifsBuilder {
    fn default() -> (b: SumifsBuilder)
        ensures
            b@ == (SumifsDraft { sheet: None, sum_column: None, criteria_pairs: Seq::empty() }),
    {
        SumifsBuilder::new()
    }
}

// ---------------------------------------------------------------------------
// COUNTIFS
// ---------------------------------------------------------------------------

/// Builder of COUNTIFS patterns.
pub struct CountifsBuilder {
    sheet: Option<String>,
    criteria_pairs: Vec<CriteriaPair>,
}

/// What a [`CountifsBuilder`] has been given so far.
pub struct CountifsDraft {
    pub sheet: Option<Seq<char>>,
    pub criteria_pairs: Seq<PairModel>,
}

impl View for CountifsBuilder {
    type V = CountifsDraft;

    closed spec fn view(&self) -> CountifsDraft {
        CountifsDraft {
            sheet: sheet_view(self.sheet),
            criteria_pairs: pairs_view(self.criteria_pairs@),
        }
    }
}

impl CountifsBuilder {
    /// Create a new COUNTIFS pattern builder.
    pub fn new() -> (b: CountifsBuilder)
        ensures
            b@ == (CountifsDraft { sheet: None, criteria_pairs: Seq::empty() }),
    {
        let b = CountifsBuilder { sheet: None, criteria_pairs: Vec::new() };
        assert(pairs_view(b.criteria_pairs@) =~= Seq::<PairModel>::empty());
        b
    }

    /// Set the sheet name for all ranges in this pattern.
    pub fn sheet(self, sheet: &str) -> (b: CountifsBuilder)
        ensures
            b@ == (CountifsDraft { sheet: Some(sheet@), ..self@ }),
    {
        CountifsBuilder { sheet: Some(String::from_str(sheet)), ..self }
    }

    /// Add a criteria pair to the pattern.
    pub fn criteria(self, column: i32, criteria: CriteriaValue) -> (b: CountifsBuilder)
        ensures
            b@ == (CountifsDraft {
                criteria_pairs: self@.criteria_pairs.push(
                    PairModel { column, criteria: criteria@ },
                ),
                ..self@
            }),
    {
        let mut b = self;
        push_pair(&mut b.criteria_pairs, column, criteria);
        b
    }

    /// Add a string criteria pair.
    pub fn criteria_string(self, column: i32, criteria: &str) -> (b: CountifsBuilder)
        ensures
            b@ == (CountifsDraft {
                criteria_pairs: self@.criteria_pairs.push(
                    PairModel { column, criteria: ValueModel::Text(criteria@) },
                ),
                ..self@
            }),
    {
        self.criteria(column, CriteriaValue::string(criteria))
    }

    /// Add a numeric criteria pair, the number given by its bit pattern.
    pub fn criteria_number(self, column: i32, bits: u64) -> (b: CountifsBuilder)
        ensures
            b@ == (CountifsDraft {
                criteria_pairs: self@.criteria_pairs.push(
                    PairModel { column, criteria: ValueModel::Number(canonical_bits(bits)) },
                ),
                ..self@
            }),
    {
        self.criteria(column, CriteriaValue::number(bits))
    }

    /// Add a cell reference criteria pair.
    pub fn criteria_cell(self, column: i32, cell_ref: CellReferenceIndex) -> (b: CountifsBuilder)
        ensures
            b@ == (CountifsDraft {
                criteria_pairs: self@.criteria_pairs.push(
                    PairModel { column, criteria: ValueModel::Cell(cell_ref) },
                ),
                ..self@
            }),
    {
        self.criteria(column, CriteriaValue::CellReference(cell_ref))
    }

    /// Build the pattern; `None` when no criteria pair was given.
    pub fn build(self) -> (r: Option<PatternKey>)
        ensures
            self@.criteria_pairs.len() == 0 ==> r is None,
            self@.criteria_pairs.len() > 0 ==> r is Some && r->0@ == (PatternModel::Countifs {
                sheet: self@.sheet,
                criteria_pairs: self@.criteria_pairs,
            }),
    {
        if self.criteria_pairs.len() == 0 {
            return None;
        }
        Some(PatternKey::Countifs { sheet: self.sheet, criteria_pairs: self.criteria_pairs })
    }
}

impl Default for CountifsBuilder {
    fn default() -> (b: CountifsBuilder)
        ensures
            b@ == (CountifsDraft { sheet: None, criteria_pairs: Seq::empty() }),
    {
        CountifsBuilder::new()
    }
}

// ---------------------------------------------------------------------------
// AVERAGEIFS
// ---------------------------------------------------------------------------

/// Builder of AVERAGEIFS patterns.
pub struct AverageifsBuilder {
    sheet: Option<String>,
    average_column: Option<i32>,
    criteria_pairs: Vec<CriteriaPair>,
}

/// What an [`AverageifsBuilder`] has been given so far.
pub struct AverageifsDraft {
    pub sheet: Option<Seq<char>>,
    pub average_column: Option<i32>,
    pub criteria_pairs: Seq<PairModel>,
}

impl View for AverageifsBuilder {
    type V = AverageifsDraft;

    closed spec fn view(&self) -> AverageifsDraft {
        AverageifsDraft {
            sheet: sheet_view(self.sheet),
            average_column: self.average_column,
            criteria_pairs: pairs_view(self.criteria_pairs@),
        }
    }
}

impl AverageifsBuilder {
    /// Create a new AVERAGEIFS pattern builder.
    pub fn new() -> (b: AverageifsBuilder)
        ensures
            b@ == (AverageifsDraft {
                sheet: None,
                average_column: None,
                criteria_pairs: Seq::empty(),
            }),
    {
        let b = AverageifsBuilder { sheet: None, average_column: None, criteria_pairs: Vec::new() };
        assert(pairs_view(b.criteria_pairs@) =~= Seq::<PairModel>::empty());
        b
    }

    /// Set the sheet name for all ranges in this pattern.
    pub fn sheet(self, sheet: &str) -> (b: AverageifsBuilder)
        ensures
            b@ == (AverageifsDraft { sheet: Some(sheet@), ..self@ }),
    {
        AverageifsBuilder { sheet: Some(String::from_str(sheet)), ..self }
    }

    /// Set the column of the average range (1-based).
    pub fn average_column(self, column: i32) -> (b: AverageifsBuilder)
        ensures
            b@ == (AverageifsDraft { average_column: Some(column), ..self@ }),
    {
        AverageifsBuilder { average_column: Some(column), ..self }
    }

    /// Add a criteria pair to the pattern.
    pub fn criteria(self, column: i32, criteria: CriteriaValue) -> (b: AverageifsBuilder)
        ensures
            b@ == (AverageifsDraft {
                criteria_pairs: self@.criteria_pairs.push(
                    PairModel { column, criteria: criteria@ },
                ),
                ..self@
            }),
    {
        let mut b = self;
        push_pair(&mut b.criteria_pairs, column, criteria);
        b
    }

    /// Add a string criteria pair.
    pub fn criteria_string(self, column: i32, criteria: &str) -> (b: AverageifsBuilder)
        ensures
            b@ == (AverageifsDraft {
                criteria_pairs: self@.criteria_pairs.push(
                    PairModel { column, criteria: ValueModel::Text(criteria@) },
                ),
                ..self@
            }),
    {
        self.criteria(column, CriteriaValue::string(criteria))
    }

    /// Add a numeric criteria pair, the number given by its bit pattern.
    pub fn criteria_number(self, column: i32, bits: u64) -> (b: AverageifsBuilder)
        ensures
            b@ == (AverageifsDraft {
                criteria_pairs: self@.criteria_pairs.push(
                    PairModel { column, criteria: ValueModel::Number(canonical_bits(bits)) },
                ),
                ..self@
            }),
    {
        self.criteria(column, CriteriaValue::number(bits))
    }

    /// Add a cell reference criteria pair.
    pub fn criteria_cell(self, column: i32, cell_ref: CellReferenceIndex) -> (b: AverageifsBuilder)
        ensures
            b@ == (AverageifsDraft {
                criteria_pairs: self@.criteria_pairs.push(
                    PairModel { column, criteria: ValueModel::Cell(cell_ref) },
                ),
                ..self@
            }),
    {
        self.criteria(column, CriteriaValue::CellReference(cell_ref))
    }

    /// Build the pattern; `None` when no average column was given.
    pub fn build(self) -> (r: Option<PatternKey>)
        ensures
            match self@.average_column {
                None => r is None,
                Some(c) => r is Some && r->0@ == (PatternModel::Averageifs {
                    sheet: self@.sheet,
                    average_column: c,
                    criteria_pairs: self@.criteria_pairs,
                }),
            },
    {
        match self.average_column {
            None => None,
            Some(c) => Some(
                PatternKey::Averageifs {
                    sheet: self.sheet,
                    average_column: c,
                    criteria_pairs: self.criteria_pairs,
                },
            ),
        }
    }

    /// Build the pattern only when the average column and at least one criteria pair
    /// were given, naming the first missing field otherwise.
    pub fn build_complete(self) -> (r: Result<PatternKey, MissingField>)
        ensures
            match self@.average_column {
                None => r == Err::<PatternKey, MissingField>(MissingField::AverageColumn),
                Some(c) => if self@.criteria_pairs.len() == 0 {
                    r == Err::<PatternKey, MissingField>(MissingField::CriteriaPairs)
                } else {
                    match r {
                        Ok(k) => k@ == (PatternModel::Averageifs {
                            sheet: self@.sheet,
                            average_column: c,
                            criteria_pairs: self@.criteria_pairs,
                        }),
                        Err(_) => false,
                    }
                },
            },
    {
        if self.average_column.is_none() {
            return Err(MissingField::AverageColumn);
        }
        if self.criteria_pairs.len() == 0 {
            return Err(MissingField::CriteriaPairs);
        }
        match self.build() {
            Some(k) => Ok(k),
            None => Err(MissingField::AverageColumn),
        }
    }
}

impl Default for AverageifsBuilder {
    fn default() -> (b: AverageifsBuilder)
        ensures
            b@ == (AverageifsDraft {
                sheet: None,
                average_column: None,
                criteria_pairs: Seq::empty(),
            }),
    {
        AverageifsBuilder::new()
    }
}

// ---------------------------------------------------------------------------
// VLOOKUP
// ---------------------------------------------------------------------------

/// Builder of VLOOKUP patterns.
pub struct VlookupBuilder {
    sheet: Option<String>,
    lookup_value: Option<LookupValue>,
    table_range: Option<TableRange>,
    column_index: Option<u32>,
    exact_match: bool,
}

/// What a [`VlookupBuilder`] has been given so far.
pub struct VlookupDraft {
    pub sheet: Option<Seq<char>>,
    pub lookup_value: Option<ValueModel>,
    pub table_range: Option<TableModel>,
    pub column_index: Option<u32>,
    pub exact_match: bool,
}

impl View for VlookupBuilder {
    type V = VlookupDraft;

    closed spec fn view(&self) -> VlookupDraft {
        VlookupDraft {
            sheet: sheet_view(self.sheet),
            lookup_value: match self.lookup_value {
                Some(v) => Some(v@),
                None => None,
            },
            table_range: match self.table_range {
                Some(t) => Some(t@),
                None => None,
            },
            column_index: self.column_index,
            exact_match: self.exact_match,
        }
    }
}

impl VlookupBuilder {
    /// Create a new VLOOKUP pattern builder (approximate match by default).
    pub fn new() -> (b: VlookupBuilder)
        ensures
            b@ == (VlookupDraft {
                sheet: None,
                lookup_value: None,
                table_range: None,
                column_index: None,
                exact_match: false,
            }),
    {
        VlookupBuilder {
            sheet: None,
            lookup_value: None,
            table_range: None,
            column_index: None,
            exact_match: false,
        }
    }

    /// Set the sheet name used by tables given afterwards by coordinates.
    pub fn sheet(self, sheet: &str) -> (b: VlookupBuilder)
        ensures
            b@ == (VlookupDraft { sheet: Some(sheet@), ..self@ }),
    {
        VlookupBuilder { sheet: Some(String::from_str(sheet)), ..self }
    }

    /// Set the lookup value.
    pub fn lookup_value(self, lookup_value: LookupValue) -> (b: VlookupBuilder)
        ensures
            b@ == (VlookupDraft { lookup_value: Some(lookup_value@), ..self@ }),
    {
        VlookupBuilder { lookup_value: Some(lookup_value), ..self }
    }

    /// Set the lookup value to a string.
    pub fn lookup_string(self, value: &str) -> (b: VlookupBuilder)
        ensures
            b@ == (VlookupDraft { lookup_value: Some(ValueModel::Text(value@)), ..self@ }),
    {
        self.lookup_value(LookupValue::string(value))
    }

    /// Set the lookup value to a number given by its bit pattern.
    pub fn lookup_number(self, bits: u64) -> (b: VlookupBuilder)
        ensures
            b@ == (VlookupDraft {
                lookup_value: Some(ValueModel::Number(canonical_bits(bits))),
                ..self@
            }),
    {
        self.lookup_value(LookupValue::number(bits))
    }

    /// Set the lookup value to a cell reference.
    pub fn lookup_cell_ref(self, sheet: u32, row: i32, column: i32) -> (b: VlookupBuilder)
        ensures
            b@ == (VlookupDraft {
                lookup_value: Some(ValueModel::Cell(CellReferenceIndex { sheet, row, column })),
                ..self@
            }),
    {
        self.lookup_value(LookupValue::cell_ref(sheet, row, column))
    }

    /// Set the table range.
    pub fn table(self, table_range: TableRange) -> (b: VlookupBuilder)
        ensures
            b@ == (VlookupDraft { table_range: Some(table_range@), ..self@ }),
    {
        VlookupBuilder { table_range: Some(table_range), ..self }
    }

    /// Set the table range by coordinates, on the sheet set so far.
    pub fn table_range(
        self,
        start_row: i32,
        start_column: i32,
        end_row: i32,
        end_column: i32,
    ) -> (b: VlookupBuilder)
        ensures
            b@ == (VlookupDraft {
                table_range: Some(
                    TableModel { sheet: self@.sheet, start_row, start_column, end_row, end_column },
                ),
                ..self@
            }),
    {
        let sheet = sheet_copy(&self.sheet);
        VlookupBuilder {
            table_range: Some(TableRange { sheet, start_row, start_column, end_row, end_column }),
            ..self
        }
    }

    /// Set the table range by coordinates on the given sheet.
    pub fn table_range_with_sheet(
        self,
        sheet: &str,
        start_row: i32,
        start_column: i32,
        end_row: i32,
        end_column: i32,
    ) -> (b: VlookupBuilder)
        ensures
            b@ == (VlookupDraft {
                table_range: Some(
                    TableModel {
                        sheet: Some(sheet@),
                        start_row,
                        start_column,
                        end_row,
                        end_column,
                    },
                ),
                ..self@
            }),
    {
        let sheet_name = Some(String::from_str(sheet));
        VlookupBuilder {
            table_range: Some(
                TableRange { sheet: sheet_name, start_row, start_column, end_row, end_column },
            ),
            ..self
        }
    }

    /// Set the column index (1-based) to return from the table.
    pub fn column_index(self, column_index: u32) -> (b: VlookupBuilder)
        ensures
            b@ == (VlookupDraft { column_index: Some(column_index), ..self@ }),
    {
        VlookupBuilder { column_index: Some(column_index), ..self }
    }

    /// Set whether to use exact match.
    pub fn exact_match(self, exact_match: bool) -> (b: VlookupBuilder)
        ensures
            b@ == (VlookupDraft { exact_match, ..self@ }),
    {
        VlookupBuilder { exact_match, ..self }
    }

    /// Build the pattern; `None` unless the lookup value, the table and the column
    /// index were all given.
    pub fn build(self) -> (r: Option<PatternKey>)
        ensures
            match (self@.lookup_value, self@.table_range, self@.column_index) {
                (Some(v), Some(t), Some(c)) => r is Some && r->0@ == (PatternModel::Vlookup {
                    sheet: self@.sheet,
                    lookup_value: v,
                    table_range: t,
                    column_index: c,
                    exact_match: self@.exact_match,
                }),
                _ => r is None,
            },
    {
        match (self.lookup_value, self.table_range, self.column_index) {
            (Some(v), Some(t), Some(c)) => Some(
                PatternKey::Vlookup {
                    sheet: self.sheet,
                    lookup_value: v,
                    table_range: t,
                    column_index: c,
                    exact_match: self.exact_match,
                },
            ),
            _ => None,
        }
    }
}

impl Default for VlookupBuilder {
    fn default() -> (b: VlookupBuilder)
        ensures
            b@ == (VlookupDraft {
                sheet: None,
                lookup_value: None,
                table_range: None,
                column_index: None,
                exact_match: false,
            }),
    {
        VlookupBuilder::new()
    }
}

impl PatternKey {
    /// Start building a SUMIFS pattern.
    pub fn sumifs() -> (b: SumifsBuilder)
        ensures
            b@ == (SumifsDraft { sheet: None, sum_column: None, criteria_pairs: Seq::empty() }),
    {
        SumifsBuilder::new()
    }

    /// Start building a COUNTIFS pattern.
    pub fn countifs() -> (b: CountifsBuilder)
        ensures
            b@ == (CountifsDraft { sheet: None, criteria_pairs: Seq::empty() }),
    {
        CountifsBuilder::new()
    }

    /// Start building an AVERAGEIFS pattern.
    pub fn averageifs() -> (b: AverageifsBuilder)
        ensures
            b@ == (AverageifsDraft {
                sheet: None,
                average_column: None,
                criteria_pairs: Seq::empty(),
            }),
    {
        AverageifsBuilder::new()
    }

    /// Start building a VLOOKUP pattern.
    pub fn vlookup() -> (b: VlookupBuilder)
        ensures
            b@ == (VlookupDraft {
                sheet: None,
                lookup_value: None,
                table_range: None,
                column_index: None,
                exact_match: false,
            }),
    {
        VlookupBuilder::new()
    }
}

} // verus!
