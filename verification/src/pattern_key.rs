//! Pattern keys for IFS-family and VLOOKUP formulas, their abstract models,
//! and verified structural equality and copying.

use vstd::prelude::*;

verus! {

/// A resolved cell reference: sheet index, row and column.
#[derive(Clone, Copy, Debug, PartialEq, Eq, Hash, Structural)]
pub struct CellReferenceIndex {
    pub sheet: u32,
    pub row: i32,
    pub column: i32,
}

/// Bit pattern of a double with the equality of an ordered float: every NaN has the
/// same representation and negative zero is stored as positive zero, so two keys are
/// equal exactly when the numbers they stand for compare equal (NaN equal to NaN).
#[derive(Clone, Copy, Debug, PartialEq, Eq, Hash, Structural)]
pub struct NumberKey {
    bits: u64,
}

/// The single NaN representation a key uses.
pub open spec fn canonical_nan_bits() -> u64 {
    0x7ff8_0000_0000_0000u64
}

/// Whether the IEEE-754 binary64 pattern `b` encodes a NaN.
pub open spec fn is_nan_bits(b: u64) -> bool {
    &&& (b & 0x7ff0_0000_0000_0000u64) == 0x7ff0_0000_0000_0000u64
    &&& (b & 0x000f_ffff_ffff_ffffu64) != 0
}

/// Canonical representation of the double with bit pattern `b`.
pub open spec fn canonical_bits(b: u64) -> u64 {
    if is_nan_bits(b) {
        canonical_nan_bits()
    } else if b == 0x8000_0000_0000_0000u64 {
        0
    } else {
        b
    }
}

impl NumberKey {
    /// The canonical bit pattern held by this key.
    pub closed spec fn spec_bits(self) -> u64 {
        self.bits
    }

    /// Key for the double whose IEEE-754 bit pattern is `bits`.
    pub fn from_bits(bits: u64) -> (k: NumberKey)
        ensures
            k.spec_bits() == canonical_bits(bits),
    {
        let exponent = bits & 0x7ff0_0000_0000_0000u64;
        let fraction = bits & 0x000f_ffff_ffff_ffffu64;
        if exponent == 0x7ff0_0000_0000_0000u64 && fraction != 0 {
            NumberKey { bits: 0x7ff8_0000_0000_0000u64 }
        } else if bits == 0x8000_0000_0000_0000u64 {
            NumberKey { bits: 0 }
        } else {
            NumberKey { bits }
        }
    }

    /// The canonical bit pattern held by this key.
    pub fn bits(&self) -> (b: u64)
        ensures
            b == self.spec_bits(),
    {
        self.bits
    }
}

/// Two keys are equal exactly when their bit patterns are.
pub proof fn lemma_number_key_eq(a: NumberKey, b: NumberKey)
    ensures
        (a == b) <==> (a.spec_bits() == b.spec_bits()),
{
}

/// Criteria value of an IFS-family pattern.
#[derive(Clone, Debug, PartialEq, Eq, Hash)]
pub enum CriteriaValue {
    /// String literal criteria
    String(String),
    /// Numeric criteria
    Number(NumberKey),
    /// Cell reference criteria
    CellReference(CellReferenceIndex),
}

/// Abstract value of a [`CriteriaValue`] (also used for lookup values).
pub enum ValueModel {
    Text(Seq<char>),
    Number(u64),
    Cell(CellReferenceIndex),
}

impl View for CriteriaValue {
    type V = ValueModel;

    open spec fn view(&self) -> ValueModel {
        match self {
            CriteriaValue::String(s) => ValueModel::Text(s@),
            CriteriaValue::Number(n) => ValueModel::Number(n.spec_bits()),
            CriteriaValue::CellReference(c) => ValueModel::Cell(*c),
        }
    }
}

/// Lookup value of a VLOOKUP pattern.
#[derive(Clone, Debug, PartialEq, Eq, Hash)]
pub enum LookupValue {
    /// String literal lookup value
    String(String),
    /// Numeric lookup value
    Number(NumberKey),
    /// Cell reference lookup value
    CellReference(CellReferenceIndex),
}

impl View for LookupValue {
    type V = ValueModel;

    open spec fn view(&self) -> ValueModel {
        match self {
            LookupValue::String(s) => ValueModel::Text(s@),
            LookupValue::Number(n) => ValueModel::Number(n.spec_bits()),
            LookupValue::CellReference(c) => ValueModel::Cell(*c),
        }
    }
}

/// Rectangular table range of a VLOOKUP pattern.
#[derive(Clone, Debug, PartialEq, Eq, Hash)]
pub struct TableRange {
    /// Optional sheet name (None for current sheet)
    pub sheet: Option<String>,
    /// Starting row of the table (1-based)
    pub start_row: i32,
    /// Starting column of the table (1-based)
    pub start_column: i32,
    /// Ending row of the table (1-based)
    pub end_row: i32,
    /// Ending column of the table (1-based)
    pub end_column: i32,
}

/// Abstract value of a [`TableRange`].
pub struct TableModel {
    pub sheet: Option<Seq<char>>,
    pub start_row: i32,
    pub start_column: i32,
    pub end_row: i32,
    pub end_column: i32,
}

/// Abstract value of an optional sheet name.
pub open spec fn sheet_view(s: Option<String>) -> Option<Seq<char>> {
    match s {
        Some(name) => Some(name@),
        None => None,
    }
}

impl View for TableRange {
    type V = TableModel;

    open spec fn view(&self) -> TableModel {
        TableModel {
            sheet: sheet_view(self.sheet),
            start_row: self.start_row,
            start_column: self.start_column,
            end_row: self.end_row,
            end_column: self.end_column,
        }
    }
}

/// One criteria condition: "in this column, match this criteria".
#[derive(Clone, Debug, PartialEq, Eq, Hash)]
pub struct CriteriaPair {
    /// Column index for the criteria range
    pub column: i32,
    /// The criteria value to match against
    pub criteria: CriteriaValue,
}

/// Abstract value of a [`CriteriaPair`].
pub struct PairModel {
    pub column: i32,
    pub criteria: ValueModel,
}

impl View for CriteriaPair {
    type V = PairModel;

    open spec fn view(&self) -> PairModel {
        PairModel { column: self.column, criteria: self.criteria@ }
    }
}

/// Abstract value of a list of criteria pairs.
pub open spec fn pairs_view(pairs: Seq<CriteriaPair>) -> Seq<PairModel> {
    pairs.map_values(|p: CriteriaPair| p@)
}

/// Pattern key identifying a formula pattern in a substitution system.
#[derive(Clone, Debug, PartialEq, Eq, Hash)]
pub enum PatternKey {
    /// `SUMIFS(sum_range, criteria_range1, criteria1, ...)`
    Sumifs { sheet: Option<String>, sum_column: i32, criteria_pairs: Vec<CriteriaPair> },
    /// `COUNTIFS(criteria_range1, criteria1, ...)`
    Countifs { sheet: Option<String>, criteria_pairs: Vec<CriteriaPair> },
    /// `AVERAGEIFS(average_range, criteria_range1, criteria1, ...)`
    Averageifs { sheet: Option<String>, average_column: i32, criteria_pairs: Vec<CriteriaPair> },
    /// `VLOOKUP(lookup_value, table_array, column_index_num, [range_lookup])`
    Vlookup {
        sheet: Option<String>,
        lookup_value: LookupValue,
        table_range: TableRange,
        column_index: u32,
        exact_match: bool,
    },
}

/// Abstract value of a [`PatternKey`].
pub enum PatternModel {
    Sumifs { sheet: Option<Seq<char>>, sum_column: i32, criteria_pairs: Seq<PairModel> },
    Countifs { sheet: Option<Seq<char>>, criteria_pairs: Seq<PairModel> },
    Averageifs { sheet: Option<Seq<char>>, average_column: i32, criteria_pairs: Seq<PairModel> },
    Vlookup {
        sheet: Option<Seq<char>>,
        lookup_value: ValueModel,
        table_range: TableModel,
        column_index: u32,
        exact_match: bool,
    },
}

impl View for PatternKey {
    type V = PatternModel;

    open spec fn view(&self) -> PatternModel {
        match self {
            PatternKey::Sumifs { sheet, sum_column, criteria_pairs } => PatternModel::Sumifs {
                sheet: sheet_view(*sheet),
                sum_column: *sum_column,
                criteria_pairs: pairs_view(criteria_pairs@),
            },
            PatternKey::Countifs { sheet, criteria_pairs } => PatternModel::Countifs {
                sheet: sheet_view(*sheet),
                criteria_pairs: pairs_view(criteria_pairs@),
            },
            PatternKey::Averageifs { sheet, average_column, criteria_pairs } =>
                PatternModel::Averageifs {
                sheet: sheet_view(*sheet),
                average_column: *average_column,
                criteria_pairs: pairs_view(criteria_pairs@),
            },
            PatternKey::Vlookup { sheet, lookup_value, table_range, column_index, exact_match } =>
                PatternModel::Vlookup {
                sheet: sheet_view(*sheet),
                lookup_value: lookup_value@,
                table_range: table_range@,
                column_index: *column_index,
                exact_match: *exact_match,
            },
        }
    }
}

/// Whether two models are of the same function kind.
pub open spec fn same_kind(a: PatternModel, b: PatternModel) -> bool {
    match (a, b) {
        (PatternModel::Sumifs { .. }, PatternModel::Sumifs { .. }) => true,
        (PatternModel::Countifs { .. }, PatternModel::Countifs { .. }) => true,
        (PatternModel::Averageifs { .. }, PatternModel::Averageifs { .. }) => true,
        (PatternModel::Vlookup { .. }, PatternModel::Vlookup { .. }) => true,
        _ => false,
    }
}

// ---------------------------------------------------------------------------
// Equality
// ---------------------------------------------------------------------------

/// Equality of two optional sheet names.
pub fn sheet_eq(a: &Option<String>, b: &Option<String>) -> (r: bool)
    ensures
        r == (sheet_view(*a) == sheet_view(*b)),
{
    match (a, b) {
        (Some(x), Some(y)) => *x == *y,
        (None, None) => true,
        _ => false,
    }
}

/// Equality of two cell references.
pub fn cell_eq(a: &CellReferenceIndex, b: &CellReferenceIndex) -> (r: bool)
    ensures
        r == (*a == *b),
{
    a.sheet == b.sheet && a.row == b.row && a.column == b.column
}

impl CriteriaValue {
    /// Structural equality of criteria values.
    pub fn equals(&self, other: &CriteriaValue) -> (r: bool)
        ensures
            r == (self@ == other@),
    {
        match (self, other) {
            (CriteriaValue::String(x), CriteriaValue::String(y)) => *x == *y,
            (CriteriaValue::Number(x), CriteriaValue::Number(y)) => x.bits() == y.bits(),
            (CriteriaValue::CellReference(x), CriteriaValue::CellReference(y)) => cell_eq(x, y),
            _ => false,
        }
    }

    /// A copy with the same abstract value.
    pub fn duplicate(&self) -> (r: CriteriaValue)
        ensures
            r@ == self@,
    {
        match self {
            CriteriaValue::String(s) => CriteriaValue::String(s.clone()),
            CriteriaValue::Number(n) => CriteriaValue::Number(*n),
            CriteriaValue::CellReference(c) => CriteriaValue::CellReference(*c),
        }
    }
}

impl LookupValue {
    /// Structural equality of lookup values.
    pub fn equals(&self, other: &LookupValue) -> (r: bool)
        ensures
            r == (self@ == other@),
    {
        match (self, other) {
            (LookupValue::String(x), LookupValue::String(y)) => *x == *y,
            (LookupValue::Number(x), LookupValue::Number(y)) => x.bits() == y.bits(),
            (LookupValue::CellReference(x), LookupValue::CellReference(y)) => cell_eq(x, y),
            _ => false,
        }
    }

    /// A copy with the same abstract value.
    pub fn duplicate(&self) -> (r: LookupValue)
        ensures
            r@ == self@,
    {
        match self {
            LookupValue::String(s) => LookupValue::String(s.clone()),
            LookupValue::Number(n) => LookupValue::Number(*n),
            LookupValue::CellReference(c) => LookupValue::CellReference(*c),
        }
    }
}

/// A copy of an optional sheet name.
pub fn sheet_copy(s: &Option<String>) -> (r: Option<String>)
    ensures
        sheet_view(r) == sheet_view(*s),
{
    match s {
        Some(name) => Some(name.clone()),
        None => None,
    }
}

impl TableRange {
    /// Structural equality of table ranges.
    pub fn equals(&self, other: &TableRange) -> (r: bool)
        ensures
            r == (self@ == other@),
    {
        sheet_eq(&self.sheet, &other.sheet) && self.start_row == other.start_row
            && self.start_column == other.start_column && self.end_row == other.end_row
            && self.end_column == other.end_column
    }

    /// A copy with the same abstract value.
    pub fn duplicate(&self) -> (r: TableRange)
        ensures
            r@ == self@,
    {
        TableRange {
            sheet: sheet_copy(&self.sheet),
            start_row: self.start_row,
            start_column: self.start_column,
            end_row: self.end_row,
            end_column: self.end_column,
        }
    }
}

impl CriteriaPair {
    /// Structural equality of criteria pairs.
    pub fn equals(&self, other: &CriteriaPair) -> (r: bool)
        ensures
            r == (self@ == other@),
    {
        self.column == other.column && self.criteria.equals(&other.criteria)
    }

    /// A copy with the same abstract value.
    pub fn duplicate(&self) -> (r: CriteriaPair)
        ensures
            r@ == self@,
    {
        CriteriaPair { column: self.column, criteria: self.criteria.duplicate() }
    }
}

/// Equality of two lists of criteria pairs (same pairs in the same order).
pub fn pairs_eq(a: &Vec<CriteriaPair>, b: &Vec<CriteriaPair>) -> (r: bool)
    ensures
        r == (pairs_view(a@) == pairs_view(b@)),
{
    if a.len() != b.len() {
        proof {
            assert(pairs_view(a@).len() != pairs_view(b@).len());
        }
        return false;
    }
    let mut i: usize = 0;
    while i < a.len()
        invariant
            a.len() == b.len(),
            i <= a.len(),
            forall|j: int| 0 <= j < i ==> (#[trigger] a@[j])@ == b@[j]@,
        decreases a.len() - i,
    {
        if !a[i].equals(&b[i]) {
            proof {
                assert(pairs_view(a@)[i as int] != pairs_view(b@)[i as int]);
            }
            return false;
        }
        i = i + 1;
    }
    proof {
        assert(pairs_view(a@) =~= pairs_view(b@));
    }
    true
}

/// A copy of a list of criteria pairs.
pub fn pairs_copy(a: &Vec<CriteriaPair>) -> (r: Vec<CriteriaPair>)
    ensures
        pairs_view(r@) == pairs_view(a@),
{
    let mut r: Vec<CriteriaPair> = Vec::new();
    let mut i: usize = 0;
    while i < a.len()
        invariant
            i <= a.len(),
            r.len() == i,
            forall|j: int| 0 <= j < i ==> (#[trigger] r@[j])@ == a@[j]@,
        decreases a.len() - i,
    {
        r.push(a[i].duplicate());
        i = i + 1;
    }
    proof {
        assert(pairs_view(r@) =~= pairs_view(a@));
    }
    r
}

impl PatternKey {
    /// Structural equality of pattern keys.
    pub fn equals(&self, other: &PatternKey) -> (r: bool)
        ensures
            r == (self@ == other@),
    {
        match (self, other) {
            (
                PatternKey::Sumifs { sheet: s1, sum_column: c1, criteria_pairs: p1 },
                PatternKey::Sumifs { sheet: s2, sum_column: c2, criteria_pairs: p2 },
            ) => sheet_eq(s1, s2) && *c1 == *c2 && pairs_eq(p1, p2),
            (
                PatternKey::Countifs { sheet: s1, criteria_pairs: p1 },
                PatternKey::Countifs { sheet: s2, criteria_pairs: p2 },
            ) => sheet_eq(s1, s2) && pairs_eq(p1, p2),
            (
                PatternKey::Averageifs { sheet: s1, average_column: c1, criteria_pairs: p1 },
                PatternKey::Averageifs { sheet: s2, average_column: c2, criteria_pairs: p2 },
            ) => sheet_eq(s1, s2) && *c1 == *c2 && pairs_eq(p1, p2),
            (
                PatternKey::Vlookup {
                    sheet: s1,
                    lookup_value: l1,
                    table_range: t1,
                    column_index: i1,
                    exact_match: e1,
                },
                PatternKey::Vlookup {
                    sheet: s2,
                    lookup_value: l2,
                    table_range: t2,
                    column_index: i2,
                    exact_match: e2,
                },
            ) => sheet_eq(s1, s2) && l1.equals(l2) && t1.equals(t2) && *i1 == *i2 && *e1 == *e2,
            _ => false,
        }
    }

    /// A copy with the same abstract value.
    pub fn duplicate(&self) -> (r: PatternKey)
        ensures
            r@ == self@,
    {
        match self {
            PatternKey::Sumifs { sheet, sum_column, criteria_pairs } => PatternKey::Sumifs {
                sheet: sheet_copy(sheet),
                sum_column: *sum_column,
                criteria_pairs: pairs_copy(criteria_pairs),
            },
            PatternKey::Countifs { sheet, criteria_pairs } => PatternKey::Countifs {
                sheet: sheet_copy(sheet),
                criteria_pairs: pairs_copy(criteria_pairs),
            },
            PatternKey::Averageifs { sheet, average_column, criteria_pairs } =>
                PatternKey::Averageifs {
                sheet: sheet_copy(sheet),
                average_column: *average_column,
                criteria_pairs: pairs_copy(criteria_pairs),
            },
            PatternKey::Vlookup { sheet, lookup_value, table_range, column_index, exact_match } =>
                PatternKey::Vlookup {
                sheet: sheet_copy(sheet),
                lookup_value: lookup_value.duplicate(),
                table_range: table_range.duplicate(),
                column_index: *column_index,
                exact_match: *exact_match,
            },
        }
    }
}

} // verus!
