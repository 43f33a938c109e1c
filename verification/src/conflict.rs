//! Conflicts between pattern substitutions: duplicates, same pattern with
//! different values, and subset/superset relations.

use vstd::prelude::*;

use crate::error::{ErrorModel, PatternError};
use crate::listing::{conflicts_listing, conflicts_text, number_table};
use crate::pattern_key::{
    CriteriaPair, PairModel, PatternKey, PatternModel, TableModel, TableRange, pairs_view,
};
use crate::registry::{EntryModel, RegistryStats, SubstitutionRegistry, entry_view};
use crate::validate::pattern_check;

verus! {

/// Types of conflicts that can occur between patterns; values are the bit patterns of
/// the substituted doubles.
#[derive(Clone, Debug, PartialEq)]
pub enum PatternConflict {
    /// Exact same pattern with same value (redundant)
    ExactDuplicate { pattern: PatternKey, value: u64 },
    /// Same pattern with different values (ambiguous)
    SamePatternDifferentValues { pattern: PatternKey, value1: u64, value2: u64 },
    /// One pattern is a subset of another (ambiguous matching)
    SubsetSuperset {
        subset_pattern: PatternKey,
        subset_value: u64,
        superset_pattern: PatternKey,
        superset_value: u64,
    },
}

/// Abstract value of a [`PatternConflict`].
pub enum ConflictModel {
    ExactDuplicate { pattern: PatternModel, value: u64 },
    SamePatternDifferentValues { pattern: PatternModel, value1: u64, value2: u64 },
    SubsetSuperset {
        subset_pattern: PatternModel,
        subset_value: u64,
        superset_pattern: PatternModel,
        superset_value: u64,
    },
}

impl View for PatternConflict {
    type V = ConflictModel;

    open spec fn view(&self) -> ConflictModel {
        match self {
            PatternConflict::ExactDuplicate { pattern, value } => ConflictModel::ExactDuplicate {
                pattern: pattern@,
                value: *value,
            },
            PatternConflict::SamePatternDifferentValues { pattern, value1, value2 } =>
                ConflictModel::SamePatternDifferentValues {
                pattern: pattern@,
                value1: *value1,
                value2: *value2,
            },
            PatternConflict::SubsetSuperset {
                subset_pattern,
                subset_value,
                superset_pattern,
                superset_value,
            } => ConflictModel::SubsetSuperset {
                subset_pattern: subset_pattern@,
                subset_value: *subset_value,
                superset_pattern: superset_pattern@,
                superset_value: *superset_value,
            },
        }
    }
}

/// Abstract values of a list of conflicts.
pub open spec fn conflicts_view(c: Seq<PatternConflict>) -> Seq<ConflictModel> {
    c.map_values(|x: PatternConflict| x@)
}

/// Whether pair `p` occurs in `b`.
pub open spec fn pair_in(p: PairModel, b: Seq<PairModel>) -> bool {
    exists|j: int| 0 <= j < b.len() && b[j] == p
}

/// `a` is a subset of `b`: it has fewer pairs, and each of its pairs occurs in `b`.
pub open spec fn criteria_subset(a: Seq<PairModel>, b: Seq<PairModel>) -> bool {
    &&& a.len() < b.len()
    &&& forall|i: int| 0 <= i < a.len() ==> pair_in(#[trigger] a[i], b)
}

/// Two table ranges overlap: same sheet, and their rectangles share a cell.
pub open spec fn tables_overlap(t1: TableModel, t2: TableModel) -> bool {
    &&& t1.sheet == t2.sheet
    &&& t1.start_column <= t2.end_column && t2.start_column <= t1.end_column
    &&& t1.start_row <= t2.end_row && t2.start_row <= t1.end_row
}

/// Whether an integer fits in an `i32`.
pub open spec fn fits_i32(x: int) -> bool {
    i32::MIN <= x <= i32::MAX
}

/// Number of cells of a table range (rows times columns).
pub open spec fn table_size(t: TableModel) -> int {
    (t.end_row - t.start_row + 1) * (t.end_column - t.start_column + 1)
}

/// The cell count of a table range is computed in `i32` without overflow.
pub open spec fn table_size_fits(t: TableModel) -> bool {
    &&& fits_i32(t.end_row - t.start_row)
    &&& fits_i32(t.end_row - t.start_row + 1)
    &&& fits_i32(t.end_column - t.start_column)
    &&& fits_i32(t.end_column - t.start_column + 1)
    &&& fits_i32(table_size(t))
}

/// The conflict between an IFS-family pair of patterns that agree on kind; `same_frame`
/// says whether sheet and data column agree.
pub open spec fn ifs_conflict(
    a: PatternModel,
    va: u64,
    b: PatternModel,
    vb: u64,
    close: bool,
    same_frame: bool,
    ca: Seq<PairModel>,
    cb: Seq<PairModel>,
) -> Option<ConflictModel> {
    if a == b {
        if close {
            Some(ConflictModel::ExactDuplicate { pattern: a, value: va })
        } else {
            Some(ConflictModel::SamePatternDifferentValues { pattern: a, value1: va, value2: vb })
        }
    } else if same_frame && criteria_subset(ca, cb) {
        Some(
            ConflictModel::SubsetSuperset {
                subset_pattern: a,
                subset_value: va,
                superset_pattern: b,
                superset_value: vb,
            },
        )
    } else if same_frame && criteria_subset(cb, ca) {
        Some(
            ConflictModel::SubsetSuperset {
                subset_pattern: b,
                subset_value: vb,
                superset_pattern: a,
                superset_value: va,
            },
        )
    } else {
        None
    }
}

/// The conflict between pattern `a` (with value `va`, already registered) and pattern `b`
/// (with value `vb`, being added). `close` says whether the two values lie within
/// `f64::EPSILON` of each other; it matters only when the patterns are equal.
pub open spec fn conflict_between(
    a: PatternModel,
    va: u64,
    b: PatternModel,
    vb: u64,
    close: bool,
) -> Option<ConflictModel> {
    match (a, b) {
        (
            PatternModel::Sumifs { sheet: s1, sum_column: c1, criteria_pairs: p1 },
            PatternModel::Sumifs { sheet: s2, sum_column: c2, criteria_pairs: p2 },
        ) => ifs_conflict(a, va, b, vb, close, s1 == s2 && c1 == c2, p1, p2),
        (
            PatternModel::Countifs { sheet: s1, criteria_pairs: p1 },
            PatternModel::Countifs { sheet: s2, criteria_pairs: p2 },
        ) => ifs_conflict(a, va, b, vb, close, s1 == s2, p1, p2),
        (
            PatternModel::Averageifs { sheet: s1, average_column: c1, criteria_pairs: p1 },
            PatternModel::Averageifs { sheet: s2, average_column: c2, criteria_pairs: p2 },
        ) => ifs_conflict(a, va, b, vb, close, s1 == s2 && c1 == c2, p1, p2),
        (
            PatternModel::Vlookup {
                lookup_value: l1,
                table_range: t1,
                column_index: i1,
                exact_match: e1,
                ..
            },
            PatternModel::Vlookup {
                lookup_value: l2,
                table_range: t2,
                column_index: i2,
                exact_match: e2,
                ..
            },
        ) => if a == b {
            if close {
                Some(ConflictModel::ExactDuplicate { pattern: a, value: va })
            } else {
                Some(
                    ConflictModel::SamePatternDifferentValues { pattern: a, value1: va, value2: vb },
                )
            }
        } else if l1 == l2 && i1 == i2 && e1 == e2 && tables_overlap(t1, t2) {
            if table_size(t1) < table_size(t2) {
                Some(
                    ConflictModel::SubsetSuperset {
                        subset_pattern: a,
                        subset_value: va,
                        superset_pattern: b,
                        superset_value: vb,
                    },
                )
            } else if table_size(t2) < table_size(t1) {
                Some(
                    ConflictModel::SubsetSuperset {
                        subset_pattern: b,
                        subset_value: vb,
                        superset_pattern: a,
                        superset_value: va,
                    },
                )
            } else {
                None
            }
        } else {
            None
        },
        _ => None,
    }
}

/// Comparing the two patterns computes no table size that overflows `i32` (only
/// VLOOKUP pairs with equal lookup value, column index and match mode and
/// overlapping tables compute table sizes).
pub open spec fn conflict_computable(a: PatternModel, b: PatternModel) -> bool {
    match (a, b) {
        (
            PatternModel::Vlookup {
                lookup_value: l1,
                table_range: t1,
                column_index: i1,
                exact_match: e1,
                ..
            },
            PatternModel::Vlookup {
                lookup_value: l2,
                table_range: t2,
                column_index: i2,
                exact_match: e2,
                ..
            },
        ) => (a != b && l1 == l2 && i1 == i2 && e1 == e2 && tables_overlap(t1, t2)) ==> (
        table_size_fits(t1) && table_size_fits(t2)),
        _ => true,
    }
}

/// Whether `pair` occurs in `pairs`.
fn pair_occurs(pair: &CriteriaPair, pairs: &Vec<CriteriaPair>) -> (r: bool)
    ensures
        r == pair_in(pair@, pairs_view(pairs@)),
{
    let ghost pv = pairs_view(pairs@);
    let mut j: usize = 0;
    while j < pairs.len()
        invariant
            j <= pairs.len(),
            pv == pairs_view(pairs@),
            forall|k: int| 0 <= k < j ==> pv[k] != pair@,
        decreases pairs.len() - j,
    {
        if pairs[j].equals(pair) {
            assert(pv[j as int] == pair@);
            return true;
        }
        j = j + 1;
    }
    false
}

/// Length of a criteria list equals the length of its abstract value.
proof fn lemma_pairs_view_len(p: Seq<CriteriaPair>)
    ensures
        pairs_view(p).len() == p.len(),
        forall|i: int| 0 <= i < p.len() ==> #[trigger] pairs_view(p)[i] == p[i]@,
{
}

impl SubstitutionRegistry {
    /// Whether `criteria_a` is a subset of `criteria_b`: strictly fewer pairs, each of
    /// which occurs in `criteria_b`.
    pub fn is_criteria_subset(
        &self,
        criteria_a: &Vec<CriteriaPair>,
        criteria_b: &Vec<CriteriaPair>,
    ) -> (r: bool)
        ensures
            r == criteria_subset(pairs_view(criteria_a@), pairs_view(criteria_b@)),
    {
        proof {
            lemma_pairs_view_len(criteria_a@);
            lemma_pairs_view_len(criteria_b@);
        }
        if criteria_a.len() >= criteria_b.len() {
            return false;
        }
        let ghost av = pairs_view(criteria_a@);
        let ghost bv = pairs_view(criteria_b@);
        let mut i: usize = 0;
        while i < criteria_a.len()
            invariant
                i <= criteria_a.len(),
                av == pairs_view(criteria_a@),
                bv == pairs_view(criteria_b@),
                av.len() == criteria_a.len(),
                forall|k: int| 0 <= k < i ==> pair_in(#[trigger] av[k], bv),
            decreases criteria_a.len() - i,
        {
            assert(av[i as int] == criteria_a@[i as int]@);
            if !pair_occurs(&criteria_a[i], criteria_b) {
                return false;
            }
            i = i + 1;
        }
        true
    }

    /// Whether two table ranges overlap: same sheet, and the rectangles share a cell.
    pub fn do_table_ranges_overlap(&self, table1: &TableRange, table2: &TableRange) -> (r: bool)
        ensures
            r == tables_overlap(table1@, table2@),
    {
        if !crate::pattern_key::sheet_eq(&table1.sheet, &table2.sheet) {
            return false;
        }
        let x_overlap = table1.start_column <= table2.end_column && table2.start_column
            <= table1.end_column;
        let y_overlap = table1.start_row <= table2.end_row && table2.start_row <= table1.end_row;
        x_overlap && y_overlap
    }

    /// The conflict between `pattern1` (registered with `value1`) and `pattern2` (added with
    /// `value2`). `values_close` is whether the two doubles lie within `f64::EPSILON` of
    /// each other; it decides between a duplicate and a same-pattern-different-values
    /// conflict. Patterns of different function types never conflict.
    pub fn detect_pattern_conflict(
        &self,
        pattern1: &PatternKey,
        value1: u64,
        pattern2: &PatternKey,
        value2: u64,
        values_close: bool,
    ) -> (r: Option<PatternConflict>)
        requires
            conflict_computable(pattern1@, pattern2@),
        ensures
            match r {
                Some(c) => conflict_between(pattern1@, value1, pattern2@, value2, values_close)
                    == Some(c@),
                None => conflict_between(pattern1@, value1, pattern2@, value2, values_close)
                    is None,
            },
    {
        let same_kind = match (pattern1, pattern2) {
            (PatternKey::Sumifs { .. }, PatternKey::Sumifs { .. }) => true,
            (PatternKey::Countifs { .. }, PatternKey::Countifs { .. }) => true,
            (PatternKey::Averageifs { .. }, PatternKey::Averageifs { .. }) => true,
            (PatternKey::Vlookup { .. }, PatternKey::Vlookup { .. }) => true,
            _ => false,
        };
        if !same_kind {
            return None;
        }
        if pattern1.equals(pattern2) {
            if values_close {
                return Some(
                    PatternConflict::ExactDuplicate { pattern: pattern1.duplicate(), value: value1 },
                );
            } else {
                return Some(
                    PatternConflict::SamePatternDifferentValues {
                        pattern: pattern1.duplicate(),
                        value1,
                        value2,
                    },
                );
            }
        }
        match (pattern1, pattern2) {
            (
                PatternKey::Sumifs { sheet: sheet1, sum_column: sum1, criteria_pairs: criteria1 },
                PatternKey::Sumifs { sheet: sheet2, sum_column: sum2, criteria_pairs: criteria2 },
            ) => {
                if crate::pattern_key::sheet_eq(sheet1, sheet2) && *sum1 == *sum2 {
                    return self.subset_conflict(
                        pattern1,
                        value1,
                        pattern2,
                        value2,
                        criteria1,
                        criteria2,
                    );
                }
                None
            },
            (
                PatternKey::Countifs { sheet: sheet1, criteria_pairs: criteria1 },
                PatternKey::Countifs { sheet: sheet2, criteria_pairs: criteria2 },
            ) => {
                if crate::pattern_key::sheet_eq(sheet1, sheet2) {
                    return self.subset_conflict(
                        pattern1,
                        value1,
                        pattern2,
                        value2,
                        criteria1,
                        criteria2,
                    );
                }
                None
            },
            (
                PatternKey::Averageifs {
                    sheet: sheet1,
                    average_column: avg1,
                    criteria_pairs: criteria1,
                },
                PatternKey::Averageifs {
                    sheet: sheet2,
                    average_column: avg2,
                    criteria_pairs: criteria2,
                },
            ) => {
                if crate::pattern_key::sheet_eq(sheet1, sheet2) && *avg1 == *avg2 {
                    return self.subset_conflict(
                        pattern1,
                        value1,
                        pattern2,
                        value2,
                        criteria1,
                        criteria2,
                    );
                }
                None
            },
            (
                PatternKey::Vlookup {
                    lookup_value: lookup1,
                    table_range: table1,
                    column_index: col1,
                    exact_match: exact1,
                    ..
                },
                PatternKey::Vlookup {
                    lookup_value: lookup2,
                    table_range: table2,
                    column_index: col2,
                    exact_match: exact2,
                    ..
                },
            ) => {
                if lookup1.equals(lookup2) && *col1 == *col2 && *exact1 == *exact2 {
                    if self.do_table_ranges_overlap(table1, table2) {
                        let table1_size = (table1.end_row - table1.start_row + 1) * (
                        table1.end_column - table1.start_column + 1);
                        let table2_size = (table2.end_row - table2.start_row + 1) * (
                        table2.end_column - table2.start_column + 1);
                        if table1_size < table2_size {
                            return Some(
                                PatternConflict::SubsetSuperset {
                                    subset_pattern: pattern1.duplicate(),
                                    subset_value: value1,
                                    superset_pattern: pattern2.duplicate(),
                                    superset_value: value2,
                                },
                            );
                        } else if table2_size < table1_size {
                            return Some(
                                PatternConflict::SubsetSuperset {
                                    subset_pattern: pattern2.duplicate(),
                                    subset_value: value2,
                                    superset_pattern: pattern1.duplicate(),
                                    superset_value: value1,
                                },
                            );
                        }
                    }
                }
                None
            },
            _ => None,
        }
    }

    /// The subset/superset part of an IFS-family comparison of two unequal patterns that
    /// agree on sheet and data column.
    fn subset_conflict(
        &self,
        pattern1: &PatternKey,
        value1: u64,
        pattern2: &PatternKey,
        value2: u64,
        criteria1: &Vec<CriteriaPair>,
        criteria2: &Vec<CriteriaPair>,
    ) -> (r: Option<PatternConflict>)
        ensures
            match r {
                Some(c) => if criteria_subset(pairs_view(criteria1@), pairs_view(criteria2@)) {
                    c@ == (ConflictModel::SubsetSuperset {
                        subset_pattern: pattern1@,
                        subset_value: value1,
                        superset_pattern: pattern2@,
                        superset_value: value2,
                    })
                } else {
                    criteria_subset(pairs_view(criteria2@), pairs_view(criteria1@)) && c@ == (
                    ConflictModel::SubsetSuperset {
                        subset_pattern: pattern2@,
                        subset_value: value2,
                        superset_pattern: pattern1@,
                        superset_value: value1,
                    })
                },
                None => !criteria_subset(pairs_view(criteria1@), pairs_view(criteria2@))
                    && !criteria_subset(pairs_view(criteria2@), pairs_view(criteria1@)),
            },
    {
        if self.is_criteria_subset(criteria1, criteria2) {
            Some(
                PatternConflict::SubsetSuperset {
                    subset_pattern: pattern1.duplicate(),
                    subset_value: value1,
                    superset_pattern: pattern2.duplicate(),
                    superset_value: value2,
                },
            )
        } else if self.is_criteria_subset(criteria2, criteria1) {
            Some(
                PatternConflict::SubsetSuperset {
                    subset_pattern: pattern2.duplicate(),
                    subset_value: value2,
                    superset_pattern: pattern1.duplicate(),
                    superset_value: value1,
                },
            )
        } else {
            None
        }
    }
}

/// Whether the cell count of a table range is computed in `i32` without overflow.
fn table_size_computable(t: &TableRange) -> (r: bool)
    ensures
        r == table_size_fits(t@),
{
    let rows: i64 = t.end_row as i64 - t.start_row as i64;
    let columns: i64 = t.end_column as i64 - t.start_column as i64;
    let low: i64 = i32::MIN as i64;
    let high: i64 = i32::MAX as i64;
    if rows < low || rows + 1 > high || columns < low || columns + 1 > high {
        return false;
    }
    let height: i64 = rows + 1;
    let width: i64 = columns + 1;
    assert(-0x4000_0000_0000_0000 <= height * width <= 0x4000_0000_0000_0000) by (nonlinear_arith)
        requires
            -0x8000_0000 < height <= 0x7fff_ffff,
            -0x8000_0000 < width <= 0x7fff_ffff,
    ;
    let size: i64 = height * width;
    low <= size && size <= high
}

/// Whether two table ranges overlap (see [`tables_overlap`]).
fn overlap(table1: &TableRange, table2: &TableRange) -> (r: bool)
    ensures
        r == tables_overlap(table1@, table2@),
{
    crate::pattern_key::sheet_eq(&table1.sheet, &table2.sheet) && table1.start_column
        <= table2.end_column && table2.start_column <= table1.end_column && table1.start_row
        <= table2.end_row && table2.start_row <= table1.end_row
}

/// Whether comparing two patterns computes no table size that overflows `i32`.
fn pair_computable(a: &PatternKey, b: &PatternKey) -> (r: bool)
    ensures
        r == conflict_computable(a@, b@),
{
    match (a, b) {
        (
            PatternKey::Vlookup {
                lookup_value: l1,
                table_range: t1,
                column_index: i1,
                exact_match: e1,
                ..
            },
            PatternKey::Vlookup {
                lookup_value: l2,
                table_range: t2,
                column_index: i2,
                exact_match: e2,
                ..
            },
        ) => {
            if !a.equals(b) && l1.equals(l2) && *i1 == *i2 && *e1 == *e2 && overlap(t1, t2) {
                table_size_computable(t1) && table_size_computable(t2)
            } else {
                true
            }
        },
        _ => true,
    }
}

impl SubstitutionRegistry {
    /// Whether comparing `pattern` with every registered pattern computes no table cell
    /// count that overflows `i32` (which [`Self::check_conflicts`] needs).
    pub fn conflicts_computable(&self, pattern: &PatternKey) -> (r: bool)
        ensures
            r == forall|i: int|
                0 <= i < self.entry_models().len() ==> conflict_computable(
                    (#[trigger] self.entry_models()[i]).0,
                    pattern@,
                ),
    {
        let ghost em = self.entry_models();
        proof {
            self.lemma_entry_models();
        }
        let mut i: usize = 0;
        while i < self.substitutions.len()
            invariant
                i <= self.substitutions.len(),
                em == self.entry_models(),
                em.len() == self.substitutions.len(),
                forall|j: int|
                    0 <= j < em.len() ==> #[trigger] em[j] == entry_view(self.substitutions@[j]),
                forall|j: int| 0 <= j < i ==> conflict_computable((#[trigger] em[j]).0, pattern@),
            decreases self.substitutions.len() - i,
        {
            assert(em[i as int] == entry_view(self.substitutions@[i as int]));
            if !pair_computable(&self.substitutions[i].0, pattern) {
                return false;
            }
            i = i + 1;
        }
        true
    }
}

/// How to resolve conflicts when adding substitutions.
#[derive(Clone, Copy, Debug, PartialEq, Eq, Structural)]
pub enum ConflictResolution {
    /// Fail with an error if conflicts are detected
    Error,
    /// Overwrite existing conflicting patterns
    OverwriteExisting,
    /// Keep existing patterns, don't add the new one
    KeepExisting,
    /// Add anyway but return conflicts as warnings
    WarnOnly,
}

/// The conflicts between the listed entries `e` (in order) and pattern `b` with value
/// `vb`; `close` says whether the value registered under `b` lies within
/// `f64::EPSILON` of `vb`.
pub open spec fn conflicts_over(e: Seq<EntryModel>, b: PatternModel, vb: u64, close: bool) -> Seq<
    ConflictModel,
>
    decreases e.len(),
{
    if e.len() == 0 {
        Seq::empty()
    } else {
        let rest = conflicts_over(e.drop_last(), b, vb, close);
        match conflict_between(e.last().0, e.last().1, b, vb, close) {
            Some(c) => rest.push(c),
            None => rest,
        }
    }
}

/// The patterns a conflict names.
pub open spec fn conflict_patterns(c: ConflictModel) -> Set<PatternModel> {
    match c {
        ConflictModel::ExactDuplicate { pattern, .. } => set![pattern],
        ConflictModel::SamePatternDifferentValues { pattern, .. } => set![pattern],
        ConflictModel::SubsetSuperset { subset_pattern, superset_pattern, .. } => set![
            superset_pattern,
            subset_pattern,
        ],
    }
}

/// The patterns that a list of conflicts names.
pub open spec fn conflict_keys(cs: Seq<ConflictModel>) -> Set<PatternModel>
    decreases cs.len(),
{
    if cs.len() == 0 {
        Set::empty()
    } else {
        conflict_keys(cs.drop_last()).union(conflict_patterns(cs.last()))
    }
}

/// Text that starts the message of a conflict error.
pub open spec fn conflict_message_prefix() -> Seq<char> {
    "Conflicts detected: "@
}

impl SubstitutionRegistry {
    /// Removes the entry with pattern `pattern`, if any, without counting a removal.
    fn discard(&mut self, pattern: &PatternKey)
        requires
            old(self).wf(),
        ensures
            final(self).wf(),
            final(self)@ == old(self)@.remove(pattern@),
            final(self).spec_active() == old(self).spec_active(),
            final(self).spec_stats() == old(self).spec_stats(),
    {
        match self.find(pattern) {
            Some(i) => {
                self.remove_at(i);
            },
            None => {
                proof {
                    assert(self@.remove(pattern@) =~= self@);
                }
            },
        }
    }

    /// Checks for conflicts between `new_pattern` with `new_value` and every registered
    /// substitution, in listing order. `values_close` is whether the value registered under
    /// `new_pattern` (if any) lies within `f64::EPSILON` of `new_value`.
    pub fn check_conflicts(&self, new_pattern: &PatternKey, new_value: u64, values_close: bool) -> (r:
        Vec<PatternConflict>)
        requires
            self.wf(),
            forall|i: int|
                0 <= i < self.entry_models().len() ==> conflict_computable(
                    (#[trigger] self.entry_models()[i]).0,
                    new_pattern@,
                ),
        ensures
            conflicts_view(r@) == conflicts_over(
                self.entry_models(),
                new_pattern@,
                new_value,
                values_close,
            ),
    {
        let ghost em = self.entry_models();
        proof {
            self.lemma_entry_models();
        }
        let mut conflicts: Vec<PatternConflict> = Vec::new();
        let mut i: usize = 0;
        while i < self.substitutions.len()
            invariant
                i <= self.substitutions.len(),
                em == self.entry_models(),
                em.len() == self.substitutions.len(),
                forall|j: int|
                    0 <= j < em.len() ==> #[trigger] em[j] == entry_view(self.substitutions@[j]),
                forall|j: int|
                    0 <= j < em.len() ==> conflict_computable((#[trigger] em[j]).0, new_pattern@),
                conflicts_view(conflicts@) == conflicts_over(
                    em.take(i as int),
                    new_pattern@,
                    new_value,
                    values_close,
                ),
            decreases self.substitutions.len() - i,
        {
            let entry = &self.substitutions[i];
            assert(em[i as int] == entry_view(self.substitutions@[i as int]));
            let found = self.detect_pattern_conflict(
                &entry.0,
                entry.1,
                new_pattern,
                new_value,
                values_close,
            );
            proof {
                assert(em.take(i + 1).drop_last() =~= em.take(i as int));
                assert(em.take(i + 1).last() == em[i as int]);
            }
            match found {
                Some(c) => {
                    conflicts.push(c);
                    proof {
                        assert(conflicts_view(conflicts@) =~= conflicts_over(
                            em.take(i as int),
                            new_pattern@,
                            new_value,
                            values_close,
                        ).push(c@));
                    }
                },
                None => {},
            }
            i = i + 1;
        }
        proof {
            assert(em.take(i as int) =~= em);
        }
        conflicts
    }

    /// Adds a substitution after validating the pattern and checking conflicts.
    ///
    /// An invalid pattern gives its validation error and changes nothing. With no
    /// conflict, or with `WarnOnly`, the substitution is added (counted as an addition).
    /// With conflicts: `Error` returns an `InvalidSheetName` error whose name is
    /// "Conflicts detected: " followed by the listing of the conflicts (see
    /// [`crate::listing::conflicts_listing`], numbers written with their texts from
    /// `number_texts`) and changes nothing; `KeepExisting` changes nothing;
    /// `OverwriteExisting` first removes every pattern a conflict names (not counted as
    /// removals), then adds. Except for `Error`, the conflicts found are returned.
    /// `values_close` is as for [`Self::check_conflicts`].
    pub fn add_substitution_with_conflict_check(
        &mut self,
        pattern: PatternKey,
        value: u64,
        resolution: ConflictResolution,
        values_close: bool,
        number_texts: &Vec<(u64, String)>,
    ) -> (r: Result<Vec<PatternConflict>, PatternError>)
        requires
            old(self).wf(),
            ({
                let cs = conflicts_over(old(self).entry_models(), pattern@, value, values_close);
                pattern_check(pattern@) is Ok && (cs.len() == 0 || resolution
                    == ConflictResolution::WarnOnly || resolution
                    == ConflictResolution::OverwriteExisting)
            }) ==> old(self).spec_stats().additions < u64::MAX,
            pattern_check(pattern@) is Ok ==> forall|i: int|
                0 <= i < old(self).entry_models().len() ==> conflict_computable(
                    (#[trigger] old(self).entry_models()[i]).0,
                    pattern@,
                ),
        ensures
            final(self).wf(),
            final(self).spec_active() == old(self).spec_active(),
            ({
                let added = RegistryStats {
                    additions: (old(self).spec_stats().additions + 1) as u64,
                    ..old(self).spec_stats()
                };
                let cs = conflicts_over(old(self).entry_models(), pattern@, value, values_close);
                match pattern_check(pattern@) {
                    Err(e) => r matches Err(err) && err@ == e && final(self)@ == old(self)@
                        && final(self).spec_stats() == old(self).spec_stats(),
                    Ok(_) => if cs.len() == 0 || resolution == ConflictResolution::WarnOnly {
                        r matches Ok(v) && conflicts_view(v@) == cs && final(self)@ == old(self)@.insert(pattern@, value) && final(self).spec_stats() == added
                    } else if resolution == ConflictResolution::Error {
                        r matches Err(err) && err@ == (ErrorModel::InvalidSheetName {
                            name: conflict_message_prefix() + conflicts_text(
                                cs,
                                number_table(number_texts@),
                            ),
                        }) && final(self)@ == old(self)@ && final(self).spec_stats() == old(self).spec_stats()
                    } else if resolution == ConflictResolution::KeepExisting {
                        r matches Ok(v) && conflicts_view(v@) == cs && final(self)@ == old(self)@
                            && final(self).spec_stats() == old(self).spec_stats()
                    } else {
                        r matches Ok(v) && conflicts_view(v@) == cs && final(self)@ == old(self)@.remove_keys(conflict_keys(cs)).insert(pattern@, value) && final(self).spec_stats() == added
                    },
                }
            }),
    {
        match pattern.validate() {
            Err(e) => {
                return Err(e);
            },
            Ok(_) => {},
        }
        let conflicts = self.check_conflicts(&pattern, value, values_close);
        let ghost cs = conflicts_view(conflicts@);
        if conflicts.len() > 0 {
            match resolution {
                ConflictResolution::Error => {
                    let mut name = String::from_str("Conflicts detected: ");
                    let listing = conflicts_listing(&conflicts, number_texts);
                    name.append(listing.as_str());
                    return Err(PatternError::InvalidSheetName { name });
                },
                ConflictResolution::OverwriteExisting => {
                    let ghost before = self@;
                    let mut i: usize = 0;
                    while i < conflicts.len()
                        invariant
                            i <= conflicts.len(),
                            cs == conflicts_view(conflicts@),
                            self.wf(),
                            self@ == before.remove_keys(conflict_keys(cs.take(i as int))),
                            self.spec_active() == old(self).spec_active(),
                            self.spec_stats() == old(self).spec_stats(),
                        decreases conflicts.len() - i,
                    {
                        let ghost prior = self@;
                        match &conflicts[i] {
                            PatternConflict::ExactDuplicate { pattern: p, .. } => {
                                self.discard(p);
                            },
                            PatternConflict::SamePatternDifferentValues { pattern: p, .. } => {
                                self.discard(p);
                            },
                            PatternConflict::SubsetSuperset {
                                subset_pattern,
                                superset_pattern,
                                ..
                            } => {
                                self.discard(superset_pattern);
                                self.discard(subset_pattern);
                            },
                        }
                        proof {
                            assert(cs.take(i + 1).drop_last() =~= cs.take(i as int));
                            assert(cs.take(i + 1).last() == conflicts@[i as int]@);
                            assert(self@ =~= before.remove_keys(conflict_keys(cs.take(i + 1))));
                        }
                        i = i + 1;
                    }
                    proof {
                        assert(cs.take(i as int) =~= cs);
                    }
                },
                ConflictResolution::KeepExisting => {
                    return Ok(conflicts);
                },
                ConflictResolution::WarnOnly => {},
            }
        }
        self.insert_entry(pattern, value);
        self.count_addition();
        Ok(conflicts)
    }
}

} // verus!
