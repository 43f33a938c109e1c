//! Properties that hold across the operations of the library, each proved over the
//! abstract models that the operations' contracts are written in.

use vstd::prelude::*;

use crate::calendar::{
    CivilDate, is_leap_year, date_number, day_number, days_before_month, days_before_year, days_in_month,
    lemma_date_in_month, lemma_date_in_year, lemma_date_of, lemma_months_ordered,
    lemma_year_length, lemma_years_ordered, shift_months, valid_civil, valid_date,
};
use crate::conflict::{
    ConflictModel, conflict_between, conflict_keys, conflict_patterns, conflicts_over,
    criteria_subset, tables_overlap,
};
use crate::date_and_time::{
    EXCEL_DATE_BASE, MAXIMUM_DATE_SERIAL_NUMBER, date_serial, datedif_months, datedif_value,
    datedif_year_days, datedif_year_months, datedif_years, earlier_in_year, next_month, permissive_serial,
    serial_date, serial_in_range, unit_key,
};
use crate::extract::{
    Function, Node, lenient_column, lenient_pairs, lenient_pattern, strict_column, strict_pairs,
    strict_pattern,
};
use crate::pattern_key::{
    CellReferenceIndex, PairModel, PatternModel, TableModel, ValueModel, canonical_bits,
    is_nan_bits,
    same_kind,
};
use crate::registry::{
    EntryModel, RegistryStats, after_lookup, entries_map, has_key, key_index, lookup_answer,
    lookups_total, net_total, value_at,
};
use crate::error::ErrorModel;
use crate::number::{exp_field, frac_field};
use crate::validate::{
    MAX_CRITERIA, column_seen, ifs_check, pairs_check, pattern_check, sheet_check, table_check,
    value_check,
};

verus! {

// ---------------------------------------------------------------------------
// Numbers
// ---------------------------------------------------------------------------

/// Whether a double is a zero (of either sign).
pub open spec fn is_zero_bits(b: u64) -> bool {
    b & 0x7fff_ffff_ffff_ffffu64 == 0
}

/// Equality of doubles as an ordered float has it: NaN equals NaN, and otherwise the
/// numbers compare equal (so negative zero equals zero).
pub open spec fn ordered_float_eq(a: u64, b: u64) -> bool {
    if is_nan_bits(a) {
        is_nan_bits(b)
    } else {
        !is_nan_bits(b) && (a == b || (is_zero_bits(a) && is_zero_bits(b)))
    }
}

/// Number keys made from two doubles hold the same bits exactly when the doubles are
/// equal as ordered floats.
pub proof fn law_number_keys_compare_as_ordered_floats(a: u64, b: u64)
    ensures
        (canonical_bits(a) == canonical_bits(b)) == ordered_float_eq(a, b),
{
    assert(is_nan_bits(0x7ff8_0000_0000_0000u64)) by (bit_vector);
    assert(!is_nan_bits(0u64)) by (bit_vector);
    assert(!is_nan_bits(0x8000_0000_0000_0000u64)) by (bit_vector);
    assert(is_zero_bits(a) == (a == 0 || a == 0x8000_0000_0000_0000u64)) by (bit_vector);
    assert(is_zero_bits(b) == (b == 0 || b == 0x8000_0000_0000_0000u64)) by (bit_vector);
}

// ---------------------------------------------------------------------------
// Substitution registry
// ---------------------------------------------------------------------------

/// A lookup on an active registry gives back what the last addition for that pattern
/// wrote, and an addition leaves the answers for every other pattern as they were.
pub proof fn law_lookup_after_add(
    before: Map<PatternModel, u64>,
    pattern: PatternModel,
    value: u64,
    other: PatternModel,
)
    ensures
        lookup_answer(true, before.insert(pattern, value), pattern) == Some(value),
        other != pattern ==> lookup_answer(true, before.insert(pattern, value), other)
            == lookup_answer(true, before, other),
{
}

/// An inactive registry answers no lookup, and its data is what an active one answers
/// from: switching the flag loses nothing.
pub proof fn law_inactive_answers_nothing(m: Map<PatternModel, u64>, pattern: PatternModel)
    ensures
        lookup_answer(false, m, pattern) is None,
        lookup_answer(true, m, pattern) == value_at(m, pattern),
{
}

/// Removing a pattern that was just added (and was not there before) gives back the
/// added value and restores the registry.
pub proof fn law_remove_undoes_add(m: Map<PatternModel, u64>, pattern: PatternModel, value: u64)
    requires
        !m.contains_key(pattern),
    ensures
        value_at(m.insert(pattern, value), pattern) == Some(value),
        m.insert(pattern, value).remove(pattern) == m,
{
    assert(m.insert(pattern, value).remove(pattern) =~= m);
}

/// Adding a pattern twice keeps only the second value, and the second addition
/// reports the first value as the one it replaced.
pub proof fn law_add_replaces(
    m: Map<PatternModel, u64>,
    pattern: PatternModel,
    first: u64,
    second: u64,
)
    ensures
        value_at(m.insert(pattern, first), pattern) == Some(first),
        m.insert(pattern, first).insert(pattern, second) == m.insert(pattern, second),
{
    assert(m.insert(pattern, first).insert(pattern, second) =~= m.insert(pattern, second));
}

/// An addition grows the registry by one exactly when the pattern was not yet present.
pub proof fn law_size_after_add(m: Map<PatternModel, u64>, pattern: PatternModel, value: u64)
    requires
        m.dom().finite(),
    ensures
        m.insert(pattern, value).len() == m.len() + (if m.contains_key(pattern) {
            0int
        } else {
            1int
        }),
{
    if m.contains_key(pattern) {
        assert(m.insert(pattern, value).dom() =~= m.dom());
    } else {
        assert(m.insert(pattern, value).dom() =~= m.dom().insert(pattern));
    }
}

/// Every lookup is counted exactly once in the total of lookups, and leaves the
/// addition and removal counters alone.
pub proof fn law_lookup_counted_once(s: RegistryStats, active: bool, found: bool)
    requires
        s.successful_lookups < u64::MAX,
        s.failed_lookups < u64::MAX,
        s.inactive_lookups < u64::MAX,
    ensures
        lookups_total(after_lookup(s, active, found)) == lookups_total(s) + 1,
        after_lookup(s, active, found).additions == s.additions,
        after_lookup(s, active, found).removals == s.removals,
        (after_lookup(s, active, found).successful_lookups == s.successful_lookups + 1) == (
        active && found),
        (after_lookup(s, active, found).inactive_lookups == s.inactive_lookups + 1) == !active,
{
}

/// One addition followed by one removal leaves the net change where it was.
pub proof fn law_net_changes_after_add_and_remove(s: RegistryStats)
    requires
        s.additions < i64::MAX,
        s.removals < i64::MAX,
    ensures
        net_total(
            RegistryStats {
                additions: (s.additions + 1) as u64,
                removals: (s.removals + 1) as u64,
                ..s
            },
        ) == net_total(s),
{
}

// ---------------------------------------------------------------------------
// Conflicts
// ---------------------------------------------------------------------------

/// Patterns of different function types never conflict.
pub proof fn law_different_kinds_never_conflict(
    a: PatternModel,
    va: u64,
    b: PatternModel,
    vb: u64,
    close: bool,
)
    requires
        !same_kind(a, b),
    ensures
        conflict_between(a, va, b, vb, close) is None,
{
}

/// Two SUMIFS patterns, or two AVERAGEIFS patterns, that total different columns or are on
/// different sheets never conflict, and neither do two COUNTIFS patterns on different
/// sheets, whatever their criteria and values.
pub proof fn law_ifs_on_different_columns_never_conflict(
    a: PatternModel,
    va: u64,
    b: PatternModel,
    vb: u64,
    close: bool,
)
    ensures
        (a matches PatternModel::Sumifs { sheet: s1, sum_column: c1, .. } && b matches PatternModel::Sumifs {
            sheet: s2,
            sum_column: c2,
            ..
        } && (c1 != c2 || s1 != s2)) ==> conflict_between(a, va, b, vb, close) is None,
        (a matches PatternModel::Averageifs { sheet: s1, average_column: c1, .. }
            && b matches PatternModel::Averageifs { sheet: s2, average_column: c2, .. } && (c1
            != c2 || s1 != s2)) ==> conflict_between(a, va, b, vb, close) is None,
        (a matches PatternModel::Countifs { sheet: s1, .. } && b matches PatternModel::Countifs {
            sheet: s2,
            ..
        } && s1 != s2) ==> conflict_between(a, va, b, vb, close) is None,
{
}

/// A pattern always conflicts with itself: an exact duplicate when the values are
/// close, otherwise the same pattern with different values.
pub proof fn law_same_pattern_conflicts(a: PatternModel, va: u64, vb: u64, close: bool)
    ensures
        conflict_between(a, va, a, vb, close) == (if close {
            Some(ConflictModel::ExactDuplicate { pattern: a, value: va })
        } else {
            Some(ConflictModel::SamePatternDifferentValues { pattern: a, value1: va, value2: vb })
        }),
{
}

/// Whether two patterns conflict does not depend on which of them is registered first.
pub proof fn law_conflict_symmetric(
    a: PatternModel,
    va: u64,
    b: PatternModel,
    vb: u64,
    close: bool,
)
    ensures
        (conflict_between(a, va, b, vb, close) is Some) == (conflict_between(
            b,
            vb,
            a,
            va,
            close,
        ) is Some),
{
}

/// Table overlap is symmetric.
pub proof fn law_overlap_symmetric(t1: TableModel, t2: TableModel)
    ensures
        tables_overlap(t1, t2) == tables_overlap(t2, t1),
{
}

/// Every table overlaps itself.
pub proof fn law_overlap_reflexive(t: TableModel)
    requires
        t.start_row <= t.end_row,
        t.start_column <= t.end_column,
    ensures
        tables_overlap(t, t),
{
}

/// No criteria list is a subset of itself, and the subset relation is never mutual.
pub proof fn law_subset_strict(a: Seq<PairModel>, b: Seq<PairModel>)
    ensures
        !criteria_subset(a, a),
        criteria_subset(a, b) ==> !criteria_subset(b, a),
{
}

/// Every registered pattern that conflicts with the new one is named by the conflicts
/// found.
proof fn lemma_conflicts_name_every_conflicting_pattern(
    e: Seq<EntryModel>,
    b: PatternModel,
    vb: u64,
    close: bool,
    i: int,
)
    requires
        0 <= i < e.len(),
        conflict_between(e[i].0, e[i].1, b, vb, close) is Some,
    ensures
        conflict_keys(conflicts_over(e, b, vb, close)).contains(e[i].0),
    decreases e.len(),
{
    let rest = conflicts_over(e.drop_last(), b, vb, close);
    if i < e.len() - 1 {
        lemma_conflicts_name_every_conflicting_pattern(e.drop_last(), b, vb, close, i);
    }
    match conflict_between(e.last().0, e.last().1, b, vb, close) {
        Some(c) => {
            assert(rest.push(c).drop_last() =~= rest);
            assert(conflict_keys(rest.push(c)) == conflict_keys(rest).union(conflict_patterns(c)));
        },
        None => {},
    }
}

/// After overwriting, no other registered pattern conflicts with the new one: every
/// pattern a conflict named was removed.
pub proof fn law_overwrite_leaves_no_conflict(
    e: Seq<EntryModel>,
    b: PatternModel,
    vb: u64,
    close: bool,
    k: PatternModel,
)
    ensures
        ({
            let after = entries_map(e).remove_keys(
                conflict_keys(conflicts_over(e, b, vb, close)),
            ).insert(b, vb);
            after.contains_key(k) && k != b ==> conflict_between(k, after[k], b, vb, close) is None
        }),
{
    let cs = conflicts_over(e, b, vb, close);
    let after = entries_map(e).remove_keys(conflict_keys(cs)).insert(b, vb);
    if after.contains_key(k) && k != b {
        assert(has_key(e, k));
        let i = key_index(e, k);
        assert(e[i].0 == k);
        assert(after[k] == e[i].1);
        if conflict_between(k, after[k], b, vb, close) is Some {
            lemma_conflicts_name_every_conflicting_pattern(e, b, vb, close, i);
        }
    }
}

// ---------------------------------------------------------------------------
// Validation
// ---------------------------------------------------------------------------

/// Pairs that passed their checks have non-negative columns not used by earlier pairs.
proof fn lemma_pairs_checked(pairs: Seq<PairModel>, n: nat)
    requires
        n <= pairs.len(),
        pairs_check(pairs, n) is Ok,
    ensures
        forall|i: int|
            0 <= i < n ==> (#[trigger] pairs[i]).column >= 0 && !column_seen(
                pairs,
                i,
                pairs[i].column,
            ),
    decreases n,
{
    if n > 0 {
        lemma_pairs_checked(pairs, (n - 1) as nat);
    }
}

/// A valid SUMIFS, COUNTIFS or AVERAGEIFS pattern has between one and a hundred criteria
/// pairs, on distinct non-negative columns, and a non-negative data column.
pub proof fn law_valid_ifs_patterns(
    sheet: Option<Seq<char>>,
    data_column: Option<i32>,
    pairs: Seq<PairModel>,
)
    requires
        ifs_check(sheet, data_column, pairs) is Ok,
    ensures
        0 < pairs.len() <= MAX_CRITERIA,
        data_column matches Some(c) ==> c >= 0,
        forall|i: int| 0 <= i < pairs.len() ==> (#[trigger] pairs[i]).column >= 0,
        forall|i: int, j: int|
            0 <= i < j < pairs.len() ==> (#[trigger] pairs[i]).column != (#[trigger] pairs[j]).column,
{
    lemma_pairs_checked(pairs, pairs.len());
    assert forall|i: int, j: int| 0 <= i < j < pairs.len() implies (#[trigger] pairs[i]).column
        != (#[trigger] pairs[j]).column by {
        if pairs[i].column == pairs[j].column {
            assert(column_seen(pairs, j, pairs[j].column));
        }
    }
}

// ---------------------------------------------------------------------------
// Extraction
// ---------------------------------------------------------------------------

/// A column that the reporting extraction reads, the plain extraction reads too.
proof fn lemma_strict_column(n: Node, cell: Option<CellReferenceIndex>)
    ensures
        strict_column(n, cell) matches Ok(c) ==> lenient_column(n, cell) == Some(c),
{
}

/// Criteria pairs that the reporting extraction reads, the plain extraction reads too.
proof fn lemma_strict_pairs(
    args: Seq<Node>,
    cell: Option<CellReferenceIndex>,
    start: int,
    k: nat,
)
    ensures
        strict_pairs(args, cell, start, k) matches Ok(ps) ==> lenient_pairs(args, cell, start, k)
            == Some(ps),
    decreases k,
{
    if k > 0 {
        lemma_strict_pairs(args, cell, start, (k - 1) as nat);
        lemma_strict_column(args[start + 2 * (k - 1)], cell);
    }
}

/// Every pattern that the reporting extraction (`try_from_node`) returns is valid, and
/// the plain extraction (`from_node`) returns the same pattern.
pub proof fn law_strict_extraction_is_valid_and_lenient(
    n: Node,
    cell: Option<CellReferenceIndex>,
)
    ensures
        strict_pattern(n, cell) matches Ok(p) ==> pattern_check(p) is Ok && lenient_pattern(
            n,
            cell,
        ) == Some(p),
{
    match n {
        Node::FunctionKind { kind, args } => {
            let a = args@;
            let len = a.len();
            if len >= 1 {
                lemma_strict_column(a[0], cell);
            }
            if len >= 2 {
                lemma_strict_pairs(a, cell, 0, (len / 2) as nat);
                lemma_strict_pairs(a, cell, 1, ((len - 1) / 2) as nat);
            }
        },
        _ => {},
    }
}

/// Whether VLOOKUP's fourth argument (range_lookup) reads as FALSE: a number that is zero
/// (of either sign), or the boolean FALSE. Any other number, NaN included, reads as TRUE.
pub open spec fn range_lookup_false(n: Node) -> bool {
    match n {
        Node::NumberKind(k, _) => is_zero_bits(k.spec_bits()),
        Node::BooleanKind(b) => !b,
        _ => false,
    }
}

/// VLOOKUP's exact-match flag is the negation of its range_lookup argument: a pattern
/// extracted (with or without error reporting) from VLOOKUP with a fourth argument of 0
/// or FALSE matches exactly, with any other number or TRUE approximately, and without a
/// fourth argument approximately.
pub proof fn law_vlookup_exact_match_is_range_lookup_false(
    args: Vec<Node>,
    cell: Option<CellReferenceIndex>,
)
    ensures
        ({
            let n = Node::FunctionKind { kind: Function::Vlookup, args };
            let exact = if args@.len() == 4 {
                range_lookup_false(args@[3])
            } else {
                false
            };
            &&& lenient_pattern(n, cell) matches Some(p) ==> p matches PatternModel::Vlookup {
                exact_match,
                ..
            } && exact_match == exact
            &&& strict_pattern(n, cell) matches Ok(p) ==> p matches PatternModel::Vlookup {
                exact_match,
                ..
            } && exact_match == exact
        }),
{
    if args@.len() == 4 {
        if let Node::NumberKind(k, _) = args@[3] {
            let b = k.spec_bits();
            assert(((b >> 52u64) & 0x7ffu64 == 0 && b & 0x000f_ffff_ffff_ffffu64 == 0) == (b
                & 0x7fff_ffff_ffff_ffffu64 == 0)) by (bit_vector);
            assert(exp_field(b) == (b >> 52u64) & 0x7ffu64);
            assert(frac_field(b) == b & 0x000f_ffff_ffff_ffffu64);
        }
    }
}

/// A VLOOKUP pattern whose sheet, lookup value and table pass validation is valid exactly
/// when its column index lies between 1 and the number of columns of its table; an index
/// beyond the table is reported as an invalid column.
pub proof fn law_vlookup_column_within_table(
    sheet: Option<Seq<char>>,
    lookup_value: ValueModel,
    table_range: TableModel,
    column_index: u32,
    exact_match: bool,
)
    requires
        sheet_check(sheet) is Ok,
        value_check(lookup_value) is Ok,
        table_check(table_range) is Ok,
    ensures
        ({
            let p = PatternModel::Vlookup {
                sheet,
                lookup_value,
                table_range,
                column_index,
                exact_match,
            };
            let width = table_range.end_column - table_range.start_column + 1;
            &&& (pattern_check(p) is Ok) == (1 <= column_index <= width)
            &&& column_index > width ==> pattern_check(p) == Err::<(), ErrorModel>(
                ErrorModel::InvalidColumn { column: column_index as i32 },
            )
        }),
{
}

// ---------------------------------------------------------------------------
// Dates
// ---------------------------------------------------------------------------

/// `(12 * a + b) / 12` and `% 12` for `0 <= b < 12`.
proof fn lemma_twelve(a: int, b: int)
    requires
        0 <= b < 12,
    ensures
        (a * 12 + b) / 12 == a,
        (a * 12 + b) % 12 == b,
{
    assert((a * 12 + b) / 12 == a && (a * 12 + b) % 12 == b) by (nonlinear_arith)
        requires
            0 <= b < 12,
    ;
}

/// Some year holds day number `n`, at or after year `y`.
proof fn lemma_year_of(n: int, y: int) -> (r: int)
    requires
        days_before_year(y) < n,
        y >= 1,
    ensures
        r >= y,
        days_before_year(r) < n <= days_before_year(r + 1),
    decreases n - days_before_year(y),
{
    lemma_year_length(y);
    if n <= days_before_year(y + 1) {
        y
    } else {
        lemma_year_of(n, y + 1)
    }
}

/// Every serial number from 1 to 2,958,465 is the serial number of a date.
proof fn lemma_serial_has_date(s: int)
    requires
        serial_in_range(s),
    ensures
        valid_civil(serial_date(s)),
        date_serial(serial_date(s)) == s,
{
    let n = EXCEL_DATE_BASE + s;
    let y = lemma_year_of(n, 1);
    if y > 9999 {
        lemma_years_ordered(10000, y);
        assert(days_before_year(10000) == 3_652_059);
        assert(false);
    }
    lemma_year_length(y);
    let doy = n - days_before_year(y);
    let m: int = if doy <= days_before_month(y, 2) {
        1
    } else if doy <= days_before_month(y, 3) {
        2
    } else if doy <= days_before_month(y, 4) {
        3
    } else if doy <= days_before_month(y, 5) {
        4
    } else if doy <= days_before_month(y, 6) {
        5
    } else if doy <= days_before_month(y, 7) {
        6
    } else if doy <= days_before_month(y, 8) {
        7
    } else if doy <= days_before_month(y, 9) {
        8
    } else if doy <= days_before_month(y, 10) {
        9
    } else if doy <= days_before_month(y, 11) {
        10
    } else if doy <= days_before_month(y, 12) {
        11
    } else {
        12
    };
    let c = CivilDate { year: y as i32, month: m as u32, day: (doy - days_before_month(y, m)) as u32 };
    assert(valid_civil(c));
    assert(date_number(c) == n);
    assert(valid_civil(serial_date(s)) && date_number(serial_date(s)) == n);
}

/// DATE, YEAR, MONTH and DAY are inverse to each other on the dates from January 1,
/// 1900 to December 31, 9999: the serial number of a date has that date, and DATE of its
/// year, month and day gives the serial number back.
pub proof fn law_date_round_trip(c: CivilDate)
    requires
        valid_civil(c),
        2 <= date_serial(c) <= MAXIMUM_DATE_SERIAL_NUMBER,
    ensures
        serial_date(date_serial(c)) == c,
        c.year >= 1900,
        permissive_serial(c.year, c.month as i32, c.day as i32) == Some(date_serial(c)),
{
    let y = c.year as int;
    let m = c.month as int;
    let d = c.day as int;
    lemma_date_of(c);
    lemma_date_in_year(y, m, d);
    if y < 1900 {
        lemma_years_ordered(y + 1, 1900);
        assert(days_before_year(1900) == 693_595);
        assert(false);
    }
    if y > 9999 {
        lemma_years_ordered(10000, y);
        assert(days_before_year(10000) == 3_652_059);
        assert(false);
    }
    lemma_years_ordered(1900, y);
    assert(days_before_year(1900) == 693_595);
    lemma_twelve(y, m - 1);
    let first = CivilDate { year: c.year, month: 1, day: 1 };
    let t = shift_months(first, m - 1);
    assert(first.year * 12 + first.month - 1 + (m - 1) == y * 12 + (m - 1));
    assert(t == (y, m, 1int));
}

/// YEAR, MONTH and DAY of every serial number from 2 (January 1, 1900) to 2,958,465
/// (December 31, 9999) give a date, and DATE of them gives the serial number back.
pub proof fn law_serial_round_trip(s: int)
    requires
        2 <= s <= MAXIMUM_DATE_SERIAL_NUMBER,
    ensures
        valid_civil(serial_date(s)),
        serial_date(s).year >= 1900,
        permissive_serial(
            serial_date(s).year,
            serial_date(s).month as i32,
            serial_date(s).day as i32,
        ) == Some(s),
{
    lemma_serial_has_date(s);
    law_date_round_trip(serial_date(s));
}

/// EOMONTH lands on the last day of a month: the day before the first of the next month
/// is the last day of this one.
pub proof fn law_eomonth_is_last_day(y: int, m: int)
    requires
        valid_date(y, m, 1),
        valid_date(next_month(y, m).0, next_month(y, m).1, 1),
    ensures
        valid_date(y, m, days_in_month(y, m)),
        day_number(next_month(y, m).0, next_month(y, m).1, 1) - 1 == day_number(
            y,
            m,
            days_in_month(y, m),
        ),
        serial_date(day_number(next_month(y, m).0, next_month(y, m).1, 1) - 1 - EXCEL_DATE_BASE)
            == (CivilDate { year: y as i32, month: m as u32, day: days_in_month(y, m) as u32 }),
{
    if m == 12 {
        lemma_year_length(y);
    } else {
        lemma_date_in_month(y, m, 1);
    }
    lemma_date_of(CivilDate { year: y as i32, month: m as u32, day: days_in_month(y, m) as u32 });
}

/// Moving a date by zero months (EDATE with zero months) leaves it unchanged.
pub proof fn law_shift_by_zero_months(c: CivilDate)
    requires
        valid_civil(c),
    ensures
        shift_months(c, 0) == (c.year as int, c.month as int, c.day as int),
{
    lemma_twelve(c.year as int, c.month - 1);
}

/// DATEDIF's units agree: whole years are whole months divided by twelve, the months
/// ignoring years are whole months modulo twelve, and days are the plain difference.
pub proof fn law_datedif_units_agree(s: int, e: int)
    requires
        serial_in_range(s),
        serial_in_range(e),
    ensures
        datedif_years(serial_date(s), serial_date(e)) == datedif_months(serial_date(s), serial_date(e)) / 12,
        datedif_year_months(serial_date(s), serial_date(e)) == datedif_months(serial_date(s), serial_date(e)) % 12,
        datedif_value(s, e, "D"@) == Ok::<int, crate::date_and_time::FormulaErrorModel>(e - s),
{
    lemma_serial_has_date(s);
    lemma_serial_has_date(e);
    let c1 = serial_date(s);
    let c2 = serial_date(e);
    let b = c2.month - c1.month - (if c2.day < c1.day { 1int } else { 0int });
    let a = c2.year - c1.year;
    assert(datedif_months(c1, c2) == a * 12 + b);
    if b < 0 {
        lemma_twelve(a - 1, b + 12);
        assert(a * 12 + b == (a - 1) * 12 + (b + 12));
    } else {
        lemma_twelve(a, b);
    }
    assert(b % 12 == (if b < 0 { b + 12 } else { b })) by (nonlinear_arith)
        requires
            -12 <= b < 12,
    ;
    reveal_strlit("Y");
    reveal_strlit("M");
    reveal_strlit("D");
    assert("D"@ != "Y"@) by {
        assert("D"@[0] != "Y"@[0]);
    }
    assert("D"@ != "M"@) by {
        assert("D"@[0] != "M"@[0]);
    }
}

/// Whether `a` is an anniversary of `c1`: the same month and day, where a February 29
/// falls on February 28 in a year that has no February 29.
pub open spec fn anniversary_of(c1: CivilDate, a: CivilDate) -> bool {
    &&& a.month == c1.month
    &&& (a.day == c1.day || (c1.month == 2 && c1.day == 29 && a.day == 28 && !is_leap_year(
        a.year as int,
    )))
}

/// DATEDIF with unit "YD" counts the days from the latest anniversary of the start date
/// that is on or before the end date: the anniversary in the end date's year when the end
/// date has reached the start's month and day, else the one in the year before. That
/// anniversary lies between the two dates, so the count is never negative and never
/// exceeds the plain difference in days.
pub proof fn law_datedif_year_days_from_latest_anniversary(s: int, e: int)
    requires
        serial_in_range(s),
        serial_in_range(e),
        s <= e,
    ensures
        datedif_value(s, e, "YD"@) is Ok,
        ({
            let d = datedif_value(s, e, "YD"@)->Ok_0;
            let c1 = serial_date(s);
            let c2 = serial_date(e);
            let a = serial_date(e - d);
            &&& 0 <= d <= e - s
            &&& anniversary_of(c1, a)
            &&& if earlier_in_year(c2.month as int, c2.day as int, c1.month as int, c1.day as int) {
                a.year == c2.year - 1
            } else {
                a.year == c2.year
            }
        }),
{
    lemma_serial_has_date(s);
    lemma_serial_has_date(e);
    lemma_serial_order(s, e);
    let c1 = serial_date(s);
    let c2 = serial_date(e);
    let (y1, m1, d1) = (c1.year as int, c1.month as int, c1.day as int);
    let (y2, m2, d2) = (c2.year as int, c2.month as int, c2.day as int);
    let later = earlier_in_year(m2, d2, m1, d1);
    let ty: int = if later { y2 - 1 } else { y2 };
    let dd: int = if valid_date(ty, m1, d1) { d1 } else { 28 };
    let a = CivilDate { year: ty as i32, month: c1.month, day: dd as u32 };
    assert(ty >= y1);
    assert(valid_civil(a));
    let d = datedif_year_days(c1, c2);
    assert(d == date_number(c2) - date_number(a));
    lemma_date_of(a);
    assert(e - d == date_number(a) - EXCEL_DATE_BASE);
    assert(serial_date(e - d) == a);
    lemma_date_in_year(ty, m1, dd);
    lemma_date_in_year(y2, m2, d2);
    lemma_date_in_year(y1, m1, d1);
    // the anniversary is on or before the end date
    if later {
        lemma_years_ordered(ty + 1, y2);
    } else if m1 < m2 {
        lemma_months_ordered(y2, m1, m2);
    }
    assert(date_number(a) <= date_number(c2));
    // and on or after the start date
    if ty > y1 {
        lemma_years_ordered(y1 + 1, ty);
    } else {
        assert(a == c1);
    }
    assert(date_number(c1) <= date_number(a));
    reveal_strlit("YD");
    reveal_strlit("Y");
    reveal_strlit("M");
    reveal_strlit("D");
    reveal_strlit("MD");
    reveal_strlit("YM");
    assert("YD"@ != "Y"@ && "YD"@ != "M"@ && "YD"@ != "D"@) by {
        assert("YD"@.len() != "Y"@.len());
    }
    assert("YD"@ != "MD"@ && "YD"@ != "YM"@) by {
        assert("YD"@[0] != "MD"@[0]);
        assert("YD"@[1] != "YM"@[1]);
    }
}

/// DATE counts days past the first of the month: a day beyond the month's end, or below
/// 1, moves into later or earlier months, so DATE(y, m, d) is DATE(y, m, 1) + d - 1
/// whenever that serial number is in range, and one more day gives the next serial
/// number.
pub proof fn law_date_adds_days(y: i32, m: i32, d: i32)
    ensures
        permissive_serial(y, m, 1) is Some && serial_in_range(
            permissive_serial(y, m, 1)->0 + d - 1,
        ) ==> permissive_serial(y, m, d) == Some(permissive_serial(y, m, 1)->0 + d - 1),
        permissive_serial(y, m, d) is Some && serial_in_range(permissive_serial(y, m, d)->0 + 1)
            && d < i32::MAX ==> permissive_serial(y, m, (d + 1) as i32) == Some(
            permissive_serial(y, m, d)->0 + 1,
        ),
{
}

/// A later serial number has a date that is not earlier in the calendar.
proof fn lemma_serial_order(s: int, e: int)
    requires
        serial_in_range(s),
        serial_in_range(e),
        s <= e,
    ensures
        serial_date(s).year < serial_date(e).year || (serial_date(s).year == serial_date(e).year
            && !earlier_in_year(
            serial_date(e).month as int,
            serial_date(e).day as int,
            serial_date(s).month as int,
            serial_date(s).day as int,
        )),
{
    lemma_serial_has_date(s);
    lemma_serial_has_date(e);
    let c1 = serial_date(s);
    let c2 = serial_date(e);
    let (y1, m1, d1) = (c1.year as int, c1.month as int, c1.day as int);
    let (y2, m2, d2) = (c2.year as int, c2.month as int, c2.day as int);
    lemma_date_in_year(y1, m1, d1);
    lemma_date_in_year(y2, m2, d2);
    if y2 < y1 {
        lemma_years_ordered(y2 + 1, y1);
        assert(false);
    }
    if y2 == y1 && m2 < m1 {
        lemma_months_ordered(y1, m2, m1);
        assert(false);
    }
}

/// DATEDIF's whole months are twelve times its whole years plus its months ignoring
/// years, all of them non-negative, for units "Y", "M" and "YM" written in either case
/// (as the upper-casing of the unit reads them).
pub proof fn law_datedif_months_are_years_and_months(s: int, e: int)
    requires
        serial_in_range(s),
        serial_in_range(e),
        s <= e,
    ensures
        ({
            let years = datedif_years(serial_date(s), serial_date(e));
            let months = datedif_months(serial_date(s), serial_date(e));
            let year_months = datedif_year_months(serial_date(s), serial_date(e));
            &&& datedif_value(s, e, unit_key("Y"@)) == Ok::<int, crate::date_and_time::FormulaErrorModel>(years)
            &&& datedif_value(s, e, unit_key("y"@)) == Ok::<int, crate::date_and_time::FormulaErrorModel>(years)
            &&& datedif_value(s, e, unit_key("M"@)) == Ok::<int, crate::date_and_time::FormulaErrorModel>(months)
            &&& datedif_value(s, e, unit_key("m"@)) == Ok::<int, crate::date_and_time::FormulaErrorModel>(months)
            &&& datedif_value(s, e, unit_key("YM"@)) == Ok::<int, crate::date_and_time::FormulaErrorModel>(year_months)
            &&& datedif_value(s, e, unit_key("ym"@)) == Ok::<int, crate::date_and_time::FormulaErrorModel>(year_months)
            &&& months == 12 * years + year_months
            &&& years >= 0
            &&& months >= 0
            &&& 0 <= year_months <= 11
        }),
{
    law_datedif_units_agree(s, e);
    lemma_serial_order(s, e);
    let months = datedif_months(serial_date(s), serial_date(e));
    assert(months == 12 * (months / 12) + months % 12);
    reveal_strlit("Y");
    reveal_strlit("y");
    reveal_strlit("M");
    reveal_strlit("m");
    reveal_strlit("YM");
    reveal_strlit("ym");
    assert(unit_key("Y"@) =~= "Y"@);
    assert(unit_key("y"@) =~= "Y"@);
    assert(unit_key("M"@) =~= "M"@);
    assert(unit_key("m"@) =~= "M"@);
    assert(unit_key("YM"@) =~= "YM"@);
    assert(unit_key("ym"@) =~= "YM"@);
    assert("M"@ != "Y"@) by {
        assert("M"@[0] != "Y"@[0]);
    }
    assert("YM"@ != "Y"@ && "YM"@ != "M"@ && "YM"@ != "D"@ && "YM"@ != "MD"@) by {
        reveal_strlit("D");
        reveal_strlit("MD");
        assert("YM"@.len() != "Y"@.len());
        assert("YM"@[0] != "MD"@[0]);
    }
}

} // verus!
