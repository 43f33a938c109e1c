//! The debug listing of conflicts that a refused addition reports: each conflict, with
//! its patterns and values, written as `{:?}` writes the values it stands for.
//!
//! Numbers are written with the texts that the caller hands in, one per bit pattern (the
//! `{:?}` text of the double); a number without one is written as its bit pattern.
//! Strings are written as `{:?}` writes a `str`.

use vstd::prelude::*;

use crate::conflict::{ConflictModel, PatternConflict, conflicts_view};
use crate::pattern_key::{
    CellReferenceIndex, CriteriaPair, CriteriaValue, LookupValue, PairModel, PatternKey,
    PatternModel, TableModel, TableRange, ValueModel, pairs_view, sheet_view,
};
use crate::text::{i64_to_text, int_text, nat_digits, push_u64_digits};

verus! {

/// What `{:?}` writes for a `str` (quoted and escaped).
pub uninterp spec fn debug_str(s: Seq<char>) -> Seq<char>;

/// The `{:?}` text of a string.
///
/// Calls `format!("{:?}", s)` on a `str`; the result is named [`debug_str`] of the
/// argument.
#[verifier::external_body]
pub(crate) fn debug_text(s: &str) -> (r: String)
    ensures
        r@ == debug_str(s@),
{
    format!("{:?}", s)
}

/// Texts of numbers, as abstract values.
pub open spec fn number_table(texts: Seq<(u64, String)>) -> Seq<(u64, Seq<char>)> {
    texts.map_values(|e: (u64, String)| (e.0, e.1@))
}

/// The text of the number with bit pattern `b`: the first text given for it, else the
/// decimal digits of the bit pattern.
pub open spec fn number_text(t: Seq<(u64, Seq<char>)>, b: u64) -> Seq<char>
    decreases t.len(),
{
    if t.len() == 0 {
        nat_digits(b as nat)
    } else if t[0].0 == b {
        t[0].1
    } else {
        number_text(t.drop_first(), b)
    }
}

/// Text of an optional sheet name.
pub open spec fn sheet_text(s: Option<Seq<char>>) -> Seq<char> {
    match s {
        None => "None"@,
        Some(n) => "Some("@ + debug_str(n) + ")"@,
    }
}

/// Text of a cell reference.
pub open spec fn cell_text(c: CellReferenceIndex) -> Seq<char> {
    "CellReferenceIndex { sheet: "@ + nat_digits(c.sheet as nat) + ", row: "@ + int_text(
        c.row as int,
    ) + ", column: "@ + int_text(c.column as int) + " }"@
}

/// Text of a criteria or lookup value.
pub open spec fn value_text(v: ValueModel, t: Seq<(u64, Seq<char>)>) -> Seq<char> {
    match v {
        ValueModel::Text(s) => "String("@ + debug_str(s) + ")"@,
        ValueModel::Number(b) => "Number("@ + number_text(t, b) + ")"@,
        ValueModel::Cell(c) => "CellReference("@ + cell_text(c) + ")"@,
    }
}

/// Text of a criteria pair.
pub open spec fn pair_text(p: PairModel, t: Seq<(u64, Seq<char>)>) -> Seq<char> {
    "CriteriaPair { column: "@ + int_text(p.column as int) + ", criteria: "@ + value_text(
        p.criteria,
        t,
    ) + " }"@
}

/// Texts of criteria pairs separated by ", ".
pub open spec fn pair_items(ps: Seq<PairModel>, t: Seq<(u64, Seq<char>)>) -> Seq<char>
    decreases ps.len(),
{
    if ps.len() == 0 {
        Seq::empty()
    } else if ps.len() == 1 {
        pair_text(ps[0], t)
    } else {
        pair_items(ps.drop_last(), t) + ", "@ + pair_text(ps.last(), t)
    }
}

/// Text of a list of criteria pairs.
pub open spec fn pairs_text(ps: Seq<PairModel>, t: Seq<(u64, Seq<char>)>) -> Seq<char> {
    "["@ + pair_items(ps, t) + "]"@
}

/// Text of a table range.
pub open spec fn table_text(tm: TableModel) -> Seq<char> {
    "TableRange { sheet: "@ + sheet_text(tm.sheet) + ", start_row: "@ + int_text(
        tm.start_row as int,
    ) + ", start_column: "@ + int_text(tm.start_column as int) + ", end_row: "@ + int_text(
        tm.end_row as int,
    ) + ", end_column: "@ + int_text(tm.end_column as int) + " }"@
}

/// Text of a boolean.
pub open spec fn bool_text(b: bool) -> Seq<char> {
    if b {
        "true"@
    } else {
        "false"@
    }
}

/// Text of a SUMIFS pattern's parts.
pub open spec fn sumifs_text(
    sheet: Option<Seq<char>>,
    sum_column: i32,
    pairs: Seq<PairModel>,
    t: Seq<(u64, Seq<char>)>,
) -> Seq<char> {
    "Sumifs { sheet: "@ + sheet_text(sheet) + ", sum_column: "@ + int_text(sum_column as int)
        + ", criteria_pairs: "@ + pairs_text(pairs, t) + " }"@
}

/// Text of a COUNTIFS pattern's parts.
pub open spec fn countifs_text(
    sheet: Option<Seq<char>>,
    pairs: Seq<PairModel>,
    t: Seq<(u64, Seq<char>)>,
) -> Seq<char> {
    "Countifs { sheet: "@ + sheet_text(sheet) + ", criteria_pairs: "@ + pairs_text(pairs, t)
        + " }"@
}

/// Text of an AVERAGEIFS pattern's parts.
pub open spec fn averageifs_text(
    sheet: Option<Seq<char>>,
    average_column: i32,
    pairs: Seq<PairModel>,
    t: Seq<(u64, Seq<char>)>,
) -> Seq<char> {
    "Averageifs { sheet: "@ + sheet_text(sheet) + ", average_column: "@ + int_text(
        average_column as int,
    ) + ", criteria_pairs: "@ + pairs_text(pairs, t) + " }"@
}

/// Text of a VLOOKUP pattern's parts.
pub open spec fn vlookup_text(
    sheet: Option<Seq<char>>,
    lookup_value: ValueModel,
    table_range: TableModel,
    column_index: u32,
    exact_match: bool,
    t: Seq<(u64, Seq<char>)>,
) -> Seq<char> {
    "Vlookup { sheet: "@ + sheet_text(sheet) + ", lookup_value: "@ + value_text(lookup_value, t)
        + ", table_range: "@ + table_text(table_range) + ", column_index: "@ + nat_digits(
        column_index as nat,
    ) + ", exact_match: "@ + bool_text(exact_match) + " }"@
}

/// Text of a pattern key.
#[verifier::opaque]
pub open spec fn pattern_text(p: PatternModel, t: Seq<(u64, Seq<char>)>) -> Seq<char> {
    match p {
        PatternModel::Sumifs { sheet, sum_column, criteria_pairs } => sumifs_text(
            sheet,
            sum_column,
            criteria_pairs,
            t,
        ),
        PatternModel::Countifs { sheet, criteria_pairs } => countifs_text(sheet, criteria_pairs, t),
        PatternModel::Averageifs { sheet, average_column, criteria_pairs } => averageifs_text(
            sheet,
            average_column,
            criteria_pairs,
            t,
        ),
        PatternModel::Vlookup { sheet, lookup_value, table_range, column_index, exact_match } =>
            vlookup_text(sheet, lookup_value, table_range, column_index, exact_match, t),
    }
}

/// Text of a conflict.
#[verifier::opaque]
pub open spec fn conflict_text(c: ConflictModel, t: Seq<(u64, Seq<char>)>) -> Seq<char> {
    match c {
        ConflictModel::ExactDuplicate { pattern, value } => "ExactDuplicate { pattern: "@
            + pattern_text(pattern, t) + ", value: "@ + number_text(t, value) + " }"@,
        ConflictModel::SamePatternDifferentValues { pattern, value1, value2 } =>
            "SamePatternDifferentValues { pattern: "@ + pattern_text(pattern, t) + ", value1: "@
            + number_text(t, value1) + ", value2: "@ + number_text(t, value2) + " }"@,
        ConflictModel::SubsetSuperset {
            subset_pattern,
            subset_value,
            superset_pattern,
            superset_value,
        } => "SubsetSuperset { subset_pattern: "@ + pattern_text(subset_pattern, t)
            + ", subset_value: "@ + number_text(t, subset_value) + ", superset_pattern: "@
            + pattern_text(superset_pattern, t) + ", superset_value: "@ + number_text(
            t,
            superset_value,
        ) + " }"@,
    }
}

/// Texts of conflicts separated by ", ".
pub open spec fn conflict_items(cs: Seq<ConflictModel>, t: Seq<(u64, Seq<char>)>) -> Seq<char>
    decreases cs.len(),
{
    if cs.len() == 0 {
        Seq::empty()
    } else if cs.len() == 1 {
        conflict_text(cs[0], t)
    } else {
        conflict_items(cs.drop_last(), t) + ", "@ + conflict_text(cs.last(), t)
    }
}

/// Text of a list of conflicts.
pub open spec fn conflicts_text(cs: Seq<ConflictModel>, t: Seq<(u64, Seq<char>)>) -> Seq<char> {
    "["@ + conflict_items(cs, t) + "]"@
}

// ---------------------------------------------------------------------------
// Writing
// ---------------------------------------------------------------------------

fn push_int(out: &mut String, n: i64)
    ensures
        final(out)@ == old(out)@ + int_text(n as int),
{
    let s = i64_to_text(n);
    out.append(s.as_str());
}

fn push_debug(out: &mut String, s: &str)
    ensures
        final(out)@ == old(out)@ + debug_str(s@),
{
    let d = debug_text(s);
    out.append(d.as_str());
}

/// Appends the text of the number with bit pattern `b`.
pub fn push_number(out: &mut String, texts: &Vec<(u64, String)>, b: u64)
    ensures
        final(out)@ == old(out)@ + number_text(number_table(texts@), b),
{
    let ghost t = number_table(texts@);
    assert(t.subrange(0, t.len() as int) =~= t);
    let mut i: usize = 0;
    while i < texts.len()
        invariant
            i <= texts.len(),
            t == number_table(texts@),
            t.len() == texts@.len(),
            *out == *old(out),
            number_text(t, b) == number_text(t.subrange(i as int, t.len() as int), b),
        decreases texts.len() - i,
    {
        let ghost rest = t.subrange(i as int, t.len() as int);
        assert(rest[0] == t[i as int]);
        assert(rest.drop_first() =~= t.subrange(i + 1, t.len() as int));
        if texts[i].0 == b {
            out.append(texts[i].1.as_str());
            return;
        }
        i = i + 1;
    }
    push_u64_digits(out, b);
}

fn push_sheet(out: &mut String, s: &Option<String>)
    ensures
        final(out)@ == old(out)@ + sheet_text(sheet_view(*s)),
{
    let ghost start = out@;
    match s {
        None => {
            out.append("None");
        },
        Some(n) => {
            out.append("Some(");
            push_debug(out, n.as_str());
            out.append(")");
            assert(out@ =~= start + sheet_text(sheet_view(*s)));
        },
    }
}

fn push_cell(out: &mut String, c: &CellReferenceIndex)
    ensures
        final(out)@ == old(out)@ + cell_text(*c),
{
    let ghost start = out@;
    out.append("CellReferenceIndex { sheet: ");
    push_u64_digits(out, c.sheet as u64);
    out.append(", row: ");
    push_int(out, c.row as i64);
    out.append(", column: ");
    push_int(out, c.column as i64);
    out.append(" }");
    assert(out@ =~= start + cell_text(*c));
}

fn push_criteria(out: &mut String, v: &CriteriaValue, texts: &Vec<(u64, String)>)
    ensures
        final(out)@ == old(out)@ + value_text(v@, number_table(texts@)),
{
    let ghost start = out@;
    match v {
        CriteriaValue::String(s) => {
            out.append("String(");
            push_debug(out, s.as_str());
            out.append(")");
        },
        CriteriaValue::Number(n) => {
            out.append("Number(");
            push_number(out, texts, n.bits());
            out.append(")");
        },
        CriteriaValue::CellReference(c) => {
            out.append("CellReference(");
            push_cell(out, c);
            out.append(")");
        },
    }
    assert(out@ =~= start + value_text(v@, number_table(texts@)));
}

fn push_lookup(out: &mut String, v: &LookupValue, texts: &Vec<(u64, String)>)
    ensures
        final(out)@ == old(out)@ + value_text(v@, number_table(texts@)),
{
    let ghost start = out@;
    match v {
        LookupValue::String(s) => {
            out.append("String(");
            push_debug(out, s.as_str());
            out.append(")");
        },
        LookupValue::Number(n) => {
            out.append("Number(");
            push_number(out, texts, n.bits());
            out.append(")");
        },
        LookupValue::CellReference(c) => {
            out.append("CellReference(");
            push_cell(out, c);
            out.append(")");
        },
    }
    assert(out@ =~= start + value_text(v@, number_table(texts@)));
}

fn push_pair(out: &mut String, p: &CriteriaPair, texts: &Vec<(u64, String)>)
    ensures
        final(out)@ == old(out)@ + pair_text(p@, number_table(texts@)),
{
    let ghost start = out@;
    out.append("CriteriaPair { column: ");
    push_int(out, p.column as i64);
    out.append(", criteria: ");
    push_criteria(out, &p.criteria, texts);
    out.append(" }");
    assert(out@ =~= start + pair_text(p@, number_table(texts@)));
}

fn push_pairs(out: &mut String, pairs: &Vec<CriteriaPair>, texts: &Vec<(u64, String)>)
    ensures
        final(out)@ == old(out)@ + pairs_text(pairs_view(pairs@), number_table(texts@)),
{
    let ghost start = out@;
    let ghost pv = pairs_view(pairs@);
    let ghost t = number_table(texts@);
    out.append("[");
    let mut i: usize = 0;
    while i < pairs.len()
        invariant
            i <= pairs.len(),
            pv == pairs_view(pairs@),
            pv.len() == pairs@.len(),
            t == number_table(texts@),
            out@ == start + "["@ + pair_items(pv.take(i as int), t),
        decreases pairs.len() - i,
    {
        let ghost before = out@;
        if i > 0 {
            out.append(", ");
        }
        push_pair(out, &pairs[i], texts);
        proof {
            assert(pv.take(i + 1).drop_last() =~= pv.take(i as int));
            assert(pv.take(i + 1).last() == pv[i as int]);
            assert(pv[i as int] == pairs@[i as int]@);
            if i == 0 {
                assert(pair_items(pv.take(1), t) == pair_text(pv[0], t));
                assert(pair_items(pv.take(0), t) =~= Seq::<char>::empty());
            }
            assert(out@ =~= start + "["@ + pair_items(pv.take(i + 1), t));
        }
        i = i + 1;
    }
    out.append("]");
    proof {
        assert(pv.take(i as int) =~= pv);
        assert(out@ =~= start + pairs_text(pv, t));
    }
}

fn push_table(out: &mut String, tr: &TableRange)
    ensures
        final(out)@ == old(out)@ + table_text(tr@),
{
    let ghost start = out@;
    out.append("TableRange { sheet: ");
    push_sheet(out, &tr.sheet);
    out.append(", start_row: ");
    push_int(out, tr.start_row as i64);
    out.append(", start_column: ");
    push_int(out, tr.start_column as i64);
    out.append(", end_row: ");
    push_int(out, tr.end_row as i64);
    out.append(", end_column: ");
    push_int(out, tr.end_column as i64);
    out.append(" }");
    assert(out@ =~= start + table_text(tr@));
}

fn push_bool(out: &mut String, b: bool)
    ensures
        final(out)@ == old(out)@ + bool_text(b),
{
    if b {
        out.append("true");
    } else {
        out.append("false");
    }
}

fn push_sumifs(
    out: &mut String,
    sheet: &Option<String>,
    sum_column: i32,
    pairs: &Vec<CriteriaPair>,
    texts: &Vec<(u64, String)>,
)
    ensures
        final(out)@ == old(out)@ + sumifs_text(
            sheet_view(*sheet),
            sum_column,
            pairs_view(pairs@),
            number_table(texts@),
        ),
{
    let ghost start = out@;
    out.append("Sumifs { sheet: ");
    push_sheet(out, sheet);
    out.append(", sum_column: ");
    push_int(out, sum_column as i64);
    out.append(", criteria_pairs: ");
    push_pairs(out, pairs, texts);
    out.append(" }");
    assert(out@ =~= start + sumifs_text(
        sheet_view(*sheet),
        sum_column,
        pairs_view(pairs@),
        number_table(texts@),
    ));
}

fn push_countifs(
    out: &mut String,
    sheet: &Option<String>,
    pairs: &Vec<CriteriaPair>,
    texts: &Vec<(u64, String)>,
)
    ensures
        final(out)@ == old(out)@ + countifs_text(
            sheet_view(*sheet),
            pairs_view(pairs@),
            number_table(texts@),
        ),
{
    let ghost start = out@;
    out.append("Countifs { sheet: ");
    push_sheet(out, sheet);
    out.append(", criteria_pairs: ");
    push_pairs(out, pairs, texts);
    out.append(" }");
    assert(out@ =~= start + countifs_text(
        sheet_view(*sheet),
        pairs_view(pairs@),
        number_table(texts@),
    ));
}

fn push_averageifs(
    out: &mut String,
    sheet: &Option<String>,
    average_column: i32,
    pairs: &Vec<CriteriaPair>,
    texts: &Vec<(u64, String)>,
)
    ensures
        final(out)@ == old(out)@ + averageifs_text(
            sheet_view(*sheet),
            average_column,
            pairs_view(pairs@),
            number_table(texts@),
        ),
{
    let ghost start = out@;
    out.append("Averageifs { sheet: ");
    push_sheet(out, sheet);
    out.append(", average_column: ");
    push_int(out, average_column as i64);
    out.append(", criteria_pairs: ");
    push_pairs(out, pairs, texts);
    out.append(" }");
    assert(out@ =~= start + averageifs_text(
        sheet_view(*sheet),
        average_column,
        pairs_view(pairs@),
        number_table(texts@),
    ));
}

fn push_vlookup(
    out: &mut String,
    sheet: &Option<String>,
    lookup_value: &LookupValue,
    table_range: &TableRange,
    column_index: u32,
    exact_match: bool,
    texts: &Vec<(u64, String)>,
)
    ensures
        final(out)@ == old(out)@ + vlookup_text(
            sheet_view(*sheet),
            lookup_value@,
            table_range@,
            column_index,
            exact_match,
            number_table(texts@),
        ),
{
    let ghost start = out@;
    out.append("Vlookup { sheet: ");
    push_sheet(out, sheet);
    out.append(", lookup_value: ");
    push_lookup(out, lookup_value, texts);
    out.append(", table_range: ");
    push_table(out, table_range);
    out.append(", column_index: ");
    push_u64_digits(out, column_index as u64);
    out.append(", exact_match: ");
    push_bool(out, exact_match);
    out.append(" }");
    assert(out@ =~= start + vlookup_text(
        sheet_view(*sheet),
        lookup_value@,
        table_range@,
        column_index,
        exact_match,
        number_table(texts@),
    ));
}

fn push_pattern(out: &mut String, p: &PatternKey, texts: &Vec<(u64, String)>)
    ensures
        final(out)@ == old(out)@ + pattern_text(p@, number_table(texts@)),
{
    proof {
        reveal(pattern_text);
    }
    match p {
        PatternKey::Sumifs { sheet, sum_column, criteria_pairs } => {
            push_sumifs(out, sheet, *sum_column, criteria_pairs, texts);
        },
        PatternKey::Countifs { sheet, criteria_pairs } => {
            push_countifs(out, sheet, criteria_pairs, texts);
        },
        PatternKey::Averageifs { sheet, average_column, criteria_pairs } => {
            push_averageifs(out, sheet, *average_column, criteria_pairs, texts);
        },
        PatternKey::Vlookup { sheet, lookup_value, table_range, column_index, exact_match } => {
            push_vlookup(out, sheet, lookup_value, table_range, *column_index, *exact_match, texts);
        },
    }
}

fn push_conflict(out: &mut String, c: &PatternConflict, texts: &Vec<(u64, String)>)
    ensures
        final(out)@ == old(out)@ + conflict_text(c@, number_table(texts@)),
{
    let ghost start = out@;
    match c {
        PatternConflict::ExactDuplicate { pattern, value } => {
            out.append("ExactDuplicate { pattern: ");
            push_pattern(out, pattern, texts);
            out.append(", value: ");
            push_number(out, texts, *value);
            out.append(" }");
            proof {
                reveal(conflict_text);
            }
                },
        PatternConflict::SamePatternDifferentValues { pattern, value1, value2 } => {
            out.append("SamePatternDifferentValues { pattern: ");
            push_pattern(out, pattern, texts);
            out.append(", value1: ");
            push_number(out, texts, *value1);
            out.append(", value2: ");
            push_number(out, texts, *value2);
            out.append(" }");
            proof {
                reveal(conflict_text);
            }
                },
        PatternConflict::SubsetSuperset {
            subset_pattern,
            subset_value,
            superset_pattern,
            superset_value,
        } => {
            out.append("SubsetSuperset { subset_pattern: ");
            push_pattern(out, subset_pattern, texts);
            out.append(", subset_value: ");
            push_number(out, texts, *subset_value);
            out.append(", superset_pattern: ");
            push_pattern(out, superset_pattern, texts);
            out.append(", superset_value: ");
            push_number(out, texts, *superset_value);
            out.append(" }");
            proof {
                reveal(conflict_text);
            }
                },
    }
    assert(out@ =~= start + conflict_text(c@, number_table(texts@)));
}

/// The `{:?}` listing of conflicts, each number written with its text from `texts`.
pub fn conflicts_listing(conflicts: &Vec<PatternConflict>, texts: &Vec<(u64, String)>) -> (r:
    String)
    ensures
        r@ == conflicts_text(conflicts_view(conflicts@), number_table(texts@)),
{
    let ghost cv = conflicts_view(conflicts@);
    let ghost t = number_table(texts@);
    let mut out = String::from_str("[");
    let mut i: usize = 0;
    while i < conflicts.len()
        invariant
            i <= conflicts.len(),
            cv == conflicts_view(conflicts@),
            cv.len() == conflicts@.len(),
            t == number_table(texts@),
            out@ == "["@ + conflict_items(cv.take(i as int), t),
        decreases conflicts.len() - i,
    {
        if i > 0 {
            out.append(", ");
        }
        push_conflict(&mut out, &conflicts[i], texts);
        proof {
            assert(cv.take(i + 1).drop_last() =~= cv.take(i as int));
            assert(cv.take(i + 1).last() == cv[i as int]);
            assert(cv[i as int] == conflicts@[i as int]@);
            if i == 0 {
                assert(conflict_items(cv.take(1), t) == conflict_text(cv[0], t));
                assert(conflict_items(cv.take(0), t) =~= Seq::<char>::empty());
            }
            assert(out@ =~= "["@ + conflict_items(cv.take(i + 1), t));
        }
        i = i + 1;
    }
    out.append("]");
    proof {
        assert(cv.take(i as int) =~= cv);
        assert(out@ =~= conflicts_text(cv, t));
    }
    out
}

} // verus!
