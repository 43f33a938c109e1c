//! Extraction of pattern keys from parsed formula nodes.
//!
//! [`Node`] holds what the extraction reads of a parsed formula: function calls with
//! their arguments, ranges and references (with their absolute/relative flags), and
//! literals. Numbers are carried by their [`NumberKey`], with the `{:?}` text of the double
//! that an unsupported-node error quotes.

use vstd::prelude::*;

use crate::error::{ErrorModel, PatternError};
use crate::listing::{debug_str, debug_text};
use crate::number::{
    as_i32, at_most_u32_max, bits_as_i32, bits_at_most_u32_max, bits_infinite, bits_integral,
    bits_nan, bits_positive, bits_zero, exp_field, frac_field, is_integral, is_positive,
    small_trunc, trunc_magnitude,
};
use crate::pattern_key::{
    CellReferenceIndex, CriteriaPair, CriteriaValue, LookupValue, NumberKey, PairModel,
    PatternKey, PatternModel, TableModel, TableRange, ValueModel, pairs_view, sheet_copy,
    sheet_view,
};
use crate::text::{leading_word, leading_word_of};
use crate::validate::{cell_check, pattern_check, table_check, validate_cell, validate_table_range};

verus! {

/// Function called by a function node.
#[derive(Clone, Copy, Debug, PartialEq, Eq, Structural)]
pub enum Function {
    Sumifs,
    Countifs,
    Averageifs,
    Vlookup,
    /// Any other function
    Other,
}

/// Parsed formula node, as far as pattern extraction reads it.
#[derive(Debug)]
pub enum Node {
    /// A function call
    FunctionKind { kind: Function, args: Vec<Node> },
    /// A range such as `D:D` or `$A$1:$C$10`; coordinates of relative corners are offsets
    RangeKind {
        sheet_name: Option<String>,
        sheet_index: u32,
        absolute_row1: bool,
        absolute_column1: bool,
        row1: i32,
        column1: i32,
        absolute_row2: bool,
        absolute_column2: bool,
        row2: i32,
        column2: i32,
    },
    /// A single-cell reference such as `$C$2`
    ReferenceKind {
        sheet_name: Option<String>,
        sheet_index: u32,
        absolute_row: bool,
        absolute_column: bool,
        row: i32,
        column: i32,
    },
    /// A string literal
    StringKind(String),
    /// A number literal, with the text that `{:?}` writes for it (`1.0`, `-0.0`, `1e300`)
    NumberKind(NumberKey, String),
    /// A boolean literal
    BooleanKind(bool),
    /// Any other node, with the name of its kind
    Other { node_type: String },
}

/// The name of a node's kind, as an unsupported-node error reports it: the first word of
/// the node's `{:?}` text. For a literal that word holds the start of its value, as in
/// `NumberKind(1.0)` or `StringKind("Collections`.
pub open spec fn node_type_name(n: Node) -> Seq<char> {
    match n {
        Node::FunctionKind { .. } => "FunctionKind"@,
        Node::RangeKind { .. } => "RangeKind"@,
        Node::ReferenceKind { .. } => "ReferenceKind"@,
        Node::StringKind(s) => leading_word("StringKind("@ + debug_str(s@) + ")"@),
        Node::NumberKind(_, t) => leading_word("NumberKind("@ + t@ + ")"@),
        Node::BooleanKind(b) => if b {
            "BooleanKind(true)"@
        } else {
            "BooleanKind(false)"@
        },
        Node::Other { node_type } => node_type@,
    }
}

/// Error text for a relative reference met without a cell to resolve it against.
pub open spec fn relative_text() -> Seq<char> {
    "relative reference without context"@
}

/// Whether an integer fits in an `i32`.
pub open spec fn fits(x: int) -> bool {
    i32::MIN <= x <= i32::MAX
}

/// The sheet name of a range or reference node.
pub open spec fn sheet_of(n: Node) -> Option<Seq<char>> {
    match n {
        Node::RangeKind { sheet_name, .. } => sheet_view(sheet_name),
        Node::ReferenceKind { sheet_name, .. } => sheet_view(sheet_name),
        _ => None,
    }
}

/// Resolving the column of a single-column node adds no out-of-range offset.
pub open spec fn column_fits(n: Node, cell: Option<CellReferenceIndex>) -> bool {
    match n {
        Node::RangeKind { column1, column2, absolute_column1, .. } => (column1 == column2
            && !absolute_column1 && cell is Some) ==> fits(column1 + cell->0.column),
        Node::ReferenceKind { column, absolute_column, .. } => (!absolute_column && cell is Some)
            ==> fits(column + cell->0.column),
        _ => true,
    }
}

/// Resolving the corners of a range node adds no out-of-range offset.
pub open spec fn table_fits(n: Node, cell: Option<CellReferenceIndex>) -> bool {
    match n {
        Node::RangeKind {
            absolute_row1,
            absolute_column1,
            row1,
            column1,
            absolute_row2,
            absolute_column2,
            row2,
            column2,
            ..
        } => cell is Some ==> {
            &&& !absolute_row1 ==> fits(row1 + cell->0.row)
            &&& !absolute_column1 ==> fits(column1 + cell->0.column)
            &&& !absolute_row2 ==> fits(row2 + cell->0.row)
            &&& !absolute_column2 ==> fits(column2 + cell->0.column)
        },
        _ => true,
    }
}

/// Reading the first `k` criteria pairs from `args[start..]` without validation resolves
/// every column it reaches in range: a pair's column is resolved once the pairs before
/// it were read.
pub open spec fn lenient_pairs_fit(
    args: Seq<Node>,
    cell: Option<CellReferenceIndex>,
    start: int,
    k: nat,
) -> bool
    decreases k,
{
    if k == 0 {
        true
    } else {
        &&& lenient_pairs_fit(args, cell, start, (k - 1) as nat)
        &&& lenient_pairs(args, cell, start, (k - 1) as nat) is Some ==> column_fits(
            args[start + 2 * (k - 1)],
            cell,
        )
    }
}

/// As [`lenient_pairs_fit`], for reading with error reporting.
pub open spec fn strict_pairs_fit(
    args: Seq<Node>,
    cell: Option<CellReferenceIndex>,
    start: int,
    k: nat,
) -> bool
    decreases k,
{
    if k == 0 {
        true
    } else {
        &&& strict_pairs_fit(args, cell, start, (k - 1) as nat)
        &&& strict_pairs(args, cell, start, (k - 1) as nat) is Ok ==> column_fits(
            args[start + 2 * (k - 1)],
            cell,
        )
    }
}

/// SUMIFS or AVERAGEIFS extraction without validation resolves in range what it reaches:
/// the data column, then the pairs' columns.
pub open spec fn lenient_ifs_fit(args: Seq<Node>, cell: Option<CellReferenceIndex>) -> bool {
    (args.len() >= 3 && (args.len() - 1) % 2 == 0) ==> {
        &&& column_fits(args[0], cell)
        &&& lenient_column(args[0], cell) is Some ==> lenient_pairs_fit(
            args,
            cell,
            1,
            ((args.len() - 1) / 2) as nat,
        )
    }
}

/// As [`lenient_ifs_fit`], for extraction with error reporting.
pub open spec fn strict_ifs_fit(args: Seq<Node>, cell: Option<CellReferenceIndex>) -> bool {
    (args.len() >= 3 && (args.len() - 1) % 2 == 0) ==> {
        &&& column_fits(args[0], cell)
        &&& strict_column(args[0], cell) is Ok ==> strict_pairs_fit(
            args,
            cell,
            1,
            ((args.len() - 1) / 2) as nat,
        )
    }
}

/// COUNTIFS extraction without validation resolves its pairs' columns in range.
pub open spec fn lenient_countifs_fit(args: Seq<Node>, cell: Option<CellReferenceIndex>) -> bool {
    (args.len() >= 2 && args.len() % 2 == 0) ==> lenient_pairs_fit(
        args,
        cell,
        0,
        (args.len() / 2) as nat,
    )
}

/// As [`lenient_countifs_fit`], for extraction with error reporting.
pub open spec fn strict_countifs_fit(args: Seq<Node>, cell: Option<CellReferenceIndex>) -> bool {
    (args.len() >= 2 && args.len() % 2 == 0) ==> strict_pairs_fit(
        args,
        cell,
        0,
        (args.len() / 2) as nat,
    )
}

/// VLOOKUP extraction without validation resolves the table's corners in range, once the
/// lookup value was read.
pub open spec fn lenient_vlookup_fit(args: Seq<Node>, cell: Option<CellReferenceIndex>) -> bool {
    (3 <= args.len() <= 4 && lenient_value(args[0]) is Some) ==> table_fits(args[1], cell)
}

/// As [`lenient_vlookup_fit`], for extraction with error reporting.
pub open spec fn strict_vlookup_fit(args: Seq<Node>, cell: Option<CellReferenceIndex>) -> bool {
    (3 <= args.len() <= 4 && strict_value(args[0]) is Ok) ==> table_fits(args[1], cell)
}

/// Extraction without validation from node `n` resolves every offset it reaches within
/// `i32` (what [`PatternKey::from_node_with_context`] needs).
pub open spec fn lenient_fits(n: Node, cell: Option<CellReferenceIndex>) -> bool {
    match n {
        Node::FunctionKind { kind, args } => match kind {
            Function::Sumifs => lenient_ifs_fit(args@, cell),
            Function::Averageifs => lenient_ifs_fit(args@, cell),
            Function::Countifs => lenient_countifs_fit(args@, cell),
            Function::Vlookup => lenient_vlookup_fit(args@, cell),
            Function::Other => true,
        },
        _ => true,
    }
}

/// Extraction with error reporting from node `n` resolves every offset it reaches within
/// `i32` (what [`PatternKey::try_from_node_with_context`] needs).
pub open spec fn strict_fits(n: Node, cell: Option<CellReferenceIndex>) -> bool {
    match n {
        Node::FunctionKind { kind, args } => match kind {
            Function::Sumifs => strict_ifs_fit(args@, cell),
            Function::Averageifs => strict_ifs_fit(args@, cell),
            Function::Countifs => strict_countifs_fit(args@, cell),
            Function::Vlookup => strict_vlookup_fit(args@, cell),
            Function::Other => true,
        },
        _ => true,
    }
}

/// A pair's column is in range once the pairs before it were read.
proof fn lemma_lenient_pair_fits(
    args: Seq<Node>,
    cell: Option<CellReferenceIndex>,
    start: int,
    total: nat,
    k: nat,
)
    requires
        lenient_pairs_fit(args, cell, start, total),
        k < total,
        lenient_pairs(args, cell, start, k) is Some,
    ensures
        column_fits(args[start + 2 * k], cell),
    decreases total,
{
    if k + 1 < total {
        lemma_lenient_pair_fits(args, cell, start, (total - 1) as nat, k);
    }
}

/// A pair's column is in range once the pairs before it were read.
proof fn lemma_strict_pair_fits(
    args: Seq<Node>,
    cell: Option<CellReferenceIndex>,
    start: int,
    total: nat,
    k: nat,
)
    requires
        strict_pairs_fit(args, cell, start, total),
        k < total,
        strict_pairs(args, cell, start, k) is Ok,
    ensures
        column_fits(args[start + 2 * k], cell),
    decreases total,
{
    if k + 1 < total {
        lemma_strict_pair_fits(args, cell, start, (total - 1) as nat, k);
    }
}

/// Without a context nothing is resolved, so everything fits.
proof fn lemma_fits_without_context(args: Seq<Node>, start: int, k: nat)
    ensures
        lenient_pairs_fit(args, None, start, k),
        strict_pairs_fit(args, None, start, k),
    decreases k,
{
    if k > 0 {
        lemma_fits_without_context(args, start, (k - 1) as nat);
    }
}

/// Without a context, extraction from any node resolves nothing.
proof fn lemma_node_fits_without_context(n: Node)
    ensures
        lenient_fits(n, None),
        strict_fits(n, None),
{
    match n {
        Node::FunctionKind { kind, args } => {
            let a = args@;
            if a.len() >= 2 {
                lemma_fits_without_context(a, 0, (a.len() / 2) as nat);
                lemma_fits_without_context(a, 1, ((a.len() - 1) / 2) as nat);
            }
        },
        _ => {},
    }
}

/// Fitting the first `m` pairs includes fitting the first `j`.
proof fn lemma_pairs_fit_prefix(
    args: Seq<Node>,
    cell: Option<CellReferenceIndex>,
    start: int,
    j: nat,
    m: nat,
)
    requires
        j <= m,
    ensures
        lenient_pairs_fit(args, cell, start, m) ==> lenient_pairs_fit(args, cell, start, j),
        strict_pairs_fit(args, cell, start, m) ==> strict_pairs_fit(args, cell, start, j),
    decreases m,
{
    if j < m {
        lemma_pairs_fit_prefix(args, cell, start, j, (m - 1) as nat);
    }
}

/// Once reading pairs fails, no later column is resolved.
proof fn lemma_pairs_fit_after_stop(
    args: Seq<Node>,
    cell: Option<CellReferenceIndex>,
    start: int,
    j: nat,
    m: nat,
)
    requires
        j <= m,
    ensures
        lenient_pairs(args, cell, start, j) is None ==> (lenient_pairs_fit(args, cell, start, m)
            == lenient_pairs_fit(args, cell, start, j)),
        strict_pairs(args, cell, start, j) is Err ==> (strict_pairs_fit(args, cell, start, m)
            == strict_pairs_fit(args, cell, start, j)),
    decreases m,
{
    if j < m {
        lemma_pairs_fit_after_stop(args, cell, start, j, (m - 1) as nat);
        if lenient_pairs(args, cell, start, j) is None {
            lemma_lenient_pairs_stop(args, cell, start, j, (m - 1) as nat);
        }
        if strict_pairs(args, cell, start, j) is Err {
            lemma_strict_pairs_stop(args, cell, start, j, (m - 1) as nat);
        }
    }
}

/// Column of a single-column range or reference; relative columns are shifted by the
/// context cell's column, or taken as they are without a context. Multi-column ranges
/// and other nodes give `None`.
pub open spec fn lenient_column(n: Node, cell: Option<CellReferenceIndex>) -> Option<i32> {
    match n {
        Node::RangeKind { column1, column2, absolute_column1, .. } => if column1 == column2 {
            Some(
                if absolute_column1 || cell is None {
                    column1
                } else {
                    (column1 + cell->0.column) as i32
                },
            )
        } else {
            None
        },
        Node::ReferenceKind { column, absolute_column, .. } => Some(
            if absolute_column || cell is None {
                column
            } else {
                (column + cell->0.column) as i32
            },
        ),
        _ => None,
    }
}

/// Column of a single-column range or reference, with the reason for a failure.
pub open spec fn strict_column(n: Node, cell: Option<CellReferenceIndex>) -> Result<
    i32,
    ErrorModel,
> {
    match n {
        Node::RangeKind { column1, column2, absolute_column1, .. } => if column1 != column2 {
            Err(ErrorModel::MultiColumnRange { start: column1, end: column2 })
        } else {
            resolved_column(column1, absolute_column1, cell)
        },
        Node::ReferenceKind { column, absolute_column, .. } => resolved_column(
            column,
            absolute_column,
            cell,
        ),
        _ => Err(ErrorModel::UnsupportedNode { node_type: node_type_name(n) }),
    }
}

/// A column offset resolved against the context cell and checked to be non-negative.
pub open spec fn resolved_column(
    column: i32,
    absolute: bool,
    cell: Option<CellReferenceIndex>,
) -> Result<i32, ErrorModel> {
    if !absolute && cell is None {
        Err(ErrorModel::UnsupportedNode { node_type: relative_text() })
    } else {
        let c = if absolute {
            column
        } else {
            (column + cell->0.column) as i32
        };
        if c < 0 {
            Err(ErrorModel::InvalidColumn { column: c })
        } else {
            Ok(c)
        }
    }
}

/// Criteria (or lookup) value of a literal or reference node; references keep their
/// raw row and column.
pub open spec fn lenient_value(n: Node) -> Option<ValueModel> {
    match n {
        Node::StringKind(s) => Some(ValueModel::Text(s@)),
        Node::NumberKind(k, _) => Some(ValueModel::Number(k.spec_bits())),
        Node::ReferenceKind { sheet_index, row, column, .. } => Some(
            ValueModel::Cell(CellReferenceIndex { sheet: sheet_index, row, column }),
        ),
        _ => None,
    }
}

/// Criteria (or lookup) value with the reason for a failure; references must lie on a
/// worksheet.
pub open spec fn strict_value(n: Node) -> Result<ValueModel, ErrorModel> {
    match n {
        Node::StringKind(s) => Ok(ValueModel::Text(s@)),
        Node::NumberKind(k, _) => Ok(ValueModel::Number(k.spec_bits())),
        Node::ReferenceKind { sheet_index, row, column, .. } => {
            let c = CellReferenceIndex { sheet: sheet_index, row, column };
            match cell_check(c) {
                Err(e) => Err(e),
                Ok(_) => Ok(ValueModel::Cell(c)),
            }
        },
        _ => Err(ErrorModel::UnsupportedNode { node_type: node_type_name(n) }),
    }
}

/// A coordinate resolved against the context (`None` for a relative one without context).
pub open spec fn resolve(offset: i32, absolute: bool, base: Option<i32>) -> Option<i32> {
    if absolute {
        Some(offset)
    } else {
        match base {
            Some(b) => Some((offset + b) as i32),
            None => None,
        }
    }
}

/// Row of the context cell.
pub open spec fn cell_row(cell: Option<CellReferenceIndex>) -> Option<i32> {
    match cell {
        Some(c) => Some(c.row),
        None => None,
    }
}

/// Column of the context cell.
pub open spec fn cell_column(cell: Option<CellReferenceIndex>) -> Option<i32> {
    match cell {
        Some(c) => Some(c.column),
        None => None,
    }
}

/// Table of a range node with every corner resolved, if each can be.
pub open spec fn lenient_table(n: Node, cell: Option<CellReferenceIndex>) -> Option<TableModel> {
    match n {
        Node::RangeKind {
            sheet_name,
            absolute_row1,
            absolute_column1,
            row1,
            column1,
            absolute_row2,
            absolute_column2,
            row2,
            column2,
            ..
        } => {
            let r1 = resolve(row1, absolute_row1, cell_row(cell));
            let c1 = resolve(column1, absolute_column1, cell_column(cell));
            let r2 = resolve(row2, absolute_row2, cell_row(cell));
            let c2 = resolve(column2, absolute_column2, cell_column(cell));
            if r1 is Some && c1 is Some && r2 is Some && c2 is Some {
                Some(
                    TableModel {
                        sheet: sheet_view(sheet_name),
                        start_row: r1->0,
                        start_column: c1->0,
                        end_row: r2->0,
                        end_column: c2->0,
                    },
                )
            } else {
                None
            }
        },
        _ => None,
    }
}

/// Table of a range node, resolved and validated, with the reason for a failure.
pub open spec fn strict_table(n: Node, cell: Option<CellReferenceIndex>) -> Result<
    TableModel,
    ErrorModel,
> {
    match n {
        Node::RangeKind { .. } => match lenient_table(n, cell) {
            None => Err(ErrorModel::UnsupportedNode { node_type: relative_text() }),
            Some(t) => match table_check(t) {
                Err(e) => Err(e),
                Ok(_) => Ok(t),
            },
        },
        _ => Err(ErrorModel::UnsupportedNode { node_type: node_type_name(n) }),
    }
}

/// A number usable as a column index: finite, integral, positive, at most `u32::MAX`.
pub open spec fn number_is_index(b: u64) -> bool {
    !bits_nan(b) && !bits_infinite(b) && bits_integral(b) && bits_positive(b)
        && bits_at_most_u32_max(b)
}

/// Column index of a number node.
pub open spec fn lenient_index(n: Node) -> Option<u32> {
    match n {
        Node::NumberKind(k, _) => if number_is_index(k.spec_bits()) {
            Some(small_trunc(k.spec_bits())->0 as u32)
        } else {
            None
        },
        _ => None,
    }
}

/// Column index of a number node, with the reason for a failure: a fractional (or
/// non-finite) number or a non-positive one reports the number as `as i32` reads it; a
/// number above `u32::MAX` reports `u32::MAX as i32`.
pub open spec fn strict_index(n: Node) -> Result<u32, ErrorModel> {
    match n {
        Node::NumberKind(k, _) => {
            let b = k.spec_bits();
            if bits_nan(b) || bits_infinite(b) || !bits_integral(b) {
                Err(ErrorModel::InvalidColumn { column: bits_as_i32(b) })
            } else if !bits_positive(b) {
                Err(ErrorModel::InvalidColumn { column: bits_as_i32(b) })
            } else if !bits_at_most_u32_max(b) {
                Err(ErrorModel::InvalidColumn { column: -1i32 })
            } else {
                Ok(small_trunc(b)->0 as u32)
            }
        },
        _ => Err(ErrorModel::UnsupportedNode { node_type: node_type_name(n) }),
    }
}

/// Boolean of a boolean node, or of a number node (true when non-zero, NaN included).
pub open spec fn lenient_bool(n: Node) -> Option<bool> {
    match n {
        Node::BooleanKind(b) => Some(b),
        Node::NumberKind(k, _) => Some(!bits_zero(k.spec_bits())),
        _ => None,
    }
}

/// Boolean of a node, with the reason for a failure.
pub open spec fn strict_bool(n: Node) -> Result<bool, ErrorModel> {
    match lenient_bool(n) {
        Some(b) => Ok(b),
        None => Err(ErrorModel::UnsupportedNode { node_type: node_type_name(n) }),
    }
}

/// The first `k` criteria pairs read from `args[start..]` (range, criteria, range, ...),
/// stopping at the first failure.
pub open spec fn strict_pairs(
    args: Seq<Node>,
    cell: Option<CellReferenceIndex>,
    start: int,
    k: nat,
) -> Result<Seq<PairModel>, ErrorModel>
    decreases k,
{
    if k == 0 {
        Ok(Seq::empty())
    } else {
        match strict_pairs(args, cell, start, (k - 1) as nat) {
            Err(e) => Err(e),
            Ok(ps) => {
                let i = start + 2 * (k - 1);
                match strict_column(args[i], cell) {
                    Err(e) => Err(e),
                    Ok(c) => match strict_value(args[i + 1]) {
                        Err(e) => Err(e),
                        Ok(v) => Ok(ps.push(PairModel { column: c, criteria: v })),
                    },
                }
            },
        }
    }
}

/// The first `k` criteria pairs read from `args[start..]`, if all can be read.
pub open spec fn lenient_pairs(
    args: Seq<Node>,
    cell: Option<CellReferenceIndex>,
    start: int,
    k: nat,
) -> Option<Seq<PairModel>>
    decreases k,
{
    if k == 0 {
        Some(Seq::empty())
    } else {
        match lenient_pairs(args, cell, start, (k - 1) as nat) {
            None => None,
            Some(ps) => {
                let i = start + 2 * (k - 1);
                match lenient_column(args[i], cell) {
                    None => None,
                    Some(c) => match lenient_value(args[i + 1]) {
                        None => None,
                        Some(v) => Some(ps.push(PairModel { column: c, criteria: v })),
                    },
                }
            },
        }
    }
}

/// A pattern after validation.
pub open spec fn validated(p: PatternModel) -> Result<PatternModel, ErrorModel> {
    match pattern_check(p) {
        Err(e) => Err(e),
        Ok(_) => Ok(p),
    }
}

/// An argument-count error.
pub open spec fn count_error(expected: Seq<char>, found: int) -> ErrorModel {
    ErrorModel::InvalidArgumentCount { expected, found: found as usize }
}

/// SUMIFS (or AVERAGEIFS, with `average`) extraction with error reporting.
pub open spec fn strict_ifs_with_column(
    args: Seq<Node>,
    cell: Option<CellReferenceIndex>,
    average: bool,
) -> Result<PatternModel, ErrorModel> {
    let n = args.len();
    if n < 3 {
        Err(count_error("at least 3"@, n as int))
    } else if (n - 1) % 2 != 0 {
        Err(count_error("odd number (3, 5, 7, ...)"@, n as int))
    } else {
        match strict_column(args[0], cell) {
            Err(e) => Err(e),
            Ok(c) => match strict_pairs(args, cell, 1, ((n - 1) / 2) as nat) {
                Err(e) => Err(e),
                Ok(ps) => validated(
                    if average {
                        PatternModel::Averageifs {
                            sheet: sheet_of(args[0]),
                            average_column: c,
                            criteria_pairs: ps,
                        }
                    } else {
                        PatternModel::Sumifs {
                            sheet: sheet_of(args[0]),
                            sum_column: c,
                            criteria_pairs: ps,
                        }
                    },
                ),
            },
        }
    }
}

/// COUNTIFS extraction with error reporting.
pub open spec fn strict_countifs(args: Seq<Node>, cell: Option<CellReferenceIndex>) -> Result<
    PatternModel,
    ErrorModel,
> {
    let n = args.len();
    if n < 2 {
        Err(count_error("at least 2"@, n as int))
    } else if n % 2 != 0 {
        Err(count_error("even number (2, 4, 6, ...)"@, n as int))
    } else {
        match strict_pairs(args, cell, 0, (n / 2) as nat) {
            Err(e) => Err(e),
            Ok(ps) => validated(
                PatternModel::Countifs { sheet: sheet_of(args[0]), criteria_pairs: ps },
            ),
        }
    }
}

/// VLOOKUP extraction with error reporting.
pub open spec fn strict_vlookup(args: Seq<Node>, cell: Option<CellReferenceIndex>) -> Result<
    PatternModel,
    ErrorModel,
> {
    let n = args.len();
    if n < 3 || n > 4 {
        Err(count_error("3 or 4"@, n as int))
    } else {
        match strict_value(args[0]) {
            Err(e) => Err(e),
            Ok(lookup) => match strict_table(args[1], cell) {
                Err(e) => Err(e),
                Ok(t) => match strict_index(args[2]) {
                    Err(e) => Err(e),
                    Ok(ci) => {
                        let exact: Result<bool, ErrorModel> = if n > 3 {
                            match strict_bool(args[3]) {
                                Err(e) => Err(e),
                                Ok(b) => Ok(!b),
                            }
                        } else {
                            Ok(false)
                        };
                        match exact {
                            Err(e) => Err(e),
                            Ok(x) => validated(
                                PatternModel::Vlookup {
                                    sheet: t.sheet,
                                    lookup_value: lookup,
                                    table_range: t,
                                    column_index: ci,
                                    exact_match: x,
                                },
                            ),
                        }
                    },
                },
            },
        }
    }
}

/// SUMIFS (or AVERAGEIFS) extraction without validation.
pub open spec fn lenient_ifs_with_column(
    args: Seq<Node>,
    cell: Option<CellReferenceIndex>,
    average: bool,
) -> Option<PatternModel> {
    let n = args.len();
    if n < 3 || (n - 1) % 2 != 0 {
        None
    } else {
        match lenient_column(args[0], cell) {
            None => None,
            Some(c) => match lenient_pairs(args, cell, 1, ((n - 1) / 2) as nat) {
                None => None,
                Some(ps) => Some(
                    if average {
                        PatternModel::Averageifs {
                            sheet: sheet_of(args[0]),
                            average_column: c,
                            criteria_pairs: ps,
                        }
                    } else {
                        PatternModel::Sumifs {
                            sheet: sheet_of(args[0]),
                            sum_column: c,
                            criteria_pairs: ps,
                        }
                    },
                ),
            },
        }
    }
}

/// COUNTIFS extraction without validation.
pub open spec fn lenient_countifs(args: Seq<Node>, cell: Option<CellReferenceIndex>) -> Option<
    PatternModel,
> {
    let n = args.len();
    if n < 2 || n % 2 != 0 {
        None
    } else {
        match lenient_pairs(args, cell, 0, (n / 2) as nat) {
            None => None,
            Some(ps) => Some(PatternModel::Countifs { sheet: sheet_of(args[0]), criteria_pairs: ps }),
        }
    }
}

/// VLOOKUP extraction without validation.
pub open spec fn lenient_vlookup(args: Seq<Node>, cell: Option<CellReferenceIndex>) -> Option<
    PatternModel,
> {
    let n = args.len();
    if n < 3 || n > 4 {
        None
    } else {
        match (lenient_value(args[0]), lenient_table(args[1], cell), lenient_index(args[2])) {
            (Some(lookup), Some(t), Some(ci)) => {
                let exact: Option<bool> = if n > 3 {
                    match lenient_bool(args[3]) {
                        None => None,
                        Some(b) => Some(!b),
                    }
                } else {
                    Some(false)
                };
                match exact {
                    None => None,
                    Some(x) => Some(
                        PatternModel::Vlookup {
                            sheet: t.sheet,
                            lookup_value: lookup,
                            table_range: t,
                            column_index: ci,
                            exact_match: x,
                        },
                    ),
                }
            },
            _ => None,
        }
    }
}

/// The pattern a node stands for, without validation (`None` when none can be read).
pub open spec fn lenient_pattern(n: Node, cell: Option<CellReferenceIndex>) -> Option<
    PatternModel,
> {
    match n {
        Node::FunctionKind { kind, args } => match kind {
            Function::Sumifs => lenient_ifs_with_column(args@, cell, false),
            Function::Countifs => lenient_countifs(args@, cell),
            Function::Averageifs => lenient_ifs_with_column(args@, cell, true),
            Function::Vlookup => lenient_vlookup(args@, cell),
            Function::Other => None,
        },
        _ => None,
    }
}

/// The validated pattern a node stands for, or why there is none.
pub open spec fn strict_pattern(n: Node, cell: Option<CellReferenceIndex>) -> Result<
    PatternModel,
    ErrorModel,
> {
    match n {
        Node::FunctionKind { kind, args } => match kind {
            Function::Sumifs => strict_ifs_with_column(args@, cell, false),
            Function::Countifs => strict_countifs(args@, cell),
            Function::Averageifs => strict_ifs_with_column(args@, cell, true),
            Function::Vlookup => strict_vlookup(args@, cell),
            Function::Other => Err(ErrorModel::UnsupportedNode { node_type: node_type_name(n) }),
        },
        _ => Err(ErrorModel::UnsupportedNode { node_type: node_type_name(n) }),
    }
}

// ---------------------------------------------------------------------------
// Executable extraction
// ---------------------------------------------------------------------------

/// The unsupported-node error for `n`.
fn unsupported(n: &Node) -> (e: PatternError)
    ensures
        e@ == (ErrorModel::UnsupportedNode { node_type: node_type_name(*n) }),
{
    proof {
        reveal_strlit("FunctionKind");
        reveal_strlit("RangeKind");
        reveal_strlit("ReferenceKind");
        reveal_strlit("StringKind(");
        reveal_strlit("NumberKind(");
        reveal_strlit(")");
        reveal_strlit("BooleanKind(true)");
        reveal_strlit("BooleanKind(false)");
    }
    let node_type = match n {
        Node::FunctionKind { .. } => String::from_str("FunctionKind"),
        Node::RangeKind { .. } => String::from_str("RangeKind"),
        Node::ReferenceKind { .. } => String::from_str("ReferenceKind"),
        Node::StringKind(s) => {
            let mut t = String::from_str("StringKind(");
            let d = debug_text(s.as_str());
            t.append(d.as_str());
            t.append(")");
            leading_word_of(t.as_str())
        },
        Node::NumberKind(_, text) => {
            let mut t = String::from_str("NumberKind(");
            t.append(text.as_str());
            t.append(")");
            leading_word_of(t.as_str())
        },
        Node::BooleanKind(b) => if *b {
            String::from_str("BooleanKind(true)")
        } else {
            String::from_str("BooleanKind(false)")
        },
        Node::Other { node_type } => node_type.clone(),
    };
    PatternError::UnsupportedNode { node_type }
}

/// The error for a relative reference met without context.
fn relative_error() -> (e: PatternError)
    ensures
        e@ == (ErrorModel::UnsupportedNode { node_type: relative_text() }),
{
    proof {
        reveal_strlit("relative reference without context");
    }
    PatternError::UnsupportedNode {
        node_type: String::from_str("relative reference without context"),
    }
}

/// Whether `base + offset` fits in an `i32`.
fn offset_fits(offset: i32, base: i32) -> (r: bool)
    ensures
        r == fits(offset + base),
{
    let sum: i64 = offset as i64 + base as i64;
    i32::MIN as i64 <= sum && sum <= i32::MAX as i64
}

impl Node {
    /// Whether resolving this node's single column against `cell` stays in `i32`
    /// (see [`column_fits`]).
    fn column_fits_in(&self, cell: CellReferenceIndex) -> (r: bool)
        ensures
            r == column_fits(*self, Some(cell)),
    {
        match self {
            Node::RangeKind { column1, column2, absolute_column1, .. } => {
                !(*column1 == *column2 && !*absolute_column1) || offset_fits(*column1, cell.column)
            },
            Node::ReferenceKind { column, absolute_column, .. } => {
                *absolute_column || offset_fits(*column, cell.column)
            },
            _ => true,
        }
    }

    /// Whether resolving the corners of this range node against `cell` stays in `i32`
    /// (see [`table_fits`]).
    fn table_fits_in(&self, cell: CellReferenceIndex) -> (r: bool)
        ensures
            r == table_fits(*self, Some(cell)),
    {
        match self {
            Node::RangeKind {
                absolute_row1,
                absolute_column1,
                row1,
                column1,
                absolute_row2,
                absolute_column2,
                row2,
                column2,
                ..
            } => {
                (*absolute_row1 || offset_fits(*row1, cell.row)) && (*absolute_column1
                    || offset_fits(*column1, cell.column)) && (*absolute_row2 || offset_fits(
                    *row2,
                    cell.row,
                )) && (*absolute_column2 || offset_fits(*column2, cell.column))
            },
            _ => true,
        }
    }

    /// Whether [`PatternKey::from_node_with_context`] resolves every offset it reaches
    /// within `i32` for this node and `cell` (see [`lenient_fits`]).
    pub fn fits_context(&self, cell: CellReferenceIndex) -> (r: bool)
        ensures
            r == lenient_fits(*self, Some(cell)),
    {
        match self {
            Node::FunctionKind { kind, args } => match kind {
                Function::Sumifs => lenient_ifs_fit_in(args, cell),
                Function::Averageifs => lenient_ifs_fit_in(args, cell),
                Function::Countifs => {
                    args.len() < 2 || args.len() % 2 != 0 || lenient_pairs_fit_in(args, cell, 0)
                },
                Function::Vlookup => {
                    if args.len() < 3 || args.len() > 4 {
                        true
                    } else {
                        PatternKey::extract_lookup_value(&args[0]).is_none()
                            || args[1].table_fits_in(cell)
                    }
                },
                Function::Other => true,
            },
            _ => true,
        }
    }

    /// Whether [`PatternKey::try_from_node_with_context`] resolves every offset it
    /// reaches within `i32` for this node and `cell` (see [`strict_fits`]).
    pub fn fits_context_strict(&self, cell: CellReferenceIndex) -> (r: bool)
        ensures
            r == strict_fits(*self, Some(cell)),
    {
        match self {
            Node::FunctionKind { kind, args } => match kind {
                Function::Sumifs => strict_ifs_fit_in(args, cell),
                Function::Averageifs => strict_ifs_fit_in(args, cell),
                Function::Countifs => {
                    args.len() < 2 || args.len() % 2 != 0 || strict_pairs_fit_in(args, cell, 0)
                },
                Function::Vlookup => {
                    if args.len() < 3 || args.len() > 4 {
                        true
                    } else {
                        PatternKey::try_extract_lookup_value(&args[0]).is_err()
                            || args[1].table_fits_in(cell)
                    }
                },
                Function::Other => true,
            },
            _ => true,
        }
    }
}

/// Whether reading the pairs of `args[start..]` without validation resolves every column
/// it reaches in range.
fn lenient_pairs_fit_in(args: &Vec<Node>, cell: CellReferenceIndex, start: usize) -> (r: bool)
    requires
        start <= args@.len(),
        (args@.len() - start) % 2 == 0,
    ensures
        r == lenient_pairs_fit(args@, Some(cell), start as int, ((args@.len() - start) / 2) as nat),
{
    let ghost total: nat = ((args@.len() - start) / 2) as nat;
    let ghost c = Some(cell);
    let mut i: usize = start;
    let ghost mut k: nat = 0;
    while i < args.len()
        invariant
            start <= i <= args@.len(),
            (args@.len() - i) % 2 == 0,
            i == start + 2 * k,
            total == ((args@.len() - start) / 2) as nat,
            k <= total,
            c == Some(cell),
            lenient_pairs_fit(args@, c, start as int, k),
            lenient_pairs(args@, c, start as int, k) is Some,
        decreases args@.len() - i,
    {
        if !args[i].column_fits_in(cell) {
            proof {
                lemma_pairs_fit_prefix(args@, c, start as int, k + 1, total);
            }
            return false;
        }
        let column = PatternKey::extract_single_column_from_range(&args[i], Some(cell));
        let value = PatternKey::extract_criteria_value(&args[i + 1]);
        if column.is_none() || value.is_none() {
            proof {
                lemma_pairs_fit_after_stop(args@, c, start as int, k + 1, total);
            }
            return true;
        }
        proof {
            k = k + 1;
        }
        i = i + 2;
    }
    true
}

/// As [`lenient_pairs_fit_in`], for reading with error reporting.
fn strict_pairs_fit_in(args: &Vec<Node>, cell: CellReferenceIndex, start: usize) -> (r: bool)
    requires
        start <= args@.len(),
        (args@.len() - start) % 2 == 0,
    ensures
        r == strict_pairs_fit(args@, Some(cell), start as int, ((args@.len() - start) / 2) as nat),
{
    let ghost total: nat = ((args@.len() - start) / 2) as nat;
    let ghost c = Some(cell);
    let mut i: usize = start;
    let ghost mut k: nat = 0;
    while i < args.len()
        invariant
            start <= i <= args@.len(),
            (args@.len() - i) % 2 == 0,
            i == start + 2 * k,
            total == ((args@.len() - start) / 2) as nat,
            k <= total,
            c == Some(cell),
            strict_pairs_fit(args@, c, start as int, k),
            strict_pairs(args@, c, start as int, k) is Ok,
        decreases args@.len() - i,
    {
        if !args[i].column_fits_in(cell) {
            proof {
                lemma_pairs_fit_prefix(args@, c, start as int, k + 1, total);
            }
            return false;
        }
        let column = PatternKey::try_extract_single_column_from_range(&args[i], Some(cell));
        let value = PatternKey::try_extract_criteria_value(&args[i + 1]);
        if column.is_err() || value.is_err() {
            proof {
                lemma_pairs_fit_after_stop(args@, c, start as int, k + 1, total);
            }
            return true;
        }
        proof {
            k = k + 1;
        }
        i = i + 2;
    }
    true
}

/// Whether SUMIFS or AVERAGEIFS extraction without validation resolves what it reaches
/// in range.
fn lenient_ifs_fit_in(args: &Vec<Node>, cell: CellReferenceIndex) -> (r: bool)
    ensures
        r == lenient_ifs_fit(args@, Some(cell)),
{
    if args.len() < 3 || (args.len() - 1) % 2 != 0 {
        return true;
    }
    if !args[0].column_fits_in(cell) {
        return false;
    }
    match PatternKey::extract_single_column_from_range(&args[0], Some(cell)) {
        None => true,
        Some(_) => lenient_pairs_fit_in(args, cell, 1),
    }
}

/// As [`lenient_ifs_fit_in`], for extraction with error reporting.
fn strict_ifs_fit_in(args: &Vec<Node>, cell: CellReferenceIndex) -> (r: bool)
    ensures
        r == strict_ifs_fit(args@, Some(cell)),
{
    if args.len() < 3 || (args.len() - 1) % 2 != 0 {
        return true;
    }
    if !args[0].column_fits_in(cell) {
        return false;
    }
    match PatternKey::try_extract_single_column_from_range(&args[0], Some(cell)) {
        Err(_) => true,
        Ok(_) => strict_pairs_fit_in(args, cell, 1),
    }
}

/// Whether a result matches its abstract counterpart.
pub open spec fn matches_result<T, V>(r: Result<T, PatternError>, s: Result<V, ErrorModel>, f: spec_fn(T) -> V) -> bool {
    match r {
        Ok(t) => s == Ok::<V, ErrorModel>(f(t)),
        Err(e) => s == Err::<V, ErrorModel>(e@),
    }
}

/// Whether an option matches its abstract counterpart.
pub open spec fn matches_option<T, V>(r: Option<T>, s: Option<V>, f: spec_fn(T) -> V) -> bool {
    match r {
        Some(t) => s == Some(f(t)),
        None => s is None,
    }
}

impl PatternKey {
    /// Sheet name of a range or reference node.
    fn extract_sheet_name(node: &Node) -> (r: Option<String>)
        ensures
            sheet_view(r) == sheet_of(*node),
    {
        match node {
            Node::RangeKind { sheet_name, .. } => sheet_copy(sheet_name),
            Node::ReferenceKind { sheet_name, .. } => sheet_copy(sheet_name),
            _ => None,
        }
    }

    /// Column of a single-column range or reference node; relative columns are shifted by
    /// the context cell's column (taken as they are without context).
    fn extract_single_column_from_range(node: &Node, cell: Option<CellReferenceIndex>) -> (r:
        Option<i32>)
        requires
            column_fits(*node, cell),
        ensures
            r == lenient_column(*node, cell),
    {
        match node {
            Node::RangeKind { column1, column2, absolute_column1, .. } => {
                if *column1 == *column2 {
                    let abs_column = if *absolute_column1 {
                        *column1
                    } else {
                        match cell {
                            Some(cell_ref) => *column1 + cell_ref.column,
                            None => *column1,
                        }
                    };
                    Some(abs_column)
                } else {
                    None
                }
            },
            Node::ReferenceKind { column, absolute_column, .. } => {
                let abs_column = if *absolute_column {
                    *column
                } else {
                    match cell {
                        Some(cell_ref) => *column + cell_ref.column,
                        None => *column,
                    }
                };
                Some(abs_column)
            },
            _ => None,
        }
    }

    /// A column offset resolved against the context and checked to be non-negative.
    fn resolve_column(column: i32, absolute: bool, cell: Option<CellReferenceIndex>) -> (r:
        Result<i32, PatternError>)
        requires
            (!absolute && cell is Some) ==> fits(column + cell->0.column),
        ensures
            matches_result(r, resolved_column(column, absolute, cell), |c: i32| c),
    {
        let abs_column = if absolute {
            column
        } else {
            match cell {
                Some(cell_ref) => column + cell_ref.column,
                None => {
                    return Err(relative_error());
                },
            }
        };
        if abs_column < 0 {
            return Err(PatternError::InvalidColumn { column: abs_column });
        }
        Ok(abs_column)
    }

    /// Column of a single-column range or reference node, with the reason for a failure.
    fn try_extract_single_column_from_range(node: &Node, cell: Option<CellReferenceIndex>) -> (r:
        Result<i32, PatternError>)
        requires
            column_fits(*node, cell),
        ensures
            matches_result(r, strict_column(*node, cell), |c: i32| c),
    {
        match node {
            Node::RangeKind { column1, column2, absolute_column1, .. } => {
                if *column1 != *column2 {
                    return Err(PatternError::MultiColumnRange { start: *column1, end: *column2 });
                }
                Self::resolve_column(*column1, *absolute_column1, cell)
            },
            Node::ReferenceKind { column, absolute_column, .. } => Self::resolve_column(
                *column,
                *absolute_column,
                cell,
            ),
            _ => Err(unsupported(node)),
        }
    }

    /// Criteria value of a literal or reference node.
    fn extract_criteria_value(node: &Node) -> (r: Option<CriteriaValue>)
        ensures
            matches_option(r, lenient_value(*node), |v: CriteriaValue| v@),
    {
        match node {
            Node::StringKind(s) => Some(CriteriaValue::String(s.clone())),
            Node::NumberKind(n, _) => Some(CriteriaValue::Number(*n)),
            Node::ReferenceKind { sheet_index, row, column, .. } => Some(
                CriteriaValue::CellReference(
                    CellReferenceIndex { sheet: *sheet_index, row: *row, column: *column },
                ),
            ),
            _ => None,
        }
    }

    /// Criteria value of a node, with the reason for a failure.
    fn try_extract_criteria_value(node: &Node) -> (r: Result<CriteriaValue, PatternError>)
        ensures
            matches_result(r, strict_value(*node), |v: CriteriaValue| v@),
    {
        match node {
            Node::StringKind(s) => Ok(CriteriaValue::String(s.clone())),
            Node::NumberKind(n, _) => Ok(CriteriaValue::Number(*n)),
            Node::ReferenceKind { sheet_index, row, column, .. } => {
                let cell_ref = CellReferenceIndex { sheet: *sheet_index, row: *row, column: *column };
                match validate_cell(&cell_ref) {
                    Err(e) => Err(e),
                    Ok(_) => Ok(CriteriaValue::CellReference(cell_ref)),
                }
            },
            _ => Err(unsupported(node)),
        }
    }

    /// Lookup value of a literal or reference node.
    fn extract_lookup_value(node: &Node) -> (r: Option<LookupValue>)
        ensures
            matches_option(r, lenient_value(*node), |v: LookupValue| v@),
    {
        match node {
            Node::StringKind(s) => Some(LookupValue::String(s.clone())),
            Node::NumberKind(n, _) => Some(LookupValue::Number(*n)),
            Node::ReferenceKind { sheet_index, row, column, .. } => Some(
                LookupValue::CellReference(
                    CellReferenceIndex { sheet: *sheet_index, row: *row, column: *column },
                ),
            ),
            _ => None,
        }
    }

    /// Lookup value of a node, with the reason for a failure.
    fn try_extract_lookup_value(node: &Node) -> (r: Result<LookupValue, PatternError>)
        ensures
            matches_result(r, strict_value(*node), |v: LookupValue| v@),
    {
        match node {
            Node::StringKind(s) => Ok(LookupValue::String(s.clone())),
            Node::NumberKind(n, _) => Ok(LookupValue::Number(*n)),
            Node::ReferenceKind { sheet_index, row, column, .. } => {
                let cell_ref = CellReferenceIndex { sheet: *sheet_index, row: *row, column: *column };
                match validate_cell(&cell_ref) {
                    Err(e) => Err(e),
                    Ok(_) => Ok(LookupValue::CellReference(cell_ref)),
                }
            },
            _ => Err(unsupported(node)),
        }
    }

    /// Table of a range node with every corner resolved (`None` when a relative corner
    /// has no context).
    fn extract_table_range(node: &Node, cell: Option<CellReferenceIndex>) -> (r: Option<
        TableRange,
    >)
        requires
            table_fits(*node, cell),
        ensures
            matches_option(r, lenient_table(*node, cell), |t: TableRange| t@),
    {
        match node {
            Node::RangeKind {
                sheet_name,
                row1,
                column1,
                row2,
                column2,
                absolute_row1,
                absolute_column1,
                absolute_row2,
                absolute_column2,
                ..
            } => {
                let start_row = if *absolute_row1 {
                    *row1
                } else {
                    match cell {
                        Some(cell_ref) => *row1 + cell_ref.row,
                        None => {
                            return None;
                        },
                    }
                };
                let start_column = if *absolute_column1 {
                    *column1
                } else {
                    match cell {
                        Some(cell_ref) => *column1 + cell_ref.column,
                        None => {
                            return None;
                        },
                    }
                };
                let end_row = if *absolute_row2 {
                    *row2
                } else {
                    match cell {
                        Some(cell_ref) => *row2 + cell_ref.row,
                        None => {
                            return None;
                        },
                    }
                };
                let end_column = if *absolute_column2 {
                    *column2
                } else {
                    match cell {
                        Some(cell_ref) => *column2 + cell_ref.column,
                        None => {
                            return None;
                        },
                    }
                };
                Some(
                    TableRange {
                        sheet: sheet_copy(sheet_name),
                        start_row,
                        start_column,
                        end_row,
                        end_column,
                    },
                )
            },
            _ => None,
        }
    }

    /// Table of a range node, resolved and validated, with the reason for a failure.
    fn try_extract_table_range(node: &Node, cell: Option<CellReferenceIndex>) -> (r: Result<
        TableRange,
        PatternError,
    >)
        requires
            table_fits(*node, cell),
        ensures
            matches_result(r, strict_table(*node, cell), |t: TableRange| t@),
    {
        match node {
            Node::RangeKind { .. } => match Self::extract_table_range(node, cell) {
                None => Err(relative_error()),
                Some(table_range) => match validate_table_range(&table_range) {
                    Err(e) => Err(e),
                    Ok(_) => Ok(table_range),
                },
            },
            _ => Err(unsupported(node)),
        }
    }

    /// Column index of a number node: a finite, integral, positive number at most
    /// `u32::MAX`.
    fn extract_column_index(node: &Node) -> (r: Option<u32>)
        ensures
            r == lenient_index(*node),
    {
        match node {
            Node::NumberKind(n, _) => {
                let b = n.bits();
                if Self::number_is_column_index(b) {
                    let t = trunc_magnitude(b);
                    match t {
                        Some(v) => Some(v as u32),
                        None => None,
                    }
                } else {
                    None
                }
            },
            _ => None,
        }
    }

    /// Whether a number can serve as a column index.
    fn number_is_column_index(b: u64) -> (r: bool)
        ensures
            r == number_is_index(b),
            r ==> small_trunc(b) is Some,
    {
        let e = (b >> 52u64) & 0x7ffu64;
        let f = b & 0x000f_ffff_ffff_ffffu64;
        let finite = e != 0x7ffu64;
        proof {
            assert(e == exp_field(b));
            assert(f == frac_field(b));
        }
        finite && is_integral(b) && is_positive(b) && at_most_u32_max(b)
    }

    /// Column index of a number node, with the reason for a failure.
    fn try_extract_column_index(node: &Node) -> (r: Result<u32, PatternError>)
        ensures
            matches_result(r, strict_index(*node), |c: u32| c),
    {
        match node {
            Node::NumberKind(n, _) => {
                let b = n.bits();
                let e = (b >> 52u64) & 0x7ffu64;
                proof {
                    assert(e == exp_field(b));
                }
                if e == 0x7ffu64 || !is_integral(b) {
                    return Err(PatternError::InvalidColumn { column: as_i32(b) });
                }
                if !is_positive(b) {
                    return Err(PatternError::InvalidColumn { column: as_i32(b) });
                }
                if !at_most_u32_max(b) {
                    return Err(PatternError::InvalidColumn { column: -1i32 });
                }
                match trunc_magnitude(b) {
                    Some(v) => Ok(v as u32),
                    None => Err(PatternError::InvalidColumn { column: -1i32 }),
                }
            },
            _ => Err(unsupported(node)),
        }
    }

    /// Boolean of a boolean or number node.
    fn extract_boolean(node: &Node) -> (r: Option<bool>)
        ensures
            r == lenient_bool(*node),
    {
        match node {
            Node::BooleanKind(b) => Some(*b),
            Node::NumberKind(n, _) => Some(Self::number_nonzero(n.bits())),
            _ => None,
        }
    }

    /// Whether a number differs from zero (NaN does).
    fn number_nonzero(b: u64) -> (r: bool)
        ensures
            r == !bits_zero(b),
    {
        let e = (b >> 52u64) & 0x7ffu64;
        let f = b & 0x000f_ffff_ffff_ffffu64;
        proof {
            assert(e == exp_field(b));
            assert(f == frac_field(b));
        }
        !(e == 0 && f == 0)
    }

    /// Boolean of a node, with the reason for a failure.
    fn try_extract_boolean(node: &Node) -> (r: Result<bool, PatternError>)
        ensures
            matches_result(r, strict_bool(*node), |b: bool| b),
    {
        match node {
            Node::BooleanKind(b) => Ok(*b),
            Node::NumberKind(n, _) => Ok(Self::number_nonzero(n.bits())),
            _ => Err(unsupported(node)),
        }
    }
}

/// Once reading pairs fails, reading more pairs fails the same way.
proof fn lemma_strict_pairs_stop(
    args: Seq<Node>,
    cell: Option<CellReferenceIndex>,
    start: int,
    k: nat,
    m: nat,
)
    requires
        k <= m,
        strict_pairs(args, cell, start, k) is Err,
    ensures
        strict_pairs(args, cell, start, m) == strict_pairs(args, cell, start, k),
    decreases m - k,
{
    if k < m {
        lemma_strict_pairs_stop(args, cell, start, k, (m - 1) as nat);
    }
}

/// Once reading pairs fails, reading more pairs fails too.
proof fn lemma_lenient_pairs_stop(
    args: Seq<Node>,
    cell: Option<CellReferenceIndex>,
    start: int,
    k: nat,
    m: nat,
)
    requires
        k <= m,
        lenient_pairs(args, cell, start, k) is None,
    ensures
        lenient_pairs(args, cell, start, m) is None,
    decreases m - k,
{
    if k < m {
        lemma_lenient_pairs_stop(args, cell, start, k, (m - 1) as nat);
    }
}


impl PatternKey {
    /// Criteria pairs read from `args[start..]`, with the reason for a failure.
    fn try_extract_pairs(args: &Vec<Node>, cell: Option<CellReferenceIndex>, start: usize) -> (r:
        Result<Vec<CriteriaPair>, PatternError>)
        requires
            start <= args@.len(),
            (args@.len() - start) % 2 == 0,
            strict_pairs_fit(args@, cell, start as int, ((args@.len() - start) / 2) as nat),
        ensures
            matches_result(
                r,
                strict_pairs(args@, cell, start as int, ((args@.len() - start) / 2) as nat),
                |v: Vec<CriteriaPair>| pairs_view(v@),
            ),
    {
        let ghost total: nat = ((args@.len() - start) / 2) as nat;
        let mut criteria_pairs: Vec<CriteriaPair> = Vec::new();
        let mut i: usize = start;
        let ghost mut k: nat = 0;
        proof {
            assert(pairs_view(criteria_pairs@) =~= Seq::<PairModel>::empty());
        }
        while i < args.len()
            invariant
                start <= i <= args@.len(),
                (args@.len() - i) % 2 == 0,
                i == start + 2 * k,
                (args@.len() - start) % 2 == 0,
                total == ((args@.len() - start) / 2) as nat,
                k <= total,
                strict_pairs_fit(args@, cell, start as int, total),
                strict_pairs(args@, cell, start as int, k) == Ok::<Seq<PairModel>, ErrorModel>(
                    pairs_view(criteria_pairs@),
                ),
            decreases args@.len() - i,
        {
            proof {
                lemma_strict_pair_fits(args@, cell, start as int, total, k);
            }
            assert(column_fits(args@[i as int], cell));
            let column = match Self::try_extract_single_column_from_range(&args[i], cell) {
                Ok(c) => c,
                Err(e) => {
                    proof {
                        lemma_strict_pairs_stop(args@, cell, start as int, k + 1, total);
                    }
                    return Err(e);
                },
            };
            let criteria = match Self::try_extract_criteria_value(&args[i + 1]) {
                Ok(v) => v,
                Err(e) => {
                    proof {
                        lemma_strict_pairs_stop(args@, cell, start as int, k + 1, total);
                    }
                    return Err(e);
                },
            };
            let ghost before = pairs_view(criteria_pairs@);
            criteria_pairs.push(CriteriaPair { column, criteria });
            proof {
                assert(pairs_view(criteria_pairs@) =~= before.push(
                    PairModel { column, criteria: criteria@ },
                ));
                k = k + 1;
            }
            i = i + 2;
        }
        proof {
            assert(k == total);
        }
        Ok(criteria_pairs)
    }

    /// Criteria pairs read from `args[start..]`, if all can be read.
    fn extract_pairs(args: &Vec<Node>, cell: Option<CellReferenceIndex>, start: usize) -> (r:
        Option<Vec<CriteriaPair>>)
        requires
            start <= args@.len(),
            (args@.len() - start) % 2 == 0,
            lenient_pairs_fit(args@, cell, start as int, ((args@.len() - start) / 2) as nat),
        ensures
            matches_option(
                r,
                lenient_pairs(args@, cell, start as int, ((args@.len() - start) / 2) as nat),
                |v: Vec<CriteriaPair>| pairs_view(v@),
            ),
    {
        let ghost total: nat = ((args@.len() - start) / 2) as nat;
        let mut criteria_pairs: Vec<CriteriaPair> = Vec::new();
        let mut i: usize = start;
        let ghost mut k: nat = 0;
        proof {
            assert(pairs_view(criteria_pairs@) =~= Seq::<PairModel>::empty());
        }
        while i < args.len()
            invariant
                start <= i <= args@.len(),
                (args@.len() - i) % 2 == 0,
                i == start + 2 * k,
                (args@.len() - start) % 2 == 0,
                total == ((args@.len() - start) / 2) as nat,
                k <= total,
                lenient_pairs_fit(args@, cell, start as int, total),
                lenient_pairs(args@, cell, start as int, k) == Some(pairs_view(criteria_pairs@)),
            decreases args@.len() - i,
        {
            proof {
                lemma_lenient_pair_fits(args@, cell, start as int, total, k);
            }
            assert(column_fits(args@[i as int], cell));
            let column = match Self::extract_single_column_from_range(&args[i], cell) {
                Some(c) => c,
                None => {
                    proof {
                        lemma_lenient_pairs_stop(args@, cell, start as int, k + 1, total);
                    }
                    return None;
                },
            };
            let criteria = match Self::extract_criteria_value(&args[i + 1]) {
                Some(v) => v,
                None => {
                    proof {
                        lemma_lenient_pairs_stop(args@, cell, start as int, k + 1, total);
                    }
                    return None;
                },
            };
            let ghost before = pairs_view(criteria_pairs@);
            criteria_pairs.push(CriteriaPair { column, criteria });
            proof {
                assert(pairs_view(criteria_pairs@) =~= before.push(
                    PairModel { column, criteria: criteria@ },
                ));
                k = k + 1;
            }
            i = i + 2;
        }
        proof {
            assert(k == total);
        }
        Some(criteria_pairs)
    }

    /// An argument-count error.
    fn count_error(expected: &str, found: usize) -> (e: PatternError)
        ensures
            e@ == count_error(expected@, found as int),
    {
        PatternError::InvalidArgumentCount { expected: expected.to_owned(), found }
    }

    /// A SUMIFS (or, with `average`, AVERAGEIFS) pattern with error reporting.
    fn try_extract_ifs_with_column(
        args: &Vec<Node>,
        cell: Option<CellReferenceIndex>,
        average: bool,
    ) -> (r: Result<PatternKey, PatternError>)
        requires
            strict_ifs_fit(args@, cell),
        ensures
            matches_result(
                r,
                strict_ifs_with_column(args@, cell, average),
                |p: PatternKey| p@,
            ),
    {
        proof {
            reveal_strlit("at least 3");
            reveal_strlit("odd number (3, 5, 7, ...)");
        }
        if args.len() < 3 {
            return Err(Self::count_error("at least 3", args.len()));
        }
        if (args.len() - 1) % 2 != 0 {
            return Err(Self::count_error("odd number (3, 5, 7, ...)", args.len()));
        }
        assert(column_fits(args@[0], cell));
        let data_column = match Self::try_extract_single_column_from_range(&args[0], cell) {
            Ok(c) => c,
            Err(e) => {
                return Err(e);
            },
        };
        let sheet = Self::extract_sheet_name(&args[0]);
        let criteria_pairs = match Self::try_extract_pairs(args, cell, 1) {
            Ok(p) => p,
            Err(e) => {
                return Err(e);
            },
        };
        let pattern = if average {
            PatternKey::Averageifs { sheet, average_column: data_column, criteria_pairs }
        } else {
            PatternKey::Sumifs { sheet, sum_column: data_column, criteria_pairs }
        };
        match pattern.validate() {
            Err(e) => Err(e),
            Ok(_) => Ok(pattern),
        }
    }

    /// A SUMIFS (or AVERAGEIFS) pattern, without validation.
    fn extract_ifs_with_column(args: &Vec<Node>, cell: Option<CellReferenceIndex>, average: bool) -> (r:
        Option<PatternKey>)
        requires
            lenient_ifs_fit(args@, cell),
        ensures
            matches_option(r, lenient_ifs_with_column(args@, cell, average), |p: PatternKey| p@),
    {
        if args.len() < 3 || (args.len() - 1) % 2 != 0 {
            return None;
        }
        assert(column_fits(args@[0], cell));
        let data_column = match Self::extract_single_column_from_range(&args[0], cell) {
            Some(c) => c,
            None => {
                return None;
            },
        };
        let sheet = Self::extract_sheet_name(&args[0]);
        let criteria_pairs = match Self::extract_pairs(args, cell, 1) {
            Some(p) => p,
            None => {
                return None;
            },
        };
        if average {
            Some(PatternKey::Averageifs { sheet, average_column: data_column, criteria_pairs })
        } else {
            Some(PatternKey::Sumifs { sheet, sum_column: data_column, criteria_pairs })
        }
    }

    /// A SUMIFS pattern with error reporting.
    fn try_extract_sumifs_pattern(args: &Vec<Node>, cell: Option<CellReferenceIndex>) -> (r:
        Result<PatternKey, PatternError>)
        requires
            strict_ifs_fit(args@, cell),
        ensures
            matches_result(r, strict_ifs_with_column(args@, cell, false), |p: PatternKey| p@),
    {
        Self::try_extract_ifs_with_column(args, cell, false)
    }

    /// A SUMIFS pattern, without validation.
    fn extract_sumifs_pattern(args: &Vec<Node>, cell: Option<CellReferenceIndex>) -> (r: Option<
        PatternKey,
    >)
        requires
            lenient_ifs_fit(args@, cell),
        ensures
            matches_option(r, lenient_ifs_with_column(args@, cell, false), |p: PatternKey| p@),
    {
        Self::extract_ifs_with_column(args, cell, false)
    }

    /// An AVERAGEIFS pattern with error reporting.
    fn try_extract_averageifs_pattern(args: &Vec<Node>, cell: Option<CellReferenceIndex>) -> (r:
        Result<PatternKey, PatternError>)
        requires
            strict_ifs_fit(args@, cell),
        ensures
            matches_result(r, strict_ifs_with_column(args@, cell, true), |p: PatternKey| p@),
    {
        Self::try_extract_ifs_with_column(args, cell, true)
    }

    /// An AVERAGEIFS pattern, without validation.
    fn extract_averageifs_pattern(args: &Vec<Node>, cell: Option<CellReferenceIndex>) -> (r: Option<
        PatternKey,
    >)
        requires
            lenient_ifs_fit(args@, cell),
        ensures
            matches_option(r, lenient_ifs_with_column(args@, cell, true), |p: PatternKey| p@),
    {
        Self::extract_ifs_with_column(args, cell, true)
    }

    /// A COUNTIFS pattern with error reporting.
    fn try_extract_countifs_pattern(args: &Vec<Node>, cell: Option<CellReferenceIndex>) -> (r:
        Result<PatternKey, PatternError>)
        requires
            strict_countifs_fit(args@, cell),
        ensures
            matches_result(r, strict_countifs(args@, cell), |p: PatternKey| p@),
    {
        proof {
            reveal_strlit("at least 2");
            reveal_strlit("even number (2, 4, 6, ...)");
        }
        if args.len() < 2 {
            return Err(Self::count_error("at least 2", args.len()));
        }
        if args.len() % 2 != 0 {
            return Err(Self::count_error("even number (2, 4, 6, ...)", args.len()));
        }
        let sheet = Self::extract_sheet_name(&args[0]);
        let criteria_pairs = match Self::try_extract_pairs(args, cell, 0) {
            Ok(p) => p,
            Err(e) => {
                return Err(e);
            },
        };
        let pattern = PatternKey::Countifs { sheet, criteria_pairs };
        match pattern.validate() {
            Err(e) => Err(e),
            Ok(_) => Ok(pattern),
        }
    }

    /// A COUNTIFS pattern, without validation.
    fn extract_countifs_pattern(args: &Vec<Node>, cell: Option<CellReferenceIndex>) -> (r: Option<
        PatternKey,
    >)
        requires
            lenient_countifs_fit(args@, cell),
        ensures
            matches_option(r, lenient_countifs(args@, cell), |p: PatternKey| p@),
    {
        if args.len() < 2 || args.len() % 2 != 0 {
            return None;
        }
        let sheet = Self::extract_sheet_name(&args[0]);
        let criteria_pairs = match Self::extract_pairs(args, cell, 0) {
            Some(p) => p,
            None => {
                return None;
            },
        };
        Some(PatternKey::Countifs { sheet, criteria_pairs })
    }

    /// A VLOOKUP pattern with error reporting. Without a fourth argument the match is
    /// approximate (`exact_match` false); with one, `exact_match` is its negation.
    fn try_extract_vlookup_pattern(args: &Vec<Node>, cell: Option<CellReferenceIndex>) -> (r:
        Result<PatternKey, PatternError>)
        requires
            strict_vlookup_fit(args@, cell),
        ensures
            matches_result(r, strict_vlookup(args@, cell), |p: PatternKey| p@),
    {
        proof {
            reveal_strlit("3 or 4");
        }
        if args.len() < 3 || args.len() > 4 {
            return Err(Self::count_error("3 or 4", args.len()));
        }
        let lookup_value = match Self::try_extract_lookup_value(&args[0]) {
            Ok(v) => v,
            Err(e) => {
                return Err(e);
            },
        };
        let table_range = match Self::try_extract_table_range(&args[1], cell) {
            Ok(t) => t,
            Err(e) => {
                return Err(e);
            },
        };
        let column_index = match Self::try_extract_column_index(&args[2]) {
            Ok(c) => c,
            Err(e) => {
                return Err(e);
            },
        };
        let exact_match = if args.len() > 3 {
            match Self::try_extract_boolean(&args[3]) {
                Ok(b) => !b,
                Err(e) => {
                    return Err(e);
                },
            }
        } else {
            false
        };
        let sheet = sheet_copy(&table_range.sheet);
        let pattern = PatternKey::Vlookup {
            sheet,
            lookup_value,
            table_range,
            column_index,
            exact_match,
        };
        match pattern.validate() {
            Err(e) => Err(e),
            Ok(_) => Ok(pattern),
        }
    }

    /// A VLOOKUP pattern, without validation.
    fn extract_vlookup_pattern(args: &Vec<Node>, cell: Option<CellReferenceIndex>) -> (r: Option<
        PatternKey,
    >)
        requires
            lenient_vlookup_fit(args@, cell),
        ensures
            matches_option(r, lenient_vlookup(args@, cell), |p: PatternKey| p@),
    {
        if args.len() < 3 || args.len() > 4 {
            return None;
        }
        let lookup_value = match Self::extract_lookup_value(&args[0]) {
            Some(v) => v,
            None => {
                return None;
            },
        };
        let table_range = match Self::extract_table_range(&args[1], cell) {
            Some(t) => t,
            None => {
                return None;
            },
        };
        let column_index = match Self::extract_column_index(&args[2]) {
            Some(c) => c,
            None => {
                return None;
            },
        };
        let exact_match = if args.len() > 3 {
            match Self::extract_boolean(&args[3]) {
                Some(b) => !b,
                None => {
                    return None;
                },
            }
        } else {
            false
        };
        let sheet = sheet_copy(&table_range.sheet);
        Some(PatternKey::Vlookup { sheet, lookup_value, table_range, column_index, exact_match })
    }

    /// Extracts a pattern from a parsed node: SUMIFS, COUNTIFS, AVERAGEIFS and VLOOKUP
    /// calls are read (relative references taken as they are, tables needing absolute
    /// corners); any other node, or arguments that cannot be read, give `None`. The
    /// pattern is not validated.
    pub fn from_node(node: &Node) -> (r: Option<PatternKey>)
        ensures
            matches_option(r, lenient_pattern(*node, None), |p: PatternKey| p@),
    {
        proof {
            lemma_node_fits_without_context(*node);
        }
        Self::from_node_in(node, None)
    }

    /// As [`Self::from_node`], resolving relative references against `cell`.
    pub fn from_node_with_context(node: &Node, cell: CellReferenceIndex) -> (r: Option<
        PatternKey,
    >)
        requires
            lenient_fits(*node, Some(cell)),
        ensures
            matches_option(r, lenient_pattern(*node, Some(cell)), |p: PatternKey| p@),
    {
        Self::from_node_in(node, Some(cell))
    }

    /// Extraction without validation, with an optional context cell.
    fn from_node_in(node: &Node, cell: Option<CellReferenceIndex>) -> (r: Option<PatternKey>)
        requires
            lenient_fits(*node, cell),
        ensures
            matches_option(r, lenient_pattern(*node, cell), |p: PatternKey| p@),
    {
        match node {
            Node::FunctionKind { kind, args } => match kind {
                Function::Sumifs => Self::extract_sumifs_pattern(args, cell),
                Function::Countifs => Self::extract_countifs_pattern(args, cell),
                Function::Averageifs => Self::extract_averageifs_pattern(args, cell),
                Function::Vlookup => Self::extract_vlookup_pattern(args, cell),
                Function::Other => None,
            },
            _ => None,
        }
    }

    /// Extracts and validates a pattern from a parsed node, reporting why when it cannot:
    /// wrong argument counts, multi-column ranges, relative references (which need a
    /// context), unreadable arguments, and validation errors.
    pub fn try_from_node(node: &Node) -> (r: Result<PatternKey, PatternError>)
        ensures
            matches_result(r, strict_pattern(*node, None), |p: PatternKey| p@),
    {
        proof {
            lemma_node_fits_without_context(*node);
        }
        Self::try_from_node_in(node, None)
    }

    /// As [`Self::try_from_node`], resolving relative references against `cell`.
    pub fn try_from_node_with_context(node: &Node, cell: CellReferenceIndex) -> (r: Result<
        PatternKey,
        PatternError,
    >)
        requires
            strict_fits(*node, Some(cell)),
        ensures
            matches_result(r, strict_pattern(*node, Some(cell)), |p: PatternKey| p@),
    {
        Self::try_from_node_in(node, Some(cell))
    }

    /// Extraction with validation, with an optional context cell.
    fn try_from_node_in(node: &Node, cell: Option<CellReferenceIndex>) -> (r: Result<
        PatternKey,
        PatternError,
    >)
        requires
            strict_fits(*node, cell),
        ensures
            matches_result(r, strict_pattern(*node, cell), |p: PatternKey| p@),
    {
        match node {
            Node::FunctionKind { kind, args } => match kind {
                Function::Sumifs => Self::try_extract_sumifs_pattern(args, cell),
                Function::Countifs => Self::try_extract_countifs_pattern(args, cell),
                Function::Averageifs => Self::try_extract_averageifs_pattern(args, cell),
                Function::Vlookup => Self::try_extract_vlookup_pattern(args, cell),
                Function::Other => Err(unsupported(node)),
            },
            _ => Err(unsupported(node)),
        }
    }
}

} // verus!
