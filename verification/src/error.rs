//! Errors of pattern validation and pattern extraction.

use vstd::prelude::*;
use crate::text::{nat_digits, int_text, push_u64_digits, i64_to_text};

verus! {

/// Errors that can occur during pattern validation or extraction.
#[derive(Clone, Debug, PartialEq, Eq)]
pub enum PatternError {
    /// Pattern contains no criteria pairs
    EmptyCriteria,
    /// Pattern has too many criteria pairs (implementation limit)
    TooManyCriteria { max: usize, found: usize },
    /// Invalid column index (must be >= 0)
    InvalidColumn { column: i32 },
    /// Duplicate criteria column
    DuplicateColumn { column: i32 },
    /// Invalid sheet name
    InvalidSheetName { name: String },
    /// Pattern extraction failed due to unsupported node type
    UnsupportedNode { node_type: String },
    /// Formula has wrong number of arguments
    InvalidArgumentCount { expected: String, found: usize },
    /// Multi-column ranges are not supported for pattern matching
    MultiColumnRange { start: i32, end: i32 },
    /// Cell reference is out of bounds
    CellOutOfBounds { sheet: u32, row: i32, column: i32 },
}

/// Abstract value of a [`PatternError`].
pub enum ErrorModel {
    EmptyCriteria,
    TooManyCriteria { max: usize, found: usize },
    InvalidColumn { column: i32 },
    DuplicateColumn { column: i32 },
    InvalidSheetName { name: Seq<char> },
    UnsupportedNode { node_type: Seq<char> },
    InvalidArgumentCount { expected: Seq<char>, found: usize },
    MultiColumnRange { start: i32, end: i32 },
    CellOutOfBounds { sheet: u32, row: i32, column: i32 },
}

impl View for PatternError {
    type V = ErrorModel;

    open spec fn view(&self) -> ErrorModel {
        match self {
            PatternError::EmptyCriteria => ErrorModel::EmptyCriteria,
            PatternError::TooManyCriteria { max, found } => ErrorModel::TooManyCriteria {
                max: *max,
                found: *found,
            },
            PatternError::InvalidColumn { column } => ErrorModel::InvalidColumn { column: *column },
            PatternError::DuplicateColumn { column } => ErrorModel::DuplicateColumn {
                column: *column,
            },
            PatternError::InvalidSheetName { name } => ErrorModel::InvalidSheetName { name: name@ },
            PatternError::UnsupportedNode { node_type } => ErrorModel::UnsupportedNode {
                node_type: node_type@,
            },
            PatternError::InvalidArgumentCount { expected, found } =>
                ErrorModel::InvalidArgumentCount { expected: expected@, found: *found },
            PatternError::MultiColumnRange { start, end } => ErrorModel::MultiColumnRange {
                start: *start,
                end: *end,
            },
            PatternError::CellOutOfBounds { sheet, row, column } => ErrorModel::CellOutOfBounds {
                sheet: *sheet,
                row: *row,
                column: *column,
            },
        }
    }
}

/// Abstract value of a result whose error is a [`PatternError`].
pub open spec fn result_view<T, V>(r: Result<T, PatternError>, f: spec_fn(T) -> V) -> Result<
    V,
    ErrorModel,
> {
    match r {
        Ok(t) => Ok(f(t)),
        Err(e) => Err(e@),
    }
}

/// Abstract value of a unit result whose error is a [`PatternError`].
pub open spec fn unit_view(r: Result<(), PatternError>) -> Result<(), ErrorModel> {
    match r {
        Ok(_) => Ok(()),
        Err(e) => Err(e@),
    }
}

/// The human-readable message of an error.
pub open spec fn message_text(e: ErrorModel) -> Seq<char> {
    match e {
        ErrorModel::EmptyCriteria => "Pattern must contain at least one criteria pair"@,
        ErrorModel::TooManyCriteria { max, found } => "Too many criteria pairs: found "@
            + nat_digits(found as nat) + ", maximum supported is "@ + nat_digits(max as nat),
        ErrorModel::InvalidColumn { column } => "Invalid column index: "@ + int_text(column as int)
            + " (must be >= 0)"@,
        ErrorModel::DuplicateColumn { column } => "Duplicate criteria column: "@ + int_text(
            column as int,
        ),
        ErrorModel::InvalidSheetName { name } => "Invalid sheet name: '"@ + name + "'"@,
        ErrorModel::UnsupportedNode { node_type } =>
            "Unsupported node type for pattern extraction: "@ + node_type,
        ErrorModel::InvalidArgumentCount { expected, found } =>
            "Invalid argument count: expected "@ + expected + ", found "@ + nat_digits(found as nat),
        ErrorModel::MultiColumnRange { start, end } =>
            "Multi-column ranges not supported: columns "@ + int_text(start as int) + " to "@
                + int_text(end as int),
        ErrorModel::CellOutOfBounds { sheet, row, column } =>
            "Cell reference out of bounds: sheet "@ + nat_digits(sheet as nat) + ", row "@
                + int_text(row as int) + ", column "@ + int_text(column as int),
    }
}

fn push_i32(out: &mut String, n: i32)
    ensures
        final(out)@ == old(out)@ + int_text(n as int),
{
    let t = i64_to_text(n as i64);
    out.append(t.as_str());
}

impl PatternError {
    /// The human-readable message of this error.
    pub fn to_string(&self) -> (s: String)
        ensures
            s@ == message_text(self@),
    {
        match self {
            PatternError::EmptyCriteria => String::from_str(
                "Pattern must contain at least one criteria pair",
            ),
            PatternError::TooManyCriteria { max, found } => {
                let mut s = String::from_str("Too many criteria pairs: found ");
                push_u64_digits(&mut s, *found as u64);
                s.append(", maximum supported is ");
                push_u64_digits(&mut s, *max as u64);
                s
            },
            PatternError::InvalidColumn { column } => {
                let mut s = String::from_str("Invalid column index: ");
                push_i32(&mut s, *column);
                s.append(" (must be >= 0)");
                s
            },
            PatternError::DuplicateColumn { column } => {
                let mut s = String::from_str("Duplicate criteria column: ");
                push_i32(&mut s, *column);
                s
            },
            PatternError::InvalidSheetName { name } => {
                let mut s = String::from_str("Invalid sheet name: '");
                s.append(name.as_str());
                s.append("'");
                s
            },
            PatternError::UnsupportedNode { node_type } => {
                let mut s = String::from_str("Unsupported node type for pattern extraction: ");
                s.append(node_type.as_str());
                s
            },
            PatternError::InvalidArgumentCount { expected, found } => {
                let mut s = String::from_str("Invalid argument count: expected ");
                s.append(expected.as_str());
                s.append(", found ");
                push_u64_digits(&mut s, *found as u64);
                s
            },
            PatternError::MultiColumnRange { start, end } => {
                let mut s = String::from_str("Multi-column ranges not supported: columns ");
                push_i32(&mut s, *start);
                s.append(" to ");
                push_i32(&mut s, *end);
                s
            },
            PatternError::CellOutOfBounds { sheet, row, column } => {
                let mut s = String::from_str("Cell reference out of bounds: sheet ");
                push_u64_digits(&mut s, *sheet as u64);
                s.append(", row ");
                push_i32(&mut s, *row);
                s.append(", column ");
                push_i32(&mut s, *column);
                s
            },
        }
    }
}

} // verus!
