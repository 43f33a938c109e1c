//! Verified pattern keys, validation, pattern extraction, a substitution
//! registry with conflict detection, and spreadsheet date functions.

pub mod text;
pub mod builder;
pub mod pattern_key;
pub mod error;
pub mod validate;
pub mod registry;
pub mod conflict;
pub mod number;
pub mod extract;
pub mod calendar;
pub mod date_and_time;
pub mod listing;
pub mod laws;
