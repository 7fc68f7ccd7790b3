//! A verified "describe" pipeline over a tabular query engine.
//!
//! For every column of a dataset the library computes a set of summary
//! statistics (count, null count, mean, standard deviation, minimum, maximum,
//! median and approximate percentiles), regardless of the column's declared
//! type: temporal columns are normalized to numbers, list columns to their
//! lengths, and everything else to the length of its textual form.  The
//! underlying execution engine is DataFusion; the library builds and checks
//! the query plans, and states in its contracts what shape the final report
//! has: one labeled row per statistic, one column per input column, in the
//! input's column order, sorted by the statistic's label.

pub mod engine;
pub mod text;
pub mod method;
pub mod schema;
pub mod describer;
pub mod laws;

pub use describer::{DataFrameDescriber, DescribeError, statistic_row};
pub use method::{DescribeMethod, default_methods, sort_methods, str_lex_le};
pub use schema::{ColumnSpec, ReverseCast, Transform, TypeCategory, read_columns};
pub use text::{percent_fraction, u8_decimal};
