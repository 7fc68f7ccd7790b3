//! Laws relating the normalizer's and the caster's rule tables to the
//! expressions the pipeline builds.
//!
//! The shape properties of a whole report (one row per statistic, the label
//! column followed by the input's columns, never a partial report) are part
//! of `describe`'s own contract; the label order of the rows is part of
//! `sort_methods`' contract.  The laws here pin down the per-category
//! round trip: which projection a column of each category gets on the way
//! in, and which on the way back out.

use vstd::prelude::*;
use datafusion::arrow::datatypes::DataType;
use crate::engine::{
    alias_of, array_length_of, cast_float64_of, cast_int32_of, cast_to_of, col_of,
};
use crate::schema::{
    ReverseCast, Transform, TypeCategory, cast_back_expr_spec, normalized_expr_spec, reverse_for,
    transform_for,
};

verus! {

/// Law: a temporal column is normalized by a cast to a 64-bit float, and
/// its report column is cast back to the column's original type — so a
/// temporal column's statistics, such as its minimum and maximum, carry
/// the original temporal type, not the intermediate numeric one.
pub proof fn lemma_temporal_round_trip(name: Seq<char>, dtype: DataType, c: TypeCategory)
    requires
        c is Temporal,
    ensures
        transform_for(c) is CastNumeric,
        reverse_for(c) is RestoreOriginal,
        normalized_expr_spec(name, c) == alias_of(cast_float64_of(col_of(name)), name),
        cast_back_expr_spec(name, dtype, c) == alias_of(cast_to_of(col_of(name), dtype), name),
{
}

/// Law: a list-valued column is normalized to its element count, and its
/// report column is cast to a plain 32-bit count — so a list column's
/// statistics are integer lengths, never list values.
pub proof fn lemma_list_statistics_are_lengths(name: Seq<char>, dtype: DataType, c: TypeCategory)
    requires
        c is List,
    ensures
        transform_for(c) is ListLength,
        reverse_for(c) is CountAsInt32,
        normalized_expr_spec(name, c) == alias_of(array_length_of(col_of(name)), name),
        cast_back_expr_spec(name, dtype, c) == alias_of(cast_int32_of(col_of(name)), name),
{
}

/// Law: normalization is total — every category has a transform, and only
/// a numeric column passes through unchanged.
pub proof fn lemma_normalization_total(name: Seq<char>, c: TypeCategory)
    ensures
        transform_for(c) is Passthrough <==> c is Numeric,
        c is Numeric ==> normalized_expr_spec(name, c) == alias_of(col_of(name), name),
{
}

} // verus!
