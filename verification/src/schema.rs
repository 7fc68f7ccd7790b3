//! Type normalization and reverse casting.
//!
//! Aggregates want numbers, so every column is first projected into a
//! statistics-friendly representation, chosen by the column's type category
//! with the first matching rule winning: temporal values are cast to a
//! 64-bit float, numeric values pass through, list values become their
//! element count, and everything else becomes the character count of its
//! textual form.  After aggregation the mapping is partially reversed:
//! a temporal column's statistics are cast back to the column's original
//! type, a list column's to a plain 32-bit count, and the rest stay as
//! computed.  The contracts pin which expression each rule builds, so the
//! rule tables (`transform_for`, `reverse_for`) are what the pipeline
//! provably applies.

use vstd::prelude::*;
use datafusion::dataframe::DataFrame;
use datafusion::arrow::datatypes::DataType;
use datafusion::logical_expr::Expr;
use crate::engine::{
    alias_of, array_length_of, cast_float64_of, cast_int32_of, cast_to_of, cast_utf8_of,
    char_length_of, col_of, column_type, df_column_name, df_column_type, df_names,
    df_num_columns, dt_clone, dt_is_list, dt_is_numeric, dt_is_temporal, expr_alias, expr_cast_float64,
    expr_cast_int32, expr_cast_to, expr_cast_utf8, expr_col, expr_name, fn_array_length,
    fn_char_length, is_alias, is_list_of, is_numeric_of, is_temporal_of,
};

verus! {

/// The category of a column's declared type, in rule order: the first
/// matching category wins.
#[derive(Clone, Copy, Debug, PartialEq, Eq, Structural)]
pub enum TypeCategory {
    Temporal,
    Numeric,
    List,
    Other,
}

/// How a column is projected into its statistics-friendly representation.
#[derive(Clone, Copy, Debug, PartialEq, Eq, Structural)]
pub enum Transform {
    CastNumeric,
    Passthrough,
    ListLength,
    TextLength,
}

/// How a column of the assembled report is mapped back toward the
/// column's original semantic type.
#[derive(Clone, Copy, Debug, PartialEq, Eq, Structural)]
pub enum ReverseCast {
    RestoreOriginal,
    CountAsInt32,
    Keep,
}

/// The rule table of the normalizer: total over every category.
pub open spec fn transform_for(c: TypeCategory) -> Transform {
    match c {
        TypeCategory::Temporal => Transform::CastNumeric,
        TypeCategory::Numeric => Transform::Passthrough,
        TypeCategory::List => Transform::ListLength,
        TypeCategory::Other => Transform::TextLength,
    }
}

/// The rule table of the caster: total over every category.
pub open spec fn reverse_for(c: TypeCategory) -> ReverseCast {
    match c {
        TypeCategory::Temporal => ReverseCast::RestoreOriginal,
        TypeCategory::List => ReverseCast::CountAsInt32,
        _ => ReverseCast::Keep,
    }
}

/// Category from the three type predicates, first match wins.
pub open spec fn categorize_spec(temporal: bool, numeric: bool, list: bool) -> TypeCategory {
    if temporal {
        TypeCategory::Temporal
    } else if numeric {
        TypeCategory::Numeric
    } else if list {
        TypeCategory::List
    } else {
        TypeCategory::Other
    }
}

/// The category of an engine type, by its named predicates.
pub open spec fn category_of(dt: DataType) -> TypeCategory {
    categorize_spec(is_temporal_of(dt), is_numeric_of(dt), is_list_of(dt))
}

/// The category of column `i` of a frame.
pub open spec fn column_category(df: DataFrame, i: int) -> TypeCategory {
    category_of(column_type(df, i))
}

/// One column of the input dataset: its name, its declared engine type and
/// the category that type falls under.
#[derive(Debug)]
pub struct ColumnSpec {
    pub name: String,
    pub dtype: DataType,
    pub category: TypeCategory,
}

/// Whether a column description matches column `i` of a frame: same name,
/// the frame's declared type, and the category that type falls under.
pub open spec fn column_spec_wf(df: DataFrame, i: int, c: ColumnSpec) -> bool {
    &&& c.name@ == df_names(df)[i]
    &&& c.dtype == column_type(df, i)
    &&& c.category == column_category(df, i)
}

/// The names of a column list, in order.
pub open spec fn column_names(cols: Seq<ColumnSpec>) -> Seq<Seq<char>> {
    cols.map_values(|c: ColumnSpec| c.name@)
}

/// Reads the schema of a frame into column descriptions: one entry per
/// column, under the column's name, carrying its declared type, categorized
/// by the type predicates in rule order.
pub fn read_columns(df: &DataFrame) -> (r: Vec<ColumnSpec>)
    ensures
        r@.len() == df_names(*df).len(),
        forall|i: int| 0 <= i < r@.len() ==> column_spec_wf(*df, i, #[trigger] r@[i]),
        column_names(r@) == df_names(*df),
{
    let n = df_num_columns(df);
    let mut cols: Vec<ColumnSpec> = Vec::new();
    let mut i: usize = 0;
    while i < n
        invariant
            i <= n,
            n == df_names(*df).len(),
            cols@.len() == i,
            forall|j: int| 0 <= j < i ==> column_spec_wf(*df, j, #[trigger] cols@[j]),
        decreases n - i,
    {
        let name = df_column_name(df, i);
        let dtype = df_column_type(df, i);
        let temporal = dt_is_temporal(&dtype);
        let numeric = dt_is_numeric(&dtype);
        let list = dt_is_list(&dtype);
        let category = if temporal {
            TypeCategory::Temporal
        } else if numeric {
            TypeCategory::Numeric
        } else if list {
            TypeCategory::List
        } else {
            TypeCategory::Other
        };
        proof {
            assert(category == categorize_spec(temporal, numeric, list));
        }
        cols.push(ColumnSpec { name, dtype, category });
        i = i + 1;
    }
    proof {
        assert(column_names(cols@) =~= df_names(*df));
    }
    cols
}

/// The normalizing projection of one column, by the normalizer's rule
/// table: the statistics-friendly representation, aliased back to the
/// column's name.
pub open spec fn normalized_expr_spec(name: Seq<char>, cat: TypeCategory) -> Expr {
    alias_of(
        match transform_for(cat) {
            Transform::CastNumeric => cast_float64_of(col_of(name)),
            Transform::Passthrough => col_of(name),
            Transform::ListLength => array_length_of(col_of(name)),
            Transform::TextLength => char_length_of(cast_utf8_of(col_of(name))),
        },
        name,
    )
}

/// Builds the normalizing projection of one column.
pub fn normalize_expr(c: &ColumnSpec) -> (e: Expr)
    ensures
        e == normalized_expr_spec(c.name@, c.category),
        expr_name(e) == c.name@,
        is_alias(e),
{
    let base = match c.category {
        TypeCategory::Temporal => expr_cast_float64(expr_col(c.name.as_str())),
        TypeCategory::Numeric => expr_col(c.name.as_str()),
        TypeCategory::List => fn_array_length(expr_col(c.name.as_str())),
        TypeCategory::Other => fn_char_length(expr_cast_utf8(expr_col(c.name.as_str()))),
    };
    expr_alias(base, c.name.as_str())
}

/// The reverse-casting projection of one column of the report, by the
/// caster's rule table, aliased back to the column's name.
pub open spec fn cast_back_expr_spec(name: Seq<char>, dtype: DataType, cat: TypeCategory) -> Expr {
    alias_of(
        match reverse_for(cat) {
            ReverseCast::RestoreOriginal => cast_to_of(col_of(name), dtype),
            ReverseCast::CountAsInt32 => cast_int32_of(col_of(name)),
            ReverseCast::Keep => col_of(name),
        },
        name,
    )
}

/// Builds the reverse-casting projection of one column.
pub fn cast_back_expr(c: &ColumnSpec) -> (e: Expr)
    ensures
        e == cast_back_expr_spec(c.name@, c.dtype, c.category),
        expr_name(e) == c.name@,
        is_alias(e),
{
    let base = match c.category {
        TypeCategory::Temporal => expr_cast_to(expr_col(c.name.as_str()), dt_clone(&c.dtype)),
        TypeCategory::List => expr_cast_int32(expr_col(c.name.as_str())),
        _ => expr_col(c.name.as_str()),
    };
    expr_alias(base, c.name.as_str())
}

} // verus!
