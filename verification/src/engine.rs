//! The trusted boundary to the DataFusion query engine.
//!
//! Everything the library knows about the engine is stated here.  A
//! `DataFrame` is modeled by the sequence of its unqualified column names
//! (`df_names`), the number of rows its plan denotes (`df_nrows`), the
//! declared type of each column (`column_type`) and the contents of its
//! `describe` label column (`df_labels`).  Plan building is a pure
//! function of its arguments, so each builder's result carries a name
//! (`col_of`, `avg_of`, `select_of`, ...) and each fallible builder's
//! success a named predicate (`select_ok`, ...): a caller's contract can
//! then say exactly which plan was built and when building succeeds.  Each
//! wrapper makes one engine call and states of these quantities only what
//! the engine's source shows.

use vstd::prelude::*;

use crate::method::lex_le;
use datafusion::dataframe::DataFrame;
use datafusion::error::DataFusionError;
use datafusion::logical_expr::{Expr, SortExpr};
use datafusion::arrow::datatypes::DataType;

verus! {

#[verifier::external_type_specification]
#[verifier::external_body]
pub struct ExDataFrame(DataFrame);

#[verifier::external_type_specification]
#[verifier::external_body]
pub struct ExExpr(Expr);

#[verifier::external_type_specification]
#[verifier::external_body]
pub struct ExSortExpr(SortExpr);

#[verifier::external_type_specification]
#[verifier::external_body]
pub struct ExDataType(DataType);

#[verifier::external_type_specification]
#[verifier::external_body]
pub struct ExDataFusionError(DataFusionError);

/// The unqualified column names of the table a frame denotes, in schema
/// order.
pub uninterp spec fn df_names(df: DataFrame) -> Seq<Seq<char>>;

/// The number of rows of the table a frame denotes.
pub uninterp spec fn df_nrows(df: DataFrame) -> nat;

/// The declared type of column `i` of a frame.
pub uninterp spec fn column_type(df: DataFrame, i: int) -> DataType;

/// The contents of a frame's `describe` column, row by row — meaningful
/// only where the frame has exactly one column of that name.
pub uninterp spec fn df_labels(df: DataFrame) -> Seq<Seq<char>>;

/// Whether a list of labels ascends lexicographically.
pub open spec fn labels_ascending(ls: Seq<Seq<char>>) -> bool {
    forall|i: int, j: int| 0 <= i < j < ls.len() ==> lex_le(ls[i], ls[j])
}

/// The name of the output column an expression produces.
pub uninterp spec fn expr_name(e: Expr) -> Seq<char>;

/// Whether an expression is an alias, whose output field is unqualified.
pub uninterp spec fn is_alias(e: Expr) -> bool;

/// The output column names of a list of expressions, in order.
pub open spec fn expr_names(es: Seq<Expr>) -> Seq<Seq<char>> {
    es.map_values(|e: Expr| expr_name(e))
}

/// Whether every expression of a list is an alias.
pub open spec fn all_aliases(es: Seq<Expr>) -> bool {
    forall|i: int| 0 <= i < es.len() ==> is_alias(#[trigger] es[i])
}

/// Whether a list of names is pairwise distinct.
pub open spec fn names_distinct(names: Seq<Seq<char>>) -> bool {
    forall|i: int, j: int| 0 <= i < j < names.len() ==> names[i] != names[j]
}

// Names for the engine's type predicates.
pub uninterp spec fn is_temporal_of(dt: DataType) -> bool;

pub uninterp spec fn is_numeric_of(dt: DataType) -> bool;

pub uninterp spec fn is_list_of(dt: DataType) -> bool;

/// Whether a type is the engine's 32-bit integer type.
pub uninterp spec fn is_int32_of(dt: DataType) -> bool;

// Names for the engine's expression constructors.
pub uninterp spec fn col_of(name: Seq<char>) -> Expr;

pub uninterp spec fn alias_of(e: Expr, name: Seq<char>) -> Expr;

pub uninterp spec fn cast_float64_of(e: Expr) -> Expr;

pub uninterp spec fn cast_int32_of(e: Expr) -> Expr;

pub uninterp spec fn cast_int64_of(e: Expr) -> Expr;

pub uninterp spec fn cast_utf8_of(e: Expr) -> Expr;

pub uninterp spec fn cast_to_of(e: Expr, dt: DataType) -> Expr;

pub uninterp spec fn is_null_of(e: Expr) -> Expr;

pub uninterp spec fn lit_str_of(s: Seq<char>) -> Expr;

pub uninterp spec fn lit_f64_of(s: Seq<char>) -> Expr;

pub uninterp spec fn sort_key_of(e: Expr, asc: bool, nulls_first: bool) -> SortExpr;

pub uninterp spec fn count_of(e: Expr) -> Expr;

pub uninterp spec fn sum_of(e: Expr) -> Expr;

pub uninterp spec fn avg_of(e: Expr) -> Expr;

pub uninterp spec fn stddev_of(e: Expr) -> Expr;

pub uninterp spec fn min_of(e: Expr) -> Expr;

pub uninterp spec fn max_of(e: Expr) -> Expr;

pub uninterp spec fn median_of(e: Expr) -> Expr;

pub uninterp spec fn approx_percentile_of(key: SortExpr, fraction: Expr) -> Expr;

pub uninterp spec fn array_length_of(e: Expr) -> Expr;

pub uninterp spec fn char_length_of(e: Expr) -> Expr;

// Names for the fallible plan builders: whether a build succeeds, and what
// frame it builds.  Plan building never touches the data, so both are
// functions of the arguments alone.
pub uninterp spec fn select_ok(df: DataFrame, exprs: Seq<Expr>) -> bool;

pub uninterp spec fn select_of(df: DataFrame, exprs: Seq<Expr>) -> DataFrame;

pub uninterp spec fn aggregate_ok(df: DataFrame, aggs: Seq<Expr>) -> bool;

pub uninterp spec fn aggregate_of(df: DataFrame, aggs: Seq<Expr>) -> DataFrame;

pub uninterp spec fn union_ok(a: DataFrame, b: DataFrame) -> bool;

pub uninterp spec fn union_of(a: DataFrame, b: DataFrame) -> DataFrame;

pub uninterp spec fn sort_ok(df: DataFrame, keys: Seq<SortExpr>) -> bool;

pub uninterp spec fn sort_of(df: DataFrame, keys: Seq<SortExpr>) -> DataFrame;

pub uninterp spec fn f64_literal_ok(s: Seq<char>) -> bool;

/// Relies on `Clone for DataFrame`: a frame is cloned by reference
/// (structural sharing of the plan), so the clone denotes the same table.
#[verifier::external_body]
pub(crate) fn df_clone(df: &DataFrame) -> (r: DataFrame)
    ensures
        r == *df,
{
    df.clone()
}

/// Relies on `DataFrame::select`: builds a projection with one output column
/// per expression, named by the expression's output name; a projection keeps
/// the row count.  Building is deterministic (`select_ok`, `select_of`).
/// When every expression is an alias, all output fields are unqualified, and
/// the engine's schema check rejects duplicates: on success the names are
/// pairwise distinct.  A cast expression's output column has the cast's
/// target type.  Where the first expression is a text literal aliased
/// `describe`, or passes a source's `describe` column through, the output's
/// `describe` column holds the literal in every row, or the source's
/// labels, respectively.
#[verifier::external_body]
pub(crate) fn df_select(df: DataFrame, exprs: Vec<Expr>) -> (r: Result<
    DataFrame,
    DataFusionError,
>)
    ensures
        r is Ok <==> select_ok(df, exprs@),
        r matches Ok(out) ==> out == select_of(df, exprs@) && df_names(out) == expr_names(exprs@)
            && df_nrows(out) == df_nrows(df),
        all_aliases(exprs@) ==> (r matches Ok(out) ==> names_distinct(df_names(out))),
        r matches Ok(out) ==> forall|i: int, e2: Expr, dt: DataType, n: Seq<char>|
            #![trigger exprs@[i], alias_of(cast_to_of(e2, dt), n)]
            0 <= i < exprs@.len() && exprs@[i] == alias_of(cast_to_of(e2, dt), n)
                ==> column_type(out, i) == dt,
        r matches Ok(out) ==> forall|i: int, e2: Expr, n: Seq<char>|
            #![trigger exprs@[i], alias_of(cast_int32_of(e2), n)]
            0 <= i < exprs@.len() && exprs@[i] == alias_of(cast_int32_of(e2), n)
                ==> is_int32_of(column_type(out, i)),
        r matches Ok(out) ==> forall|s: Seq<char>, n: Seq<char>|
            #![trigger alias_of(lit_str_of(s), n)]
            exprs@.len() > 0 && exprs@[0] == alias_of(lit_str_of(s), n) && n == "describe"@
                && names_distinct(df_names(out)) ==> df_labels(out) == Seq::new(
                df_nrows(df),
                |x: int| s,
            ),
        (exprs@.len() > 0 && exprs@[0] == alias_of(col_of("describe"@), "describe"@)
            && names_distinct(df_names(df)) && df_names(df).contains("describe"@)) ==> (
        r matches Ok(out) ==> (names_distinct(df_names(out)) ==> df_labels(out) == df_labels(
            df,
        ))),
{
    df.select(exprs)
}

/// Relies on `DataFrame::aggregate` with an empty group list: the whole
/// frame collapses into exactly one row, with one column per aggregate
/// expression, named by the expression's output name.  Building is
/// deterministic (`aggregate_ok`, `aggregate_of`).  (A hand-built plan
/// carrying a functional dependency with an empty source set would make the
/// engine add synthetic group columns; no engine-built frame carries one.)
#[verifier::external_body]
pub(crate) fn df_aggregate_all(df: DataFrame, aggs: Vec<Expr>) -> (r: Result<
    DataFrame,
    DataFusionError,
>)
    ensures
        r is Ok <==> aggregate_ok(df, aggs@),
        r matches Ok(out) ==> out == aggregate_of(df, aggs@) && df_names(out) == expr_names(
            aggs@,
        ) && df_nrows(out) == 1,
        all_aliases(aggs@) ==> (r matches Ok(out) ==> names_distinct(df_names(out))),
{
    df.aggregate(vec![], aggs)
}

/// Relies on `DataFrame::union`: a positional union that keeps duplicate
/// rows.  The output schema takes the column names of the left frame; a
/// repeated name in the left frame would be renamed in the output, so the
/// name clause holds only for a left frame with pairwise distinct names.
/// The output's rows are the left frame's followed by the right frame's, so
/// a shared `describe` column concatenates.  Building is deterministic
/// (`union_ok`, `union_of`).
#[verifier::external_body]
pub(crate) fn df_union(a: DataFrame, b: DataFrame) -> (r: Result<DataFrame, DataFusionError>)
    ensures
        r is Ok <==> union_ok(a, b),
        r matches Ok(out) ==> out == union_of(a, b) && df_nrows(out) == df_nrows(a) + df_nrows(b),
        names_distinct(df_names(a)) ==> (r matches Ok(out) ==> df_names(out) == df_names(a)),
        (names_distinct(df_names(a)) && df_names(a).contains("describe"@) && df_names(b)
            == df_names(a)) ==> (r matches Ok(out) ==> df_labels(out) == df_labels(a) + df_labels(
            b,
        )),
{
    a.union(b)
}

/// Relies on `DataFrame::sort`: reorders the rows by the given keys and
/// keeps the schema — names and column types — and the row count.  An
/// ascending sort by the `describe` column orders the rows by that text
/// column, which the engine compares bytewise — code-point order for UTF-8.
/// Building is deterministic (`sort_ok`, `sort_of`).
#[verifier::external_body]
pub(crate) fn df_sort(df: DataFrame, keys: Vec<SortExpr>) -> (r: Result<
    DataFrame,
    DataFusionError,
>)
    ensures
        r is Ok <==> sort_ok(df, keys@),
        r matches Ok(out) ==> out == sort_of(df, keys@) && df_names(out) == df_names(df)
            && df_nrows(out) == df_nrows(df),
        r matches Ok(out) ==> forall|i: int|
            0 <= i < df_names(df).len() ==> #[trigger] column_type(out, i) == column_type(df, i),
        (keys@ == seq![sort_key_of(col_of("describe"@), true, false)] && names_distinct(
            df_names(df),
        ) && df_names(df).contains("describe"@)) ==> (r matches Ok(out) ==> labels_ascending(
            df_labels(out),
        ) && df_labels(out).to_multiset() == df_labels(df).to_multiset()),
{
    df.sort(keys)
}

/// Relies on `DataFrame::schema` and `DFSchema::fields`: the column count.
#[verifier::external_body]
pub(crate) fn df_num_columns(df: &DataFrame) -> (n: usize)
    ensures
        n == df_names(*df).len(),
{
    df.schema().fields().len()
}

/// Relies on `DFSchema::field` and `Field::name`: the name of column `i`.
#[verifier::external_body]
pub(crate) fn df_column_name(df: &DataFrame, i: usize) -> (r: String)
    requires
        i < df_names(*df).len(),
    ensures
        r@ == df_names(*df)[i as int],
{
    df.schema().field(i).name().to_string()
}

/// Relies on `DFSchema::field` and `Field::data_type`: the declared type of
/// column `i`.
#[verifier::external_body]
pub(crate) fn df_column_type(df: &DataFrame, i: usize) -> (r: DataType)
    requires
        i < df_names(*df).len(),
    ensures
        r == column_type(*df, i as int),
{
    df.schema().field(i).data_type().clone()
}

/// Relies on `DataType::is_temporal`.
#[verifier::external_body]
pub(crate) fn dt_is_temporal(dt: &DataType) -> (r: bool)
    ensures
        r == is_temporal_of(*dt),
{
    dt.is_temporal()
}

/// Relies on `DataType::is_numeric`.
#[verifier::external_body]
pub(crate) fn dt_is_numeric(dt: &DataType) -> (r: bool)
    ensures
        r == is_numeric_of(*dt),
{
    dt.is_numeric()
}

/// Tells the list variants of the engine's `DataType` enum apart from the
/// rest: `List`, `LargeList` and `FixedSizeList` hold list-valued columns.
#[verifier::external_body]
pub(crate) fn dt_is_list(dt: &DataType) -> (r: bool)
    ensures
        r == is_list_of(*dt),
{
    matches!(dt, DataType::List(_) | DataType::LargeList(_) | DataType::FixedSizeList(_, _))
}

/// Relies on `Clone for DataType`: the clone is the same type value.
#[verifier::external_body]
pub(crate) fn dt_clone(dt: &DataType) -> (r: DataType)
    ensures
        r == *dt,
{
    dt.clone()
}

/// Relies on `col`: refers to the named input column.
#[verifier::external_body]
pub(crate) fn expr_col(name: &str) -> (r: Expr)
    ensures
        r == col_of(name@),
{
    datafusion::logical_expr::col(name)
}

/// Relies on `Expr::alias`: the aliased expression produces an unqualified
/// output column named exactly `name`.
#[verifier::external_body]
pub(crate) fn expr_alias(e: Expr, name: &str) -> (r: Expr)
    ensures
        r == alias_of(e, name@),
        expr_name(r) == name@,
        is_alias(r),
{
    e.alias(name)
}

/// Relies on `cast` to `DataType::Float64`.
#[verifier::external_body]
pub(crate) fn expr_cast_float64(e: Expr) -> (r: Expr)
    ensures
        r == cast_float64_of(e),
{
    datafusion::logical_expr::cast(e, DataType::Float64)
}

/// Relies on `cast` to `DataType::Int32`.
#[verifier::external_body]
pub(crate) fn expr_cast_int32(e: Expr) -> (r: Expr)
    ensures
        r == cast_int32_of(e),
{
    datafusion::logical_expr::cast(e, DataType::Int32)
}

/// Relies on `cast` to `DataType::Int64`.
#[verifier::external_body]
pub(crate) fn expr_cast_int64(e: Expr) -> (r: Expr)
    ensures
        r == cast_int64_of(e),
{
    datafusion::logical_expr::cast(e, DataType::Int64)
}

/// Relies on `cast` to `DataType::Utf8`.
#[verifier::external_body]
pub(crate) fn expr_cast_utf8(e: Expr) -> (r: Expr)
    ensures
        r == cast_utf8_of(e),
{
    datafusion::logical_expr::cast(e, DataType::Utf8)
}

/// Relies on `cast` to the given type.
#[verifier::external_body]
pub(crate) fn expr_cast_to(e: Expr, dt: DataType) -> (r: Expr)
    ensures
        r == cast_to_of(e, dt),
{
    datafusion::logical_expr::cast(e, dt)
}

/// Relies on `is_null`: true exactly for null values.
#[verifier::external_body]
pub(crate) fn expr_is_null(e: Expr) -> (r: Expr)
    ensures
        r == is_null_of(e),
{
    datafusion::logical_expr::is_null(e)
}

/// Relies on `lit`: a constant text value.
#[verifier::external_body]
pub(crate) fn expr_lit_str(s: &str) -> (r: Expr)
    ensures
        r == lit_str_of(s@),
{
    datafusion::logical_expr::lit(s)
}

/// Relies on `ScalarValue::try_from_string` and `lit`: parses a decimal
/// numeral into a 64-bit float literal expression, or reports the engine's
/// parse error.  Parsing is deterministic (`f64_literal_ok`).
#[verifier::external_body]
pub(crate) fn expr_lit_f64_decimal(s: &str) -> (r: Result<Expr, DataFusionError>)
    ensures
        r is Ok <==> f64_literal_ok(s@),
        r matches Ok(e) ==> e == lit_f64_of(s@),
{
    match datafusion::scalar::ScalarValue::try_from_string(s.to_string(), &DataType::Float64) {
        Ok(v) => Ok(datafusion::logical_expr::lit(v)),
        Err(e) => Err(e),
    }
}

/// Relies on `Expr::sort`: a sort key over the expression, ascending when
/// `asc` holds, with nulls first when `nulls_first` holds.
#[verifier::external_body]
pub(crate) fn expr_sort_key(e: Expr, asc: bool, nulls_first: bool) -> (r: SortExpr)
    ensures
        r == sort_key_of(e, asc, nulls_first),
{
    e.sort(asc, nulls_first)
}

/// Relies on `count`: the number of non-null values of its argument.
#[verifier::external_body]
pub(crate) fn agg_count(e: Expr) -> (r: Expr)
    ensures
        r == count_of(e),
{
    datafusion::functions_aggregate::expr_fn::count(e)
}

/// Relies on `sum`: the sum of the non-null values of its argument.
#[verifier::external_body]
pub(crate) fn agg_sum(e: Expr) -> (r: Expr)
    ensures
        r == sum_of(e),
{
    datafusion::functions_aggregate::expr_fn::sum(e)
}

/// Relies on `avg`: the arithmetic mean of the non-null values.
#[verifier::external_body]
pub(crate) fn agg_avg(e: Expr) -> (r: Expr)
    ensures
        r == avg_of(e),
{
    datafusion::functions_aggregate::expr_fn::avg(e)
}

/// Relies on `stddev`: the sample standard deviation of the non-null values.
#[verifier::external_body]
pub(crate) fn agg_stddev(e: Expr) -> (r: Expr)
    ensures
        r == stddev_of(e),
{
    datafusion::functions_aggregate::expr_fn::stddev(e)
}

/// Relies on `min`: the smallest non-null value.
#[verifier::external_body]
pub(crate) fn agg_min(e: Expr) -> (r: Expr)
    ensures
        r == min_of(e),
{
    datafusion::functions_aggregate::expr_fn::min(e)
}

/// Relies on `max`: the largest non-null value.
#[verifier::external_body]
pub(crate) fn agg_max(e: Expr) -> (r: Expr)
    ensures
        r == max_of(e),
{
    datafusion::functions_aggregate::expr_fn::max(e)
}

/// Relies on `median`: the exact median of the non-null values.
#[verifier::external_body]
pub(crate) fn agg_median(e: Expr) -> (r: Expr)
    ensures
        r == median_of(e),
{
    datafusion::functions_aggregate::expr_fn::median(e)
}

/// Relies on `approx_percentile_cont`: the approximate percentile of the
/// sort key's values at the given fraction, computed by a t-digest sketch;
/// the result is only statistically close to the exact order statistic.
#[verifier::external_body]
pub(crate) fn agg_approx_percentile(key: SortExpr, fraction: Expr) -> (r: Expr)
    ensures
        r == approx_percentile_of(key, fraction),
{
    datafusion::functions_aggregate::expr_fn::approx_percentile_cont(key, fraction, None)
}

/// Relies on `length`: the character count of a string value.
#[verifier::external_body]
pub(crate) fn fn_char_length(e: Expr) -> (r: Expr)
    ensures
        r == char_length_of(e),
{
    datafusion::functions::expr_fn::length(e)
}

/// Relies on `array_length`: the element count of a list value, for
/// variable- and fixed-size lists alike.
#[verifier::external_body]
pub(crate) fn fn_array_length(e: Expr) -> (r: Expr)
    ensures
        r == array_length_of(e),
{
    datafusion::functions_nested::expr_fn::array_length(e)
}

} // verus!
