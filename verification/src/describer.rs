//! The describe pipeline: aggregation, assembly and reverse casting.
//!
//! A `DataFrameDescriber` owns the input dataset, its normalized twin and
//! the list of statistics to compute.  `describe` runs one zero-group
//! aggregation per statistic, prefixes each single-row result with the
//! statistic's label, unions the rows and casts the report back toward the
//! input's column types.  The union's reconciliation policy is explicit:
//! every statistic's row must cover every column (which the normalizer
//! guarantees by making every column numeric); a row with any other column
//! set is rejected as a schema mismatch before the union is attempted,
//! never null-filled silently.
//!
//! Plan building is deterministic, so the contracts pin both directions:
//! which expressions each stage hands to the engine, and that each stage
//! fails exactly when the engine's named build predicate does.

use vstd::prelude::*;
use vstd::string::StringExecFns;
use datafusion::dataframe::DataFrame;
use datafusion::error::DataFusionError;
use datafusion::logical_expr::{Expr, SortExpr};
use crate::engine::{
    aggregate_of, aggregate_ok, alias_of, approx_percentile_of, avg_of, cast_int32_of,
    cast_int64_of, cast_to_of, col_of, df_labels,
    column_type, count_of, df_aggregate_all, df_clone, df_column_name, df_column_type, df_names,
    df_nrows, df_num_columns, df_select, df_sort, df_union, dt_is_numeric, expr_alias,
    expr_cast_int64, expr_col, expr_is_null, expr_lit_f64_decimal, expr_lit_str, expr_names,
    expr_sort_key, f64_literal_ok, is_alias, is_int32_of, is_null_of, is_numeric_of,
    labels_ascending, lit_f64_of, lit_str_of, all_aliases,
    max_of, median_of, min_of, names_distinct, select_of, select_ok, sort_key_of, sort_of,
    sort_ok, stddev_of, sum_of, union_ok, agg_approx_percentile, agg_avg, agg_count, agg_max,
    agg_median, agg_min, agg_stddev, agg_sum,
};
use crate::method::{
    DescribeMethod, covers_all_columns, default_methods, default_methods_spec, label_spec,
    labels_of, method_valid, methods_valid, sort_methods,
};
use crate::schema::{
    ColumnSpec, cast_back_expr, cast_back_expr_spec, column_names, column_spec_wf,
    normalize_expr, normalized_expr_spec, column_category, read_columns,
};
use crate::text::{percent_fraction, percent_fraction_spec};

verus! {

/// Why a describe run failed, by pipeline stage, with the engine's own
/// error as the underlying cause where there is one.
#[derive(Debug)]
pub enum DescribeError {
    /// No statistics were configured.
    EmptyMethodList,
    /// The input's schema could not be normalized or projected.
    Schema(DataFusionError),
    /// An aggregate could not be built or executed.
    Aggregation(DataFusionError),
    /// A statistic's row did not cover the report's column set (no cause),
    /// or the union itself was rejected (the engine's cause).
    UnionSchemaMismatch(Option<DataFusionError>),
    /// A report column could not be cast back, or the final sort failed.
    Cast(DataFusionError),
}

/// The names that survive a filter: `keep[i]` tells whether `names[i]`
/// stays, order preserved.
pub open spec fn mask_filter(names: Seq<Seq<char>>, keep: Seq<bool>) -> Seq<Seq<char>>
    decreases names.len(),
{
    if names.len() == 0 || keep.len() == 0 {
        Seq::empty()
    } else {
        (if keep[0] {
            seq![names[0]]
        } else {
            Seq::empty()
        }) + mask_filter(names.drop_first(), keep.drop_first())
    }
}

proof fn lemma_mask_filter_push(names: Seq<Seq<char>>, keep: Seq<bool>, x: Seq<char>, b: bool)
    requires
        names.len() == keep.len(),
    ensures
        mask_filter(names.push(x), keep.push(b)) == mask_filter(names, keep) + (if b {
            seq![x]
        } else {
            Seq::<Seq<char>>::empty()
        }),
    decreases names.len(),
{
    if names.len() == 0 {
        assert(names.push(x) =~= seq![x]);
        assert(keep.push(b) =~= seq![b]);
        assert(names.push(x).drop_first() =~= Seq::<Seq<char>>::empty());
        assert(keep.push(b).drop_first() =~= Seq::<bool>::empty());
        assert(mask_filter(Seq::<Seq<char>>::empty(), Seq::<bool>::empty())
            =~= Seq::<Seq<char>>::empty());
        assert(names.push(x)[0] == x);
        assert(keep.push(b)[0] == b);
        assert(mask_filter(names.push(x), keep.push(b)) =~= mask_filter(names, keep) + (if b {
            seq![x]
        } else {
            Seq::<Seq<char>>::empty()
        }));
    } else {
        assert(names.push(x).drop_first() =~= names.drop_first().push(x));
        assert(keep.push(b).drop_first() =~= keep.drop_first().push(b));
        lemma_mask_filter_push(names.drop_first(), keep.drop_first(), x, b);
        assert(mask_filter(names.push(x), keep.push(b)) =~= mask_filter(names, keep) + (if b {
            seq![x]
        } else {
            Seq::<Seq<char>>::empty()
        }));
    }
}

/// The views of a list of strings, in order.
pub open spec fn string_views(ss: Seq<String>) -> Seq<Seq<char>> {
    ss.map_values(|s: String| s@)
}

/// The aggregate expression one statistic builds for one column.
pub open spec fn statistic_expr_spec(m: DescribeMethod, name: Seq<char>) -> Expr {
    alias_of(
        match m {
            DescribeMethod::Total => count_of(col_of(name)),
            DescribeMethod::NullTotal => sum_of(cast_int64_of(is_null_of(col_of(name)))),
            DescribeMethod::Mean => avg_of(col_of(name)),
            DescribeMethod::Stddev => stddev_of(col_of(name)),
            DescribeMethod::Min => min_of(col_of(name)),
            DescribeMethod::Max => max_of(col_of(name)),
            DescribeMethod::Median => median_of(col_of(name)),
            DescribeMethod::Percentile(p) => approx_percentile_of(
                sort_key_of(col_of(name), true, false),
                lit_f64_of(percent_fraction_spec(p)),
            ),
        },
        name,
    )
}

/// Which columns a statistic's row covers: all of them for `Total` and
/// `NullTotal`, exactly the columns the engine deems numeric for the rest.
pub open spec fn stat_mask(df: DataFrame, m: DescribeMethod) -> Seq<bool> {
    Seq::new(
        df_names(df).len(),
        |i: int| covers_all_columns(m) || is_numeric_of(column_type(df, i)),
    )
}

/// The aggregate expressions a statistic hands to the engine, over the
/// first `n` columns of the frame.
pub open spec fn stat_exprs_upto(df: DataFrame, m: DescribeMethod, n: int) -> Seq<Expr>
    decreases n,
{
    if n <= 0 {
        Seq::empty()
    } else {
        stat_exprs_upto(df, m, n - 1) + (if stat_mask(df, m)[n - 1] {
            seq![statistic_expr_spec(m, df_names(df)[n - 1])]
        } else {
            Seq::<Expr>::empty()
        })
    }
}

/// The aggregate expressions a statistic hands to the engine.
pub open spec fn stat_exprs(df: DataFrame, m: DescribeMethod) -> Seq<Expr> {
    stat_exprs_upto(df, m, df_names(df).len() as int)
}

/// Whether the statistic's percentile literal is built at all: only a
/// percentile over at least one covered column needs one.
pub open spec fn literal_needed(df: DataFrame, m: DescribeMethod) -> bool {
    exists|i: int| 0 <= i < df_names(df).len() && stat_mask(df, m)[i]
}

/// When building a statistic's aggregation succeeds: its percentile
/// literal parses where one is needed, and the engine accepts the
/// aggregate plan.
pub open spec fn statistic_build_ok(df: DataFrame, m: DescribeMethod) -> bool {
    &&& (m matches DescribeMethod::Percentile(p) ==> (literal_needed(df, m)
        ==> f64_literal_ok(percent_fraction_spec(p))))
    &&& aggregate_ok(df, stat_exprs(df, m))
}

/// The projection that prefixes a single-row result with its label.
pub open spec fn label_exprs_spec(names: Seq<Seq<char>>, label: Seq<char>) -> Seq<Expr> {
    seq![alias_of(lit_str_of(label), "describe"@)] + names.map_values(
        |n: Seq<char>| alias_of(col_of(n), n),
    )
}

/// When a statistic's whole stage succeeds: its aggregation builds and the
/// labeling projection over its row builds.
pub open spec fn statistic_stage_ok(t: DataFrame, m: DescribeMethod) -> bool {
    &&& statistic_build_ok(t, m)
    &&& select_ok(
        aggregate_of(t, stat_exprs(t, m)),
        label_exprs_spec(mask_filter(df_names(t), stat_mask(t, m)), label_spec(m)),
    )
}

/// Whether a statistic's row covers every column of the frame — the
/// assembler's reconciliation condition.
pub open spec fn row_covers(t: DataFrame, m: DescribeMethod) -> bool {
    mask_filter(df_names(t), stat_mask(t, m)) == df_names(t)
}

/// The reverse-casting projection of the whole report.
pub open spec fn cast_exprs_spec(cols: Seq<ColumnSpec>) -> Seq<Expr> {
    seq![alias_of(col_of("describe"@), "describe"@)] + cols.map_values(
        |c: ColumnSpec| cast_back_expr_spec(c.name@, c.dtype, c.category),
    )
}

/// The final sort: by the label column, ascending, nulls last.
pub open spec fn describe_sort_keys() -> Seq<SortExpr> {
    seq![sort_key_of(col_of("describe"@), true, false)]
}

/// When the reverse-casting stage succeeds on a report frame.
pub open spec fn cast_stage_ok(cols: Seq<ColumnSpec>, rep: DataFrame) -> bool {
    &&& select_ok(rep, cast_exprs_spec(cols))
    &&& sort_ok(select_of(rep, cast_exprs_spec(cols)), describe_sort_keys())
}

/// The normalizing projection of a whole frame, one expression per column,
/// each by the normalizer's rule table on the column's category.
pub open spec fn normalize_exprs_spec(df: DataFrame) -> Seq<Expr> {
    Seq::new(
        df_names(df).len(),
        |i: int| normalized_expr_spec(df_names(df)[i], column_category(df, i)),
    )
}

/// The aggregation executor: computes one statistic over a frame as a
/// single zero-group aggregate query, yielding exactly one row.  `Total`
/// and `NullTotal` rows cover every column of the frame; the parametric
/// statistics cover, in schema order, exactly the columns the engine deems
/// numeric.  The call succeeds exactly when the engine accepts the
/// statistic's aggregate plan (`statistic_build_ok`), and the row it
/// returns is that plan's frame.
pub fn statistic_row(df: &DataFrame, m: &DescribeMethod) -> (r: Result<DataFrame, DescribeError>)
    requires
        method_valid(*m),
    ensures
        r is Ok <==> statistic_build_ok(*df, *m),
        r matches Ok(out) ==> out == aggregate_of(*df, stat_exprs(*df, *m)),
        r matches Ok(out) ==> df_nrows(out) == 1,
        r matches Ok(out) ==> df_names(out) == mask_filter(df_names(*df), stat_mask(*df, *m)),
        covers_all_columns(*m) ==> (r matches Ok(out) ==> df_names(out) == df_names(*df)),
        r matches Ok(out) ==> names_distinct(df_names(out)),
        r matches Err(e) ==> e is Aggregation,
{
    let n = df_num_columns(df);
    let covers_all = match m {
        DescribeMethod::Total => true,
        DescribeMethod::NullTotal => true,
        _ => false,
    };
    proof {
        assert(covers_all == covers_all_columns(*m));
    }
    let mut aggs: Vec<Expr> = Vec::new();
    let ghost mut keep: Seq<bool> = Seq::empty();
    let mut i: usize = 0;
    proof {
        assert(keep =~= stat_mask(*df, *m).take(0));
        assert(mask_filter(df_names(*df).take(0), keep) =~= Seq::<Seq<char>>::empty());
        assert(expr_names(aggs@) =~= Seq::<Seq<char>>::empty());
    }
    while i < n
        invariant
            method_valid(*m),
            covers_all == covers_all_columns(*m),
            i <= n,
            n == df_names(*df).len(),
            keep == stat_mask(*df, *m).take(i as int),
            aggs@ == stat_exprs_upto(*df, *m, i as int),
            expr_names(aggs@) == mask_filter(df_names(*df).take(i as int), keep),
            covers_all ==> expr_names(aggs@) == df_names(*df).take(i as int),
            all_aliases(aggs@),
            *m matches DescribeMethod::Percentile(p) ==> ((exists|j: int|
                0 <= j < i && stat_mask(*df, *m)[j]) ==> f64_literal_ok(
                percent_fraction_spec(p),
            )),
        decreases n - i,
    {
        let name = df_column_name(df, i);
        let applies = if covers_all {
            true
        } else {
            dt_is_numeric(&df_column_type(df, i))
        };
        proof {
            assert(applies == stat_mask(*df, *m)[i as int]);
        }
        let ghost old_aggs = aggs@;
        let ghost old_keep = keep;
        if applies {
            let colref = expr_col(name.as_str());
            let agg = match m {
                DescribeMethod::Total => agg_count(colref),
                DescribeMethod::NullTotal => agg_sum(expr_cast_int64(expr_is_null(colref))),
                DescribeMethod::Mean => agg_avg(colref),
                DescribeMethod::Stddev => agg_stddev(colref),
                DescribeMethod::Min => agg_min(colref),
                DescribeMethod::Max => agg_max(colref),
                DescribeMethod::Median => agg_median(colref),
                DescribeMethod::Percentile(p) => {
                    let frac = percent_fraction(*p);
                    let level = match expr_lit_f64_decimal(frac.as_str()) {
                        Ok(l) => l,
                        Err(e) => {
                            proof {
                                assert(stat_mask(*df, *m)[i as int]);
                                assert(literal_needed(*df, *m));
                                assert(!statistic_build_ok(*df, *m));
                            }
                            return Err(DescribeError::Aggregation(e));
                        },
                    };
                    agg_approx_percentile(expr_sort_key(colref, true, false), level)
                },
            };
            aggs.push(expr_alias(agg, name.as_str()));
            proof {
                keep = keep.push(true);
                assert(aggs@.last() == statistic_expr_spec(*m, df_names(*df)[i as int]));
            }
        } else {
            proof {
                keep = keep.push(false);
            }
        }
        proof {
            let prefix = df_names(*df).take(i as int);
            lemma_mask_filter_push(prefix, old_keep, df_names(*df)[i as int], applies);
            assert(df_names(*df).take(i as int + 1) =~= prefix.push(df_names(*df)[i as int]));
            assert(keep =~= stat_mask(*df, *m).take(i as int + 1));
            assert(aggs@ =~= stat_exprs_upto(*df, *m, i as int + 1));
            if applies {
                assert(expr_names(aggs@) =~= expr_names(old_aggs).push(name@));
            }
            assert(expr_names(aggs@) =~= mask_filter(df_names(*df).take(i as int + 1), keep));
            if covers_all {
                assert(expr_names(aggs@) =~= df_names(*df).take(i as int + 1));
            }
        }
        i = i + 1;
    }
    proof {
        assert(df_names(*df).take(n as int) =~= df_names(*df));
        assert(keep =~= stat_mask(*df, *m));
        assert(aggs@ == stat_exprs(*df, *m));
    }
    match df_aggregate_all(df_clone(df), aggs) {
        Ok(out) => {
            proof {
                assert(df_names(out) == mask_filter(df_names(*df), stat_mask(*df, *m)));
                assert(statistic_build_ok(*df, *m));
            }
            Ok(out)
        },
        Err(e) => {
            proof {
                assert(!statistic_build_ok(*df, *m));
            }
            Err(DescribeError::Aggregation(e))
        },
    }
}

/// Prefixes a single-row statistic result with its label: the output's
/// first column is the textual `describe` column, the rest are the result's
/// columns, unchanged and in order.  Succeeds exactly when the engine
/// accepts the labeling projection; the output's names are then pairwise
/// distinct.
fn label_row(stat: DataFrame, label: &str) -> (r: Result<DataFrame, DescribeError>)
    ensures
        r is Ok <==> select_ok(stat, label_exprs_spec(df_names(stat), label@)),
        r matches Ok(out) ==> out == select_of(stat, label_exprs_spec(df_names(stat), label@)),
        r matches Ok(out) ==> df_names(out) == seq!["describe"@] + df_names(stat) && df_nrows(out)
            == df_nrows(stat),
        r matches Ok(out) ==> names_distinct(df_names(out)),
        r matches Ok(out) ==> df_labels(out).len() == df_nrows(stat) && (forall|x: int|
            0 <= x < df_labels(out).len() ==> #[trigger] df_labels(out)[x] == label@),
        r matches Err(e) ==> e is Aggregation,
{
    let n = df_num_columns(&stat);
    let mut exprs: Vec<Expr> = Vec::new();
    exprs.push(expr_alias(expr_lit_str(label), "describe"));
    proof {
        assert(exprs@ =~= label_exprs_spec(df_names(stat).take(0), label@));
        assert(expr_names(exprs@) =~= seq!["describe"@] + df_names(stat).take(0));
    }
    let mut i: usize = 0;
    while i < n
        invariant
            i <= n,
            n == df_names(stat).len(),
            exprs@ == label_exprs_spec(df_names(stat).take(i as int), label@),
            expr_names(exprs@) == seq!["describe"@] + df_names(stat).take(i as int),
            forall|j: int| 0 <= j < exprs@.len() ==> is_alias(#[trigger] exprs@[j]),
        decreases n - i,
    {
        let name = df_column_name(&stat, i);
        let ghost old_exprs = exprs@;
        exprs.push(expr_alias(expr_col(name.as_str()), name.as_str()));
        proof {
            assert(exprs@ =~= label_exprs_spec(df_names(stat).take(i as int + 1), label@));
            assert(expr_names(exprs@) =~= expr_names(old_exprs).push(name@));
            assert(expr_names(exprs@) =~= seq!["describe"@] + df_names(stat).take(i as int + 1));
        }
        i = i + 1;
    }
    proof {
        assert(df_names(stat).take(n as int) =~= df_names(stat));
    }
    match df_select(stat, exprs) {
        Ok(out) => {
            proof {
                assert(exprs@[0] == alias_of(lit_str_of(label@), "describe"@));
                assert(df_labels(out) == Seq::new(df_nrows(stat), |x: int| label@));
            }
            Ok(out)
        },
        Err(e) => Err(DescribeError::Aggregation(e)),
    }
}

/// Whether a frame's column names are exactly the expected ones, in order.
fn names_match(df: &DataFrame, expected: &Vec<String>) -> (b: bool)
    ensures
        b == (df_names(*df) == string_views(expected@)),
{
    let n = df_num_columns(df);
    if n != expected.len() {
        return false;
    }
    let mut i: usize = 0;
    while i < n
        invariant
            i <= n,
            n == df_names(*df).len(),
            n == expected@.len(),
            forall|j: int| 0 <= j < i ==> df_names(*df)[j] == string_views(expected@)[j],
        decreases n - i,
    {
        let name = df_column_name(df, i);
        if !name.eq(&expected[i]) {
            proof {
                assert(df_names(*df)[i as int] != string_views(expected@)[i as int]);
            }
            return false;
        }
        i = i + 1;
    }
    proof {
        assert(df_names(*df) =~= string_views(expected@));
    }
    true
}

/// Describes a dataset: holds the unmodified input, the normalized twin
/// used for every aggregation, the input's column descriptions and the
/// ordered list of statistics to compute.
#[derive(Debug)]
pub struct DataFrameDescriber {
    original: DataFrame,
    transformed: DataFrame,
    columns: Vec<ColumnSpec>,
    methods: Vec<DescribeMethod>,
}

impl DataFrameDescriber {
    /// The normalized twin has exactly the input's column names, the column
    /// descriptions match the input's schema, and every configured
    /// percentile level is in range.
    #[verifier::type_invariant]
    spec fn wf(self) -> bool {
        &&& df_names(self.transformed) == df_names(self.original)
        &&& self.columns@.len() == df_names(self.original).len()
        &&& forall|i: int|
            0 <= i < self.columns@.len() ==> column_spec_wf(
                self.original,
                i,
                #[trigger] self.columns@[i],
            )
        &&& column_names(self.columns@) == df_names(self.original)
        &&& methods_valid(self.methods@)
    }

    /// The statistics this describer computes, in registry order.
    pub closed spec fn spec_methods(self) -> Seq<DescribeMethod> {
        self.methods@
    }

    /// The unmodified input dataset.
    pub closed spec fn spec_original(self) -> DataFrame {
        self.original
    }

    /// The normalized twin every aggregation runs against.
    pub closed spec fn spec_transformed(self) -> DataFrame {
        self.transformed
    }

    /// When the reverse-casting stage succeeds on a report frame of this
    /// describer.
    pub closed spec fn spec_cast_ok(self, rep: DataFrame) -> bool {
        cast_stage_ok(self.columns@, rep)
    }

    /// The column names of a report on this input: the label column first,
    /// then the input's columns in their original order.
    pub open spec fn report_names(self) -> Seq<Seq<char>> {
        seq!["describe"@] + df_names(self.spec_original())
    }

    /// Builds a describer computing the given statistics: normalizes the
    /// input eagerly, by one projection per column, each chosen by the
    /// normalizer's rule table and aliased back to the column's name.
    /// Construction succeeds exactly when the engine accepts that
    /// projection, and the stored twin is its frame.
    pub fn try_with_methods(df: DataFrame, methods: Vec<DescribeMethod>) -> (r: Result<
        Self,
        DescribeError,
    >)
        requires
            methods_valid(methods@),
        ensures
            r is Ok <==> select_ok(df, normalize_exprs_spec(df)),
            r matches Ok(d) ==> d.spec_methods() == methods@ && d.spec_original() == df
                && d.spec_transformed() == select_of(df, normalize_exprs_spec(df)),
            r matches Err(e) ==> e is Schema,
    {
        let columns = read_columns(&df);
        let n = columns.len();
        let mut exprs: Vec<Expr> = Vec::new();
        proof {
            assert(exprs@ =~= normalize_exprs_spec(df).take(0));
            assert(expr_names(exprs@) =~= column_names(columns@).take(0));
        }
        let mut i: usize = 0;
        while i < n
            invariant
                i <= n,
                n == columns@.len(),
                n == df_names(df).len(),
                forall|j: int| 0 <= j < n ==> column_spec_wf(df, j, #[trigger] columns@[j]),
                exprs@ == normalize_exprs_spec(df).take(i as int),
                expr_names(exprs@) == column_names(columns@).take(i as int),
            decreases n - i,
        {
            let ghost old_exprs = exprs@;
            exprs.push(normalize_expr(&columns[i]));
            proof {
                assert(exprs@.last() == normalize_exprs_spec(df)[i as int]);
                assert(exprs@ =~= normalize_exprs_spec(df).take(i as int + 1));
                assert(expr_names(exprs@) =~= expr_names(old_exprs).push(
                    columns@[i as int].name@,
                ));
                assert(expr_names(exprs@) =~= column_names(columns@).take(i as int + 1));
            }
            i = i + 1;
        }
        proof {
            assert(normalize_exprs_spec(df).take(n as int) =~= normalize_exprs_spec(df));
            assert(column_names(columns@).take(n as int) =~= column_names(columns@));
        }
        let transformed = match df_select(df_clone(&df), exprs) {
            Ok(t) => t,
            Err(e) => {
                return Err(DescribeError::Schema(e));
            },
        };
        Ok(DataFrameDescriber { original: df, transformed, columns, methods })
    }

    /// Builds a describer computing the default statistics registry.
    pub fn try_new(df: DataFrame) -> (r: Result<Self, DescribeError>)
        ensures
            r is Ok <==> select_ok(df, normalize_exprs_spec(df)),
            r matches Ok(d) ==> d.spec_methods() == default_methods_spec() && d.spec_original()
                == df && d.spec_transformed() == select_of(df, normalize_exprs_spec(df)),
            r matches Err(e) ==> e is Schema,
    {
        Self::try_with_methods(df, default_methods())
    }

    /// Computes the report: one row per configured statistic, one column
    /// per input column behind the leading label column, rows ordered by
    /// label.  Fails exactly with `EmptyMethodList` when no statistic is
    /// configured; any stage error aborts the whole call, never yielding a
    /// partial report, and each error variant comes only from its own
    /// stage's failed build: an aggregation variant from a statistic whose
    /// plan the engine refused, a mismatch variant from a row that does not
    /// cover the report's columns or a refused union, a cast variant from a
    /// refused reverse-cast of an assembled report.
    pub fn describe(&self) -> (r: Result<DataFrame, DescribeError>)
        ensures
            (r matches Err(e) && e is EmptyMethodList) <==> self.spec_methods().len() == 0,
            r matches Ok(out) ==> df_names(out) == self.report_names(),
            r matches Ok(out) ==> df_nrows(out) == self.spec_methods().len(),
            r matches Err(e) ==> !(e is Schema),
            r matches Err(e) ==> (e is Aggregation ==> exists|k: int|
                0 <= k < self.spec_methods().len() && !statistic_stage_ok(
                    self.spec_transformed(),
                    #[trigger] self.spec_methods()[k],
                )),
            r matches Err(e) ==> (e matches DescribeError::UnionSchemaMismatch(None)
                ==> exists|k: int|
                0 <= k < self.spec_methods().len() && !row_covers(
                    self.spec_transformed(),
                    #[trigger] self.spec_methods()[k],
                )),
            r matches Err(e) ==> (e matches DescribeError::UnionSchemaMismatch(Some(_))
                ==> exists|a: DataFrame, b: DataFrame|
                df_names(a) == self.report_names() && df_names(b) == self.report_names()
                    && !union_ok(a, b)),
            r matches Err(e) ==> (e is Cast ==> exists|rep: DataFrame|
                df_names(rep) == self.report_names() && df_nrows(rep)
                    == self.spec_methods().len() && !self.spec_cast_ok(rep)),
            r matches Ok(out) ==> forall|k: int|
                0 <= k < df_names(self.spec_original()).len() && column_category(
                    self.spec_original(),
                    k,
                ) is Temporal ==> #[trigger] column_type(out, k + 1) == column_type(
                    self.spec_original(),
                    k,
                ),
            r matches Ok(out) ==> forall|k: int|
                0 <= k < df_names(self.spec_original()).len() && column_category(
                    self.spec_original(),
                    k,
                ) is List ==> is_int32_of(#[trigger] column_type(out, k + 1)),
            r matches Ok(out) ==> labels_ascending(df_labels(out)),
            r matches Ok(out) ==> exists|perm: Seq<DescribeMethod>|
                perm.to_multiset() == self.spec_methods().to_multiset() && df_labels(
                    out,
                ).to_multiset() == labels_of(perm).to_multiset(),
    {
        proof {
            use_type_invariant(&*self);
        }
        if self.methods.len() == 0 {
            return Err(DescribeError::EmptyMethodList);
        }
        let sorted = sort_methods(&self.methods);
        proof {
            assert forall|k: int| 0 <= k < sorted@.len() implies method_valid(
                #[trigger] sorted@[k],
            ) by {
                vstd::seq_lib::to_multiset_contains(sorted@, sorted@[k]);
                vstd::seq_lib::to_multiset_contains(self.methods@, sorted@[k]);
                assert(sorted@.contains(sorted@[k]));
                assert(self.methods@.contains(sorted@[k]));
            }
        }
        // the column set every statistic's row must cover
        let mut expected: Vec<String> = Vec::new();
        expected.push(String::from_str("describe"));
        let ncols = self.columns.len();
        proof {
            assert(string_views(expected@) =~= seq!["describe"@] + column_names(
                self.columns@,
            ).take(0));
        }
        let mut c: usize = 0;
        while c < ncols
            invariant
                c <= ncols,
                ncols == self.columns@.len(),
                string_views(expected@) == seq!["describe"@] + column_names(self.columns@).take(
                    c as int,
                ),
            decreases ncols - c,
        {
            let ghost old_expected = expected@;
            expected.push(self.columns[c].name.clone());
            proof {
                assert(string_views(expected@) =~= string_views(old_expected).push(
                    self.columns@[c as int].name@,
                ));
                assert(string_views(expected@) =~= seq!["describe"@] + column_names(
                    self.columns@,
                ).take(c as int + 1));
            }
            c = c + 1;
        }
        proof {
            assert(column_names(self.columns@).take(ncols as int) =~= column_names(self.columns@));
            assert(string_views(expected@) == self.report_names());
        }
        // one labeled single-row result per statistic, unioned in label order
        let mut acc: Option<DataFrame> = None;
        let mut idx: usize = 0;
        while idx < sorted.len()
            invariant
                idx <= sorted@.len(),
                sorted@.len() == self.spec_methods().len(),
                self.spec_methods().len() > 0,
                sorted@.to_multiset() == self.spec_methods().to_multiset(),
                forall|k: int| 0 <= k < sorted@.len() ==> method_valid(#[trigger] sorted@[k]),
                df_names(self.spec_transformed()) == df_names(self.spec_original()),
                string_views(expected@) == self.report_names(),
                (acc is Some) <==> idx > 0,
                acc matches Some(a) ==> df_names(a) == self.report_names() && df_nrows(a) == idx
                    && names_distinct(df_names(a)) && df_labels(a) == labels_of(
                    sorted@.take(idx as int),
                ),
            decreases sorted@.len() - idx,
        {
            let m = sorted[idx];
            proof {
                vstd::seq_lib::to_multiset_contains(sorted@, m);
                vstd::seq_lib::to_multiset_contains(self.methods@, m);
                assert(sorted@.contains(m));
                assert(self.methods@.contains(m));
            }
            let ghost mk = choose|k: int|
                0 <= k < self.methods@.len() && self.methods@[k] == m;
            let row = match statistic_row(&self.transformed, &m) {
                Ok(r) => r,
                Err(e) => {
                    proof {
                        assert(!statistic_stage_ok(self.spec_transformed(),
                            self.spec_methods()[mk]));
                    }
                    return Err(e);
                },
            };
            let lbl = m.label();
            let labeled = match label_row(row, lbl.as_str()) {
                Ok(l) => l,
                Err(e) => {
                    proof {
                        assert(!statistic_stage_ok(self.spec_transformed(),
                            self.spec_methods()[mk]));
                    }
                    return Err(e);
                },
            };
            if !names_match(&labeled, &expected) {
                proof {
                    let t = self.spec_transformed();
                    assert(df_names(labeled) == seq!["describe"@] + mask_filter(
                        df_names(t),
                        stat_mask(t, m),
                    ));
                    assert(self.report_names() == seq!["describe"@] + df_names(t));
                    if row_covers(t, m) {
                        assert(df_names(labeled) == self.report_names());
                    }
                    assert(!row_covers(t, self.spec_methods()[mk]));
                }
                return Err(DescribeError::UnionSchemaMismatch(None));
            }
            proof {
                assert(df_labels(labeled) =~= seq![label_spec(m)]);
                assert(self.report_names()[0] == "describe"@);
                assert(self.report_names().contains("describe"@));
            }
            acc = match acc {
                None => {
                    proof {
                        assert(df_labels(labeled) =~= labels_of(sorted@.take(idx as int + 1)));
                    }
                    Some(labeled)
                },
                Some(a) => match df_union(a, labeled) {
                    Ok(u) => {
                        proof {
                            assert(df_labels(u) == df_labels(a) + df_labels(labeled));
                            assert(df_labels(u) =~= labels_of(sorted@.take(idx as int + 1)));
                        }
                        Some(u)
                    },
                    Err(e) => {
                        proof {
                            assert(df_names(a) == self.report_names());
                            assert(df_names(labeled) == self.report_names());
                            assert(!union_ok(a, labeled));
                        }
                        return Err(DescribeError::UnionSchemaMismatch(Some(e)));
                    },
                },
            };
            idx = idx + 1;
        }
        let report = match acc {
            Some(a) => a,
            None => {
                proof {
                    assert(false);
                }
                return Err(DescribeError::EmptyMethodList);
            },
        };
        proof {
            assert(sorted@.take(sorted@.len() as int) =~= sorted@);
            assert(df_labels(report) == labels_of(sorted@));
            assert(self.report_names()[0] == "describe"@);
        }
        match self.cast_back(report) {
            Ok(out) => {
                proof {
                    assert(df_labels(out).to_multiset() == labels_of(sorted@).to_multiset());
                    assert(sorted@.to_multiset() == self.spec_methods().to_multiset());
                    assert forall|k: int|
                        0 <= k < df_names(self.spec_original()).len() && column_category(
                            self.spec_original(),
                            k,
                        ) is Temporal implies #[trigger] column_type(out, k + 1) == column_type(
                        self.spec_original(),
                        k,
                    ) by {
                        assert(column_spec_wf(self.original, k, self.columns@[k]));
                    }
                    assert forall|k: int|
                        0 <= k < df_names(self.spec_original()).len() && column_category(
                            self.spec_original(),
                            k,
                        ) is List implies is_int32_of(#[trigger] column_type(out, k + 1)) by {
                        assert(column_spec_wf(self.original, k, self.columns@[k]));
                    }
                }
                Ok(out)
            },
            Err(e) => {
                proof {
                    assert(df_names(report) == self.report_names());
                    assert(df_nrows(report) == self.spec_methods().len());
                    assert(!self.spec_cast_ok(report));
                }
                Err(e)
            },
        }
    }

    /// Maps the report's columns back toward the input's column types, by
    /// the caster's rule table per column, and sorts the rows by the label
    /// column, ascending.  Succeeds exactly when the engine accepts the
    /// reverse-cast projection and the sort.
    fn cast_back(&self, report: DataFrame) -> (r: Result<DataFrame, DescribeError>)
        requires
            df_names(report).len() > 0,
            df_names(report)[0] == "describe"@,
            names_distinct(df_names(report)),
        ensures
            r is Ok <==> cast_stage_ok(self.columns@, report),
            r matches Ok(out) ==> out == sort_of(
                select_of(report, cast_exprs_spec(self.columns@)),
                describe_sort_keys(),
            ),
            r matches Ok(out) ==> df_names(out) == seq!["describe"@] + column_names(self.columns@)
                && df_nrows(out) == df_nrows(report),
            r matches Ok(out) ==> forall|k: int|
                0 <= k < self.columns@.len() && (#[trigger] self.columns@[k]).category
                    is Temporal ==> column_type(out, k + 1) == self.columns@[k].dtype,
            r matches Ok(out) ==> forall|k: int|
                0 <= k < self.columns@.len() && (#[trigger] self.columns@[k]).category
                    is List ==> is_int32_of(column_type(out, k + 1)),
            r matches Ok(out) ==> labels_ascending(df_labels(out)) && df_labels(out).to_multiset()
                == df_labels(report).to_multiset(),
            r matches Err(e) ==> e is Cast,
    {
        let mut exprs: Vec<Expr> = Vec::new();
        exprs.push(expr_alias(expr_col("describe"), "describe"));
        let ncols = self.columns.len();
        proof {
            assert(exprs@ =~= cast_exprs_spec(self.columns@.take(0)));
            assert(expr_names(exprs@) =~= seq!["describe"@] + column_names(self.columns@).take(0));
        }
        let mut i: usize = 0;
        while i < ncols
            invariant
                i <= ncols,
                ncols == self.columns@.len(),
                exprs@ == cast_exprs_spec(self.columns@.take(i as int)),
                expr_names(exprs@) == seq!["describe"@] + column_names(self.columns@).take(
                    i as int,
                ),
                all_aliases(exprs@),
            decreases ncols - i,
        {
            let ghost old_exprs = exprs@;
            exprs.push(cast_back_expr(&self.columns[i]));
            proof {
                assert(self.columns@.take(i as int + 1) =~= self.columns@.take(i as int).push(
                    self.columns@[i as int],
                ));
                assert(exprs@ =~= cast_exprs_spec(self.columns@.take(i as int + 1)));
                assert(expr_names(exprs@) =~= expr_names(old_exprs).push(
                    self.columns@[i as int].name@,
                ));
                assert(expr_names(exprs@) =~= seq!["describe"@] + column_names(
                    self.columns@,
                ).take(i as int + 1));
            }
            i = i + 1;
        }
        proof {
            assert(self.columns@.take(ncols as int) =~= self.columns@);
            assert(column_names(self.columns@).take(ncols as int) =~= column_names(self.columns@));
        }
        let ghost all_exprs = exprs@;
        proof {
            assert(all_exprs[0] == alias_of(col_of("describe"@), "describe"@));
            assert(df_names(report).contains("describe"@));
        }
        let selected = match df_select(report, exprs) {
            Ok(s) => s,
            Err(e) => {
                return Err(DescribeError::Cast(e));
            },
        };
        proof {
            assert(df_labels(selected) == df_labels(report));
            assert(df_names(selected)[0] == "describe"@);
            assert(df_names(selected).contains("describe"@));
        }
        let mut keys: Vec<SortExpr> = Vec::new();
        keys.push(expr_sort_key(expr_col("describe"), true, false));
        proof {
            assert(keys@ =~= describe_sort_keys());
            assert(keys@ == seq![sort_key_of(col_of("describe"@), true, false)]);
        }
        match df_sort(selected, keys) {
            Ok(out) => {
                proof {
                    assert forall|k: int|
                        0 <= k < self.columns@.len() && (#[trigger] self.columns@[k]).category
                            is Temporal implies column_type(out, k + 1) == self.columns@[k].dtype
                    by {
                        let c = self.columns@[k];
                        assert(exprs@[k + 1] == cast_back_expr_spec(c.name@, c.dtype, c.category));
                        assert(exprs@[k + 1] == alias_of(
                            cast_to_of(col_of(c.name@), c.dtype),
                            c.name@,
                        ));
                        assert(column_type(selected, k + 1) == c.dtype);
                        assert(column_type(out, k + 1) == column_type(selected, k + 1));
                    }
                    assert forall|k: int|
                        0 <= k < self.columns@.len() && (#[trigger] self.columns@[k]).category
                            is List implies is_int32_of(column_type(out, k + 1))
                    by {
                        let c = self.columns@[k];
                        assert(exprs@[k + 1] == cast_back_expr_spec(c.name@, c.dtype, c.category));
                        assert(exprs@[k + 1] == alias_of(cast_int32_of(col_of(c.name@)), c.name@));
                        assert(is_int32_of(column_type(selected, k + 1)));
                        assert(column_type(out, k + 1) == column_type(selected, k + 1));
                    }
                }
                Ok(out)
            },
            Err(e) => Err(DescribeError::Cast(e)),
        }
    }
}

} // verus!
