//! The catalog of statistics and the order of the final report.
//!
//! Each statistic kind carries a stable textual label; the final report has
//! one row per statistic, and its rows are ordered by that label, ascending
//! and lexicographic.  The ordering itself is computed and proved here: a
//! verified sort of the method list by label.

use vstd::prelude::*;
use vstd::multiset::Multiset;
use vstd::string::StringExecFns;
use crate::text::{dec_spec, u8_decimal};

verus! {

/// One statistic to compute for every column.  A percentile level is given
/// in percent and must lie in `1 ..= 100`.
#[derive(Clone, Copy, Debug, PartialEq, Eq, Structural)]
pub enum DescribeMethod {
    Total,
    NullTotal,
    Mean,
    Stddev,
    Min,
    Max,
    Median,
    Percentile(u8),
}

/// A percentile level must lie in `1 ..= 100`; the other kinds carry
/// nothing to restrict.
pub open spec fn method_valid(m: DescribeMethod) -> bool {
    m matches DescribeMethod::Percentile(p) ==> 1 <= p <= 100
}

pub open spec fn methods_valid(ms: Seq<DescribeMethod>) -> bool {
    forall|i: int| 0 <= i < ms.len() ==> method_valid(#[trigger] ms[i])
}

/// The display label of a statistic, the row identifier of the report.
pub open spec fn label_spec(m: DescribeMethod) -> Seq<char> {
    match m {
        DescribeMethod::Total => "total"@,
        DescribeMethod::NullTotal => "null_total"@,
        DescribeMethod::Mean => "mean"@,
        DescribeMethod::Stddev => "stddev"@,
        DescribeMethod::Min => "min"@,
        DescribeMethod::Max => "max"@,
        DescribeMethod::Median => "median"@,
        DescribeMethod::Percentile(p) => "percentile_"@ + dec_spec(p as nat),
    }
}

/// Whether a statistic's result row covers every column of its input, or
/// only the numeric ones.
pub open spec fn covers_all_columns(m: DescribeMethod) -> bool {
    m is Total || m is NullTotal
}

impl DescribeMethod {
    /// The display label of this statistic.
    pub fn label(&self) -> (r: String)
        ensures
            r@ == label_spec(*self),
    {
        match self {
            DescribeMethod::Total => String::from_str("total"),
            DescribeMethod::NullTotal => String::from_str("null_total"),
            DescribeMethod::Mean => String::from_str("mean"),
            DescribeMethod::Stddev => String::from_str("stddev"),
            DescribeMethod::Min => String::from_str("min"),
            DescribeMethod::Max => String::from_str("max"),
            DescribeMethod::Median => String::from_str("median"),
            DescribeMethod::Percentile(p) => {
                let mut s = String::from_str("percentile_");
                let digits = u8_decimal(*p);
                s.append(digits.as_str());
                s
            },
        }
    }
}

/// The fixed registry: every statistic the default describer computes, in
/// declaration order.
pub open spec fn default_methods_spec() -> Seq<DescribeMethod> {
    seq![
        DescribeMethod::Total,
        DescribeMethod::NullTotal,
        DescribeMethod::Mean,
        DescribeMethod::Stddev,
        DescribeMethod::Min,
        DescribeMethod::Max,
        DescribeMethod::Median,
        DescribeMethod::Percentile(25),
        DescribeMethod::Percentile(50),
        DescribeMethod::Percentile(75),
    ]
}

/// Builds the default method registry.
pub fn default_methods() -> (r: Vec<DescribeMethod>)
    ensures
        r@ == default_methods_spec(),
        methods_valid(r@),
{
    let mut v: Vec<DescribeMethod> = Vec::new();
    v.push(DescribeMethod::Total);
    v.push(DescribeMethod::NullTotal);
    v.push(DescribeMethod::Mean);
    v.push(DescribeMethod::Stddev);
    v.push(DescribeMethod::Min);
    v.push(DescribeMethod::Max);
    v.push(DescribeMethod::Median);
    v.push(DescribeMethod::Percentile(25));
    v.push(DescribeMethod::Percentile(50));
    v.push(DescribeMethod::Percentile(75));
    proof {
        assert(v@ =~= default_methods_spec());
    }
    v
}

/// Lexicographic order on character sequences, by code point.
pub open spec fn lex_le(a: Seq<char>, b: Seq<char>) -> bool
    decreases a.len(),
{
    if a.len() == 0 {
        true
    } else if b.len() == 0 {
        false
    } else if (a[0] as u32) < (b[0] as u32) {
        true
    } else if (b[0] as u32) < (a[0] as u32) {
        false
    } else {
        lex_le(a.drop_first(), b.drop_first())
    }
}

/// The lexicographic order is total.
pub proof fn lemma_lex_total(a: Seq<char>, b: Seq<char>)
    ensures
        lex_le(a, b) || lex_le(b, a),
    decreases a.len(),
{
    if a.len() == 0 || b.len() == 0 {
    } else if (a[0] as u32) < (b[0] as u32) || (b[0] as u32) < (a[0] as u32) {
    } else {
        lemma_lex_total(a.drop_first(), b.drop_first());
    }
}

/// The lexicographic order is transitive.
pub proof fn lemma_lex_trans(a: Seq<char>, b: Seq<char>, c: Seq<char>)
    requires
        lex_le(a, b),
        lex_le(b, c),
    ensures
        lex_le(a, c),
    decreases a.len(),
{
    if a.len() == 0 {
    } else if b.len() == 0 || c.len() == 0 {
    } else {
        if (a[0] as u32) < (b[0] as u32) {
            assert((b[0] as u32) <= (c[0] as u32));
        } else {
            assert((a[0] as u32) == (b[0] as u32));
            if (b[0] as u32) < (c[0] as u32) {
            } else {
                assert((b[0] as u32) == (c[0] as u32));
                lemma_lex_trans(a.drop_first(), b.drop_first(), c.drop_first());
            }
        }
    }
}

/// Compares two strings in lexicographic order by code point.
pub fn str_lex_le(a: &str, b: &str) -> (r: bool)
    ensures
        r == lex_le(a@, b@),
{
    let alen = a.unicode_len();
    let blen = b.unicode_len();
    let mut i: usize = 0;
    proof {
        assert(a@.skip(0) =~= a@);
        assert(b@.skip(0) =~= b@);
    }
    loop
        invariant
            i <= alen,
            i <= blen,
            alen == a@.len(),
            blen == b@.len(),
            lex_le(a@, b@) == lex_le(a@.skip(i as int), b@.skip(i as int)),
        decreases alen - i,
    {
        if i == alen {
            proof {
                assert(a@.skip(i as int).len() == 0);
            }
            return true;
        }
        if i == blen {
            proof {
                assert(b@.skip(i as int).len() == 0);
                assert(a@.skip(i as int).len() > 0);
            }
            return false;
        }
        let ca = a.get_char(i);
        let cb = b.get_char(i);
        proof {
            let sa = a@.skip(i as int);
            let sb = b@.skip(i as int);
            assert(sa[0] == a@[i as int]);
            assert(sb[0] == b@[i as int]);
            assert(sa.drop_first() =~= a@.skip(i as int + 1));
            assert(sb.drop_first() =~= b@.skip(i as int + 1));
        }
        if (ca as u32) < (cb as u32) {
            return true;
        }
        if (cb as u32) < (ca as u32) {
            return false;
        }
        i = i + 1;
    }
}

/// The labels of a method list, in order.
pub open spec fn labels_of(ms: Seq<DescribeMethod>) -> Seq<Seq<char>> {
    ms.map_values(|mm: DescribeMethod| label_spec(mm))
}

/// Whether the methods' labels ascend lexicographically — the order the
/// final report's rows are in.
pub open spec fn labels_sorted(ms: Seq<DescribeMethod>) -> bool {
    forall|i: int, j: int|
        0 <= i < j < ms.len() ==> lex_le(
            label_spec(#[trigger] ms[i]),
            label_spec(#[trigger] ms[j]),
        )
}

/// Sorts methods by label, ascending and lexicographic.  The result is a
/// permutation of the input: same methods, same multiplicities.
pub fn sort_methods(ms: &Vec<DescribeMethod>) -> (r: Vec<DescribeMethod>)
    ensures
        labels_sorted(r@),
        r@.to_multiset() == ms@.to_multiset(),
        r@.len() == ms@.len(),
{
    broadcast use vstd::seq_lib::group_to_multiset_ensures;

    let mut src: Vec<DescribeMethod> = Vec::new();
    let mut k: usize = 0;
    while k < ms.len()
        invariant
            k <= ms@.len(),
            src@ == ms@.take(k as int),
        decreases ms@.len() - k,
    {
        src.push(ms[k]);
        proof {
            assert(src@ =~= ms@.take(k as int + 1));
        }
        k = k + 1;
    }
    proof {
        assert(src@ =~= ms@);
    }
    let mut out: Vec<DescribeMethod> = Vec::new();
    while src.len() > 0
        invariant
            out@.to_multiset().add(src@.to_multiset()) == ms@.to_multiset(),
            out@.len() + src@.len() == ms@.len(),
            labels_sorted(out@),
            forall|i: int, j: int|
                0 <= i < out@.len() && 0 <= j < src@.len() ==> lex_le(
                    label_spec(#[trigger] out@[i]),
                    label_spec(#[trigger] src@[j]),
                ),
        decreases src@.len(),
    {
        // find the index of a label-minimal element of src
        let mut best: usize = 0;
        let mut bi: usize = 1;
        proof {
            lemma_lex_total(label_spec(src@[0]), label_spec(src@[0]));
        }
        while bi < src.len()
            invariant
                best < src@.len(),
                bi <= src@.len(),
                forall|j: int|
                    0 <= j < bi ==> lex_le(
                        label_spec(src@[best as int]),
                        label_spec(#[trigger] src@[j]),
                    ),
            decreases src@.len() - bi,
        {
            let lb = src[best].label();
            let lc = src[bi].label();
            if !str_lex_le(lb.as_str(), lc.as_str()) {
                proof {
                    lemma_lex_total(label_spec(src@[best as int]), label_spec(src@[bi as int]));
                    let old_best = best as int;
                    assert forall|j: int| 0 <= j < bi + 1 implies lex_le(
                        label_spec(src@[bi as int]),
                        label_spec(#[trigger] src@[j]),
                    ) by {
                        if j < bi {
                            lemma_lex_trans(
                                label_spec(src@[bi as int]),
                                label_spec(src@[old_best]),
                                label_spec(src@[j]),
                            );
                        } else {
                            lemma_lex_total(label_spec(src@[bi as int]), label_spec(src@[bi as int]));
                        }
                    }
                }
                best = bi;
            }
            bi = bi + 1;
        }
        let ghost old_src = src@;
        let ghost old_out = out@;
        let x = src.remove(best);
        out.push(x);
        proof {
            assert(x == old_src[best as int]);
            // multiset bookkeeping
            vstd::seq_lib::to_multiset_remove(old_src, best as int);
            vstd::seq_lib::to_multiset_build(old_out, x);
            vstd::seq_lib::to_multiset_contains(old_src, x);
            assert(src@ =~= old_src.remove(best as int));
            assert(out@ == old_out.push(x));
            assert(old_src.contains(x)) by {
                assert(old_src[best as int] == x);
            }
            assert(old_src.to_multiset().count(x) > 0);
            assert(out@.to_multiset().add(src@.to_multiset()) =~= ms@.to_multiset());
            // every element of the new src was an element of the old src
            assert(forall|j: int|
                0 <= j < src@.len() ==> src@[j] == old_src[if j < best as int {
                    j
                } else {
                    j + 1
                }]);
            // sortedness of out: the new last element is above everything
            assert forall|i: int, j: int| 0 <= i < j < out@.len() implies lex_le(
                label_spec(#[trigger] out@[i]),
                label_spec(#[trigger] out@[j]),
            ) by {
                if j == out@.len() - 1 {
                    assert(out@[i] == old_out[i]);
                    assert(out@[j] == x);
                } else {
                    assert(out@[i] == old_out[i] && out@[j] == old_out[j]);
                }
            }
            // everything in out is below everything left in src
            assert forall|i: int, j: int|
                0 <= i < out@.len() && 0 <= j < src@.len() implies lex_le(
                label_spec(#[trigger] out@[i]),
                label_spec(#[trigger] src@[j]),
            ) by {
                if i < out@.len() - 1 {
                    assert(out@[i] == old_out[i]);
                } else {
                    assert(out@[i] == x);
                }
            }
        }
    }
    proof {
        vstd::seq_lib::to_multiset_len(src@);
        vstd::multiset::lemma_multiset_empty_len(src@.to_multiset());
        assert(src@.to_multiset() =~= Multiset::<DescribeMethod>::empty());
        assert(out@.to_multiset() =~= ms@.to_multiset());
    }
    out
}

} // verus!
