use datadescribe::method::sort_methods;
use datadescribe::{default_methods, percent_fraction, str_lex_le, u8_decimal, DescribeMethod};

#[test]
fn labels_of_fixed_methods() {
    assert_eq!(DescribeMethod::Total.label(), "total");
    assert_eq!(DescribeMethod::NullTotal.label(), "null_total");
    assert_eq!(DescribeMethod::Mean.label(), "mean");
    assert_eq!(DescribeMethod::Stddev.label(), "stddev");
    assert_eq!(DescribeMethod::Min.label(), "min");
    assert_eq!(DescribeMethod::Max.label(), "max");
    assert_eq!(DescribeMethod::Median.label(), "median");
}

#[test]
fn percentile_labels_carry_the_level() {
    assert_eq!(DescribeMethod::Percentile(25).label(), "percentile_25");
    assert_eq!(DescribeMethod::Percentile(50).label(), "percentile_50");
    assert_eq!(DescribeMethod::Percentile(75).label(), "percentile_75");
    assert_eq!(DescribeMethod::Percentile(5).label(), "percentile_5");
    assert_eq!(DescribeMethod::Percentile(100).label(), "percentile_100");
}

#[test]
fn decimal_rendering() {
    assert_eq!(u8_decimal(0), "0");
    assert_eq!(u8_decimal(7), "7");
    assert_eq!(u8_decimal(42), "42");
    assert_eq!(u8_decimal(100), "100");
    assert_eq!(u8_decimal(255), "255");
}

#[test]
fn fraction_rendering() {
    assert_eq!(percent_fraction(100), "1");
    assert_eq!(percent_fraction(50), "0.5");
    assert_eq!(percent_fraction(25), "0.25");
    assert_eq!(percent_fraction(75), "0.75");
    assert_eq!(percent_fraction(5), "0.05");
    assert_eq!(percent_fraction(99), "0.99");
}

#[test]
fn lexicographic_compare() {
    assert!(str_lex_le("max", "mean"));
    assert!(str_lex_le("mean", "median"));
    assert!(str_lex_le("median", "min"));
    assert!(str_lex_le("percentile_100", "percentile_25"));
    assert!(str_lex_le("percentile_5", "percentile_50"));
    assert!(!str_lex_le("total", "stddev"));
    assert!(str_lex_le("", "max"));
    assert!(str_lex_le("max", "max"));
}

#[test]
fn default_registry_sorts_by_label() {
    let sorted = sort_methods(&default_methods());
    let labels: Vec<String> = sorted.iter().map(|m| m.label()).collect();
    assert_eq!(
        labels,
        vec![
            "max",
            "mean",
            "median",
            "min",
            "null_total",
            "percentile_25",
            "percentile_50",
            "percentile_75",
            "stddev",
            "total",
        ]
    );
}
