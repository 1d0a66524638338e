//! Number formatting with thousands groups.

use fraud_detection::format::fmt_number;

#[test]
fn small_numbers_are_ungrouped() {
    assert_eq!(fmt_number(0), "0");
    assert_eq!(fmt_number(7), "7");
    assert_eq!(fmt_number(42), "42");
    assert_eq!(fmt_number(999), "999");
}

#[test]
fn thousands_are_space_separated() {
    assert_eq!(fmt_number(1000), "1 000");
    assert_eq!(fmt_number(10_000), "10 000");
    assert_eq!(fmt_number(100_000), "100 000");
    assert_eq!(fmt_number(1_234_567), "1 234 567");
}

#[test]
fn zero_padding_inside_groups() {
    assert_eq!(fmt_number(1_000_000), "1 000 000");
    assert_eq!(fmt_number(1_002_003), "1 002 003");
    assert_eq!(fmt_number(20_000_040), "20 000 040");
}
