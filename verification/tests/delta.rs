use xerophi::delta::{apply_delta, DeltaError};

#[test]
fn delta_adds_subtracts_and_sets() {
    assert_eq!(apply_delta(3, "+5"), Ok(8));
    assert_eq!(apply_delta(8, "-2"), Ok(6));
    assert_eq!(apply_delta(6, "@10"), Ok(10));
    assert_eq!(apply_delta(-40, "@10"), Ok(10));
}

#[test]
fn delta_rejects_unknown_operator() {
    assert_eq!(apply_delta(3, "%3"), Err(DeltaError::InvalidOperator));
    assert_eq!(apply_delta(3, "53"), Err(DeltaError::InvalidOperator));
}

#[test]
fn delta_rejects_malformed_integer() {
    assert_eq!(apply_delta(3, "+abc"), Err(DeltaError::InvalidCount));
    assert_eq!(apply_delta(3, "+"), Err(DeltaError::InvalidCount));
    assert_eq!(apply_delta(3, ""), Err(DeltaError::InvalidCount));
    assert_eq!(apply_delta(3, "+1 "), Err(DeltaError::InvalidCount));
    assert_eq!(apply_delta(3, "+-"), Err(DeltaError::InvalidCount));
    assert_eq!(apply_delta(3, "%abc"), Err(DeltaError::InvalidCount));
}

#[test]
fn delta_reads_signed_integers() {
    assert_eq!(apply_delta(3, "+-5"), Ok(-2));
    assert_eq!(apply_delta(3, "-+5"), Ok(-2));
    assert_eq!(apply_delta(3, "--5"), Ok(8));
    assert_eq!(apply_delta(3, "@-7"), Ok(-7));
    assert_eq!(apply_delta(3, "+0005"), Ok(8));
    assert_eq!(apply_delta(0, "@2147483647"), Ok(2147483647));
    assert_eq!(apply_delta(0, "@-2147483648"), Ok(-2147483648));
    assert_eq!(apply_delta(0, "@2147483648"), Err(DeltaError::InvalidCount));
    assert_eq!(apply_delta(0, "@-2147483649"), Err(DeltaError::InvalidCount));
    assert_eq!(apply_delta(0, "@00000000000000000000000000012"), Ok(12));
}

#[test]
fn delta_keeps_the_counter_in_range() {
    assert_eq!(apply_delta(2147483647, "+1"), Err(DeltaError::InvalidCount));
    assert_eq!(apply_delta(-2147483648, "-1"), Err(DeltaError::InvalidCount));
    assert_eq!(apply_delta(2147483646, "+1"), Ok(2147483647));
    assert_eq!(apply_delta(-1, "--2147483648"), Ok(2147483647));
}

#[test]
fn delta_takes_the_first_character_as_operator() {
    assert_eq!(apply_delta(3, "\u{e9}5"), Err(DeltaError::InvalidOperator));
}
