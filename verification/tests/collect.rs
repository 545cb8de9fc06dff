//! Tests of the error-collecting combinator.

use record_builder::helpers::{collect_errors, str_eq};

#[test]
fn collect_errors_all_ok() {
    let results: Vec<Result<u32, String>> = vec![Ok(1), Ok(2), Ok(3)];
    assert_eq!(collect_errors(results), Ok(vec![1, 2, 3]));
}

#[test]
fn collect_errors_keeps_every_failure_in_order() {
    let results: Vec<Result<u32, String>> = vec![
        Ok(1),
        Err("first".to_owned()),
        Ok(2),
        Err("second".to_owned()),
    ];
    assert_eq!(
        collect_errors(results),
        Err(vec!["first".to_owned(), "second".to_owned()])
    );
}

#[test]
fn collect_errors_empty_input_succeeds() {
    let results: Vec<Result<u32, String>> = vec![];
    assert_eq!(collect_errors(results), Ok(vec![]));
}

#[test]
fn str_eq_compares_contents() {
    assert!(str_eq("each", "each"));
    assert!(!str_eq("each", "eac"));
    assert!(!str_eq("", "x"));
    assert!(str_eq("", ""));
}
