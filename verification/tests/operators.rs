//! Operator tests.

use archibald::op;
use archibald::{from, IntoOperator, Operator};

#[test]
fn test_operator_constants() {
    assert_eq!(Operator::GT.as_str(), ">");
    assert_eq!(Operator::LT.as_str(), "<");
    assert_eq!(Operator::EQ.as_str(), "=");
    assert_eq!(Operator::LIKE.as_str(), "LIKE");
}

#[test]
fn test_custom_operator() {
    let custom_op = Operator::custom("@@");
    assert_eq!(custom_op.as_str(), "@@");
}

#[test]
fn test_display() {
    assert_eq!(Operator::GT.to_string(), ">");
    assert_eq!(Operator::LIKE.to_string(), "LIKE");
}

#[test]
fn test_string_conversion() {
    assert_eq!(">".into_operator(), Operator::GT);
    assert_eq!("LIKE".into_operator(), Operator::LIKE);
    assert_eq!("like".into_operator(), Operator::LIKE);
    assert_eq!(">=".into_operator(), Operator::GTE);
}

#[test]
fn test_invalid_string_conversion() {
    let invalid_op = "INVALID".into_operator();
    assert_eq!(invalid_op, Operator::Unknown("INVALID".to_string()));
    
    // Test that validation fails
    assert!(invalid_op.validate().is_err());
}

#[test]
fn test_operator_equality() {
    assert_eq!(Operator::GT, ">".into_operator());
    assert_eq!(Operator::LIKE, "like".into_operator());
}

#[test]
fn test_null_operators() {
    assert_eq!("IS NULL".into_operator(), Operator::IS_NULL);
    assert_eq!("is null".into_operator(), Operator::IS_NULL);
    assert_eq!("IS NOT NULL".into_operator(), Operator::IS_NOT_NULL);
}

#[test]
fn test_deferred_validation_in_query() {
    // Creating a query with an invalid operator does not panic
    let query = from("users").where_(("age", "INVALID_OP", 18)).select_all();

    // But generating SQL fails
    assert!(query.to_sql().is_err());

    let err = query.to_sql().unwrap_err();
    assert!(err.to_string().contains("Unknown operator 'INVALID_OP'"));
}

