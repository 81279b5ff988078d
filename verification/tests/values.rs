//! Value tests.

use archibald::Value;

#[test]
fn test_value_creation() {
    assert_eq!(Value::from(42i32), Value::I32(42));
    assert_eq!(Value::from(true), Value::Bool(true));
    assert_eq!(Value::from("hello"), Value::String("hello".to_string()));
    assert_eq!(Value::from(()), Value::Null);
}

#[test]
fn test_array_conversion() {
    let arr = vec![1, 2, 3];
    let value = Value::from(arr);
    assert_eq!(
        value,
        Value::Array(vec![Value::I32(1), Value::I32(2), Value::I32(3)])
    );
}

#[test]
fn test_slice_conversion() {
    let arr: &[i32] = &[1, 2, 3];
    let value = Value::from(arr);
    assert_eq!(
        value,
        Value::Array(vec![Value::I32(1), Value::I32(2), Value::I32(3)])
    );
}

#[test]
fn test_option_conversion() {
    assert_eq!(Value::from(Some(42i32)), Value::I32(42));
    assert_eq!(Value::from(None::<i32>), Value::Null);
}

#[test]
fn test_is_null() {
    assert!(Value::Null.is_null());
    assert!(!Value::I32(42).is_null());
}

#[test]
fn test_type_names() {
    assert_eq!(Value::I32(42).sql_type_name(), "INTEGER");
    assert_eq!(Value::String("test".to_string()).sql_type_name(), "TEXT");
    assert_eq!(Value::Bool(true).sql_type_name(), "BOOLEAN");
    assert_eq!(Value::Null.sql_type_name(), "NULL");
}

