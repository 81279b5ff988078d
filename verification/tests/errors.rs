//! Error value tests.

use archibald::Error;

#[test]
fn test_error_creation() {
    let err = Error::sql_generation("Invalid SELECT");
    assert!(matches!(err, Error::SqlGeneration { .. }));
    assert_eq!(err.to_string(), "SQL generation error: Invalid SELECT");
}

#[test]
fn test_invalid_query_error() {
    let err = Error::invalid_query("Missing WHERE clause");
    assert!(matches!(err, Error::InvalidQuery { .. }));
    assert_eq!(err.to_string(), "Invalid query: Missing WHERE clause");
}

#[test]
fn test_column_not_found_error() {
    let err = Error::column_not_found("users", "invalid_column");
    assert!(matches!(err, Error::ColumnNotFound { .. }));
    assert_eq!(err.to_string(), "Column 'invalid_column' not found in table 'users'");
}

#[test]
fn test_table_not_found_error() {
    let err = Error::table_not_found("non_existent_table");
    assert!(matches!(err, Error::TableNotFound { .. }));
    assert_eq!(err.to_string(), "Table 'non_existent_table' not found");
}

