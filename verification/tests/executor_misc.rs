//! Isolation level tests.

use archibald::IsolationLevel;

#[test]
fn test_postgres_pool_creation() {
    // The pool adapter lives outside the library and needs a live
    // database; nothing of it can run here.
    assert!(true);
}

#[test]
fn test_transaction_isolation_levels() {
    // Test isolation level SQL generation
    assert_eq!(IsolationLevel::ReadUncommitted.to_sql(), "READ UNCOMMITTED");
    assert_eq!(IsolationLevel::ReadCommitted.to_sql(), "READ COMMITTED");
    assert_eq!(IsolationLevel::RepeatableRead.to_sql(), "REPEATABLE READ");
    assert_eq!(IsolationLevel::Serializable.to_sql(), "SERIALIZABLE");
}
