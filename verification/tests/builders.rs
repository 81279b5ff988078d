//! UPDATE, DELETE and INSERT builder tests.

use archibald::op;
use archibald::{delete, insert, update, QueryBuilder, Value};
use std::collections::HashMap;

#[test]
fn update_test_update_builder() {
    let mut data = HashMap::new();
    data.insert("name".to_string(), "John Updated".into());
    data.insert("age".to_string(), 31.into());

    let query = update("users").set(data).where_(("id", 1));

    let sql = query.to_sql().unwrap();
    // Note: HashMap iteration order is not guaranteed
    assert!(sql.starts_with("UPDATE users SET"));
    assert!(sql.contains("WHERE id = ?"));
    assert!(sql.contains("name = ?") && sql.contains("age = ?"));
}

#[test]
fn update_test_update_without_set_fails() {
    let query = update("users");
    let result = query.to_sql();
    assert!(result.is_err());
    assert!(result
        .unwrap_err()
        .to_string()
        .contains("UPDATE requires SET clause"));
}

#[test]
fn test_update_with_set_but_no_where_fails() {
    let mut data = HashMap::new();
    data.insert("name".to_string(), "Jane".into());
    
    let query = update("users").set(data);
    let result = query.to_sql();
    assert!(result.is_err());
    assert!(result
        .unwrap_err()
        .to_string()
        .contains("UPDATE requires WHERE clause"));
}

#[test]
fn test_update_multiple_where_conditions() {
    let mut data = HashMap::new();
    data.insert("name".to_string(), "Jane".into());

    let query = update("users")
        .set(data)
        .where_(("id", 1))
        .and_where(("active", true))
        .or_where(("admin", true));

    let sql = query.to_sql().unwrap();
    assert!(sql.contains("WHERE id = ? AND active = ? OR admin = ?"));
}

#[test]
fn test_type_safety_prevents_early_execution() {
    

    // Can't call to_sql() on UpdateBuilderInitial - missing SET
    let initial_builder = update("users");
    let result = initial_builder.to_sql();
    assert!(result.is_err());
    assert!(result.unwrap_err().to_string().contains("SET clause"));

    // Can't call to_sql() on UpdateBuilderWithSet - missing WHERE  
    let mut data = HashMap::new();
    data.insert("name".to_string(), "Jane".into());
    let set_builder = update("users").set(data);
    let result = set_builder.to_sql();
    assert!(result.is_err());
    assert!(result.unwrap_err().to_string().contains("WHERE clause"));

    // CAN call to_sql() on UpdateBuilderComplete - has both SET and WHERE
    let mut data = HashMap::new();
    data.insert("name".to_string(), "Jane".into());
    let complete_builder = update("users").set(data).where_(("id", 1));
    let result = complete_builder.to_sql();
    assert!(result.is_ok());
}

#[test]
fn delete_test_delete_builder() {
    let query = delete("users").where_(("age", op::LT, 18));
    let sql = query.to_sql().unwrap();
    assert_eq!(sql, "DELETE FROM users WHERE age < ?");
}

#[test]
fn test_delete_with_where_required() {
    // DELETE now requires WHERE condition for safety
    let query = delete("users").where_(("id", 1));
    let sql = query.to_sql().unwrap();
    assert_eq!(sql, "DELETE FROM users WHERE id = ?");
}

#[test]
fn test_delete_multiple_conditions() {
    let query = delete("users")
        .where_(("age", op::LT, 18))
        .or_where(("status", "inactive"));
    let sql = query.to_sql().unwrap();
    assert_eq!(sql, "DELETE FROM users WHERE age < ? OR status = ?");
}

#[test]
fn test_delete_without_where_fails() {
    let query = delete("users");
    let result = query.to_sql();
    assert!(result.is_err());
    assert!(result.unwrap_err().to_string().contains("DELETE requires WHERE condition for safety"));
}

#[test]
fn insert_test_insert_builder() {
    let mut data = HashMap::new();
    data.insert("name".to_string(), "John".into());
    data.insert("age".to_string(), 30.into());

    let query = insert("users").values(data);
    let sql = query.to_sql().unwrap();
    // Note: HashMap iteration order is not guaranteed, so we check both possible orders
    assert!(
        sql == "INSERT INTO users (name, age) VALUES (?, ?)"
            || sql == "INSERT INTO users (age, name) VALUES (?, ?)"
    );
}

#[test]
fn insert_test_insert_many() {
    let mut data1 = HashMap::new();
    data1.insert("name".to_string(), "John".into());
    data1.insert("age".to_string(), 30.into());

    let mut data2 = HashMap::new();
    data2.insert("name".to_string(), "Jane".into());
    data2.insert("age".to_string(), 25.into());

    let query = insert("users").values_many(vec![data1, data2]);
    let sql = query.to_sql().unwrap();
    // Check that we have multiple value groups
    assert!(sql.contains("VALUES (?, ?), (?, ?)"));
    assert!(sql.starts_with("INSERT INTO users"));
}

#[test]
fn insert_test_insert_empty_data_fails() {
    let query = insert("users");
    let result = query.to_sql();
    assert!(result.is_err());
    assert!(result
        .unwrap_err()
        .to_string()
        .contains("INSERT requires values"));
}

