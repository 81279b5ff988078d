//! Scenario and property tests: the documented example chains, the
//! placeholder/parameter alignment on concrete queries, determinism, and
//! the typestate and operator failure modes.

use archibald::op;
use archibald::{delete, from, insert, update, ColumnSelector, QueryBuilder, Value};
use std::collections::HashMap;

fn count_placeholders(sql: &str) -> usize {
    sql.chars().filter(|c| *c == '?').count()
}

#[test]
fn scenario_select_where_gt() {
    let query = from("users").select(("id", "name")).where_(("age", op::GT, 18));
    assert_eq!(query.to_sql().unwrap(), "SELECT id, name FROM users WHERE age > ?");
    assert_eq!(query.parameters(), vec![Value::I32(18)]);
}

#[test]
fn scenario_update_set_where() {
    let mut data = HashMap::new();
    data.insert("name".to_string(), "Jane".into());
    let query = update("users").set(data).where_(("id", 1));
    assert_eq!(query.to_sql().unwrap(), "UPDATE users SET name = ? WHERE id = ?");
    assert_eq!(
        query.parameters(),
        vec![Value::String("Jane".to_string()), Value::I32(1)]
    );
}

#[test]
fn scenario_delete_without_where_is_incomplete() {
    let query = delete("users");
    let result = query.to_sql();
    assert!(result.is_err());
    assert_eq!(
        result.unwrap_err().to_string(),
        "Invalid query: DELETE requires WHERE condition for safety"
    );
}

#[test]
fn scenario_where_in_subquery_parameters() {
    let subquery = from("orders").select("customer_id").where_(("status", "completed"));
    let query = from("customers").where_in("id", subquery).select("*");
    assert_eq!(
        query.to_sql().unwrap(),
        "SELECT * FROM customers WHERE id IN (SELECT customer_id FROM orders WHERE status = ?)"
    );
    // The nested parameter stays with the nested builder; the flattened
    // sequence makes it reachable in placeholder order.
    assert_eq!(query.parameters(), vec![]);
    assert_eq!(
        query.flattened_parameters(),
        vec![Value::String("completed".to_string())]
    );
}

#[test]
fn scenario_group_by_having_aggregate() {
    let query = from("orders")
        .select(ColumnSelector::count().as_alias("order_count"))
        .group_by("status")
        .having(("COUNT(*)", op::GT, 5));
    assert_eq!(
        query.to_sql().unwrap(),
        "SELECT COUNT(*) AS order_count FROM orders GROUP BY status HAVING COUNT(*) > ?"
    );
    assert_eq!(query.parameters(), vec![Value::I32(5)]);
}

#[test]
fn placeholders_match_parameters_simple() {
    let query = from("users")
        .select("*")
        .where_(("age", op::GTE, 18))
        .or_where(("role", "admin"))
        .group_by("role")
        .having(("COUNT(*)", op::GT, 2));
    let sql = query.to_sql().unwrap();
    assert_eq!(count_placeholders(&sql), query.parameters().len());
    assert_eq!(count_placeholders(&sql), query.flattened_parameters().len());
}

#[test]
fn placeholders_match_parameters_nested() {
    let inner = from("orders").select("customer_id").where_(("total", op::GT, 100));
    let query = from("customers")
        .select("*")
        .where_(("active", true))
        .where_in("id", inner);
    let sql = query.to_sql().unwrap();
    assert_eq!(count_placeholders(&sql), 2);
    assert_eq!(query.flattened_parameters().len(), 2);
    assert_eq!(
        query.flattened_parameters(),
        vec![Value::Bool(true), Value::I32(100)]
    );
    // The builder's own parameter list holds only its own values.
    assert_eq!(query.parameters(), vec![Value::Bool(true)]);
}

#[test]
fn placeholders_match_parameters_insert_many() {
    let mut row1: Vec<(String, Value)> = Vec::new();
    row1.push(("name".to_string(), Value::String("John".to_string())));
    row1.push(("age".to_string(), Value::I32(30)));
    let mut row2: Vec<(String, Value)> = Vec::new();
    row2.push(("name".to_string(), Value::String("Jane".to_string())));
    row2.push(("age".to_string(), Value::I32(25)));
    let query = insert("users").values_many(vec![row1, row2]);
    let sql = query.to_sql().unwrap();
    assert_eq!(sql, "INSERT INTO users (name, age) VALUES (?, ?), (?, ?)");
    assert_eq!(count_placeholders(&sql), query.parameters().len());
    assert_eq!(
        query.parameters(),
        vec![
            Value::String("John".to_string()),
            Value::I32(30),
            Value::String("Jane".to_string()),
            Value::I32(25),
        ]
    );
}

#[test]
fn rendering_twice_is_identical() {
    let query = from("users")
        .select(("id", "name"))
        .where_(("age", op::GT, 18))
        .order_by_desc("id")
        .limit(7);
    let first = query.to_sql().unwrap();
    let second = query.to_sql().unwrap();
    assert_eq!(first, second);
    assert_eq!(query.parameters(), query.parameters());
}

#[test]
fn largest_limit_renders_all_digits() {
    let query = from("users").select("*").limit(u64::MAX).offset(0);
    assert_eq!(
        query.to_sql().unwrap(),
        "SELECT * FROM users LIMIT 18446744073709551615 OFFSET 0"
    );
}

#[test]
fn typestate_initial_states_never_render() {
    assert!(QueryBuilder::to_sql(&from("t")).is_err());
    assert!(QueryBuilder::to_sql(&insert("t")).is_err());
    assert!(QueryBuilder::to_sql(&update("t")).is_err());
    assert!(QueryBuilder::to_sql(&delete("t")).is_err());
}

#[test]
fn unknown_operator_fails_exactly_at_render() {
    // The chain itself never fails; the unknown token surfaces at
    // to_sql() with a suggestion built from the token.
    let query = delete("users").where_(("age", "bad op!", 18));
    let err = query.to_sql().unwrap_err();
    let text = err.to_string();
    assert!(text.contains("Unknown operator 'bad op!'"));
    // The suggestion uppercases the token and replaces spaces and bangs,
    // so the message shows the transformed constant name.
    assert!(text.contains("Operator::BAD_OPN"));
    assert!(text.contains("Operator::custom(\"bad op!\")"));
}

#[test]
fn custom_operator_renders_verbatim() {
    let query = from("documents")
        .select("*")
        .where_(("body", archibald::Operator::custom("@@"), "query"));
    assert_eq!(query.to_sql().unwrap(), "SELECT * FROM documents WHERE body @@ ?");
    assert_eq!(
        query.parameters(),
        vec![Value::String("query".to_string())]
    );
}

#[test]
fn empty_insert_row_list_fails() {
    let rows: Vec<Vec<(String, Value)>> = Vec::new();
    let query = insert("users").values_many(rows);
    let result = query.to_sql();
    assert!(result.is_err());
    assert_eq!(
        result.unwrap_err().to_string(),
        "Invalid query: INSERT requires columns and values"
    );
}

#[test]
fn subquery_in_column_list_flattens_first() {
    let sub = from("orders").select("total").where_(("customer_id", 1)).limit(1);
    let query = from("customers")
        .select((
            "name",
            ColumnSelector::subquery_as(sub, "latest_total"),
        ))
        .where_(("active", true));
    let sql = query.to_sql().unwrap();
    assert_eq!(
        sql,
        "SELECT name, (SELECT total FROM orders WHERE customer_id = ? LIMIT 1) AS latest_total FROM customers WHERE active = ?"
    );
    // Placeholder order: the column subquery's value comes first.
    assert_eq!(
        query.flattened_parameters(),
        vec![Value::I32(1), Value::Bool(true)]
    );
    assert_eq!(count_placeholders(&sql), query.flattened_parameters().len());
}

#[test]
fn alias_on_plain_column_is_a_no_op() {
    // A documented limitation: a plain column selector has no alias slot.
    let query = from("orders").select(archibald::col("order_id").as_alias("id"));
    assert_eq!(query.to_sql().unwrap(), "SELECT order_id FROM orders");
}

#[test]
fn connector_order_is_preserved() {
    let query = from("t")
        .select("*")
        .where_(("a", 1))
        .or_where(("b", 2))
        .and_where(("c", 3))
        .or_where(("d", 4));
    assert_eq!(
        query.to_sql().unwrap(),
        "SELECT * FROM t WHERE a = ? OR b = ? AND c = ? OR d = ?"
    );
}
