//! SELECT builder tests.

use archibald::op;
use archibald::{from, ColumnSelector, JoinType, SortDirection, Value};

#[test]
fn select_test_basic_select() {
    let query = from("users").select("*");
    let sql = query.to_sql().unwrap();
    assert_eq!(sql, "SELECT * FROM users");
}

#[test]
fn select_test_select_columns() {
    let query = from("users").select(("id", "name"));
    let sql = query.to_sql().unwrap();
    assert_eq!(sql, "SELECT id, name FROM users");
}

#[test]
fn select_test_select_with_where() {
    let query = from("users").select("*").where_(("age", op::GT, 18));
    let sql = query.to_sql().unwrap();
    assert_eq!(sql, "SELECT * FROM users WHERE age > ?");
}

#[test]
fn select_test_multiple_where_conditions() {
    let query = from("users")
        .select("*")
        .where_(("age", op::GT, 18))
        .where_(("name", "John"));
    let sql = query.to_sql().unwrap();
    assert_eq!(sql, "SELECT * FROM users WHERE age > ? AND name = ?");
}

#[test]
fn select_test_or_where() {
    let query = from("users")
        .select("*")
        .where_(("age", op::GT, 18))
        .or_where(("status", "admin"));
    let sql = query.to_sql().unwrap();
    assert_eq!(sql, "SELECT * FROM users WHERE age > ? OR status = ?");
}

#[test]
fn select_test_limit_and_offset() {
    let query = from("users")
        .select("*")
        .limit(10)
        .offset(5);
    let sql = query.to_sql().unwrap();
    assert_eq!(sql, "SELECT * FROM users LIMIT 10 OFFSET 5");
}

#[test]
fn select_test_inner_join() {
    let query = from("users")
        .select("*")
        .inner_join("profiles", "users.id", "profiles.user_id");
    let sql = query.to_sql().unwrap();
    assert_eq!(sql, "SELECT * FROM users INNER JOIN profiles ON users.id = profiles.user_id");
}

#[test]
fn select_test_left_join() {
    let query = from("users")
        .select("*")
        .left_join("profiles", "users.id", "profiles.user_id");
    let sql = query.to_sql().unwrap();
    assert_eq!(sql, "SELECT * FROM users LEFT JOIN profiles ON users.id = profiles.user_id");
}

#[test]
fn select_test_right_join() {
    let query = from("users")
        .select("*")
        .right_join("profiles", "users.id", "profiles.user_id");
    let sql = query.to_sql().unwrap();
    assert_eq!(sql, "SELECT * FROM users RIGHT JOIN profiles ON users.id = profiles.user_id");
}

#[test]
fn select_test_order_by_with_direction() {
    let query = from("users")
        .select("*")
        .order_by("name", SortDirection::Desc);
    let sql = query.to_sql().unwrap();
    assert_eq!(sql, "SELECT * FROM users ORDER BY name DESC");
}

#[test]
fn select_test_order_by_asc() {
    let query = from("users")
        .select("*")
        .order_by_asc("name");
    let sql = query.to_sql().unwrap();
    assert_eq!(sql, "SELECT * FROM users ORDER BY name ASC");
}

#[test]
fn select_test_order_by_desc() {
    let query = from("users")
        .select("*")
        .order_by_desc("created_at");
    let sql = query.to_sql().unwrap();
    assert_eq!(sql, "SELECT * FROM users ORDER BY created_at DESC");
}

#[test]
fn select_test_group_by_single_column() {
    let query = from("users")
        .select("*")
        .group_by("department");
    let sql = query.to_sql().unwrap();
    assert_eq!(sql, "SELECT * FROM users GROUP BY department");
}

#[test]
fn select_test_group_by_multiple_columns() {
    let query = from("users")
        .select("*")
        .group_by(("department", "status"));
    let sql = query.to_sql().unwrap();
    assert_eq!(sql, "SELECT * FROM users GROUP BY department, status");
}

#[test]
fn select_test_distinct_basic() {
    let query = from("users")
        .select("status")
        .distinct();
    let sql = query.to_sql().unwrap();
    assert_eq!(sql, "SELECT DISTINCT status FROM users");
}

#[test]
fn select_test_having_basic() {
    let query = from("users")
        .select("*")
        .group_by("department")
        .having(("COUNT(*)", op::GT, 5));
    let sql = query.to_sql().unwrap();
    assert_eq!(sql, "SELECT * FROM users GROUP BY department HAVING COUNT(*) > ?");
}

#[test]
fn select_test_avg_function() {
    let query = from("products")
        .select(ColumnSelector::avg("price"));

    let sql = query.to_sql().unwrap();
    assert_eq!(sql, "SELECT AVG(price) FROM products");
}

#[test]
fn select_test_min_function() {
    let query = from("products")
        .select(ColumnSelector::min("price"));

    let sql = query.to_sql().unwrap();
    assert_eq!(sql, "SELECT MIN(price) FROM products");
}

#[test]
fn select_test_max_function() {
    let query = from("products")
        .select(ColumnSelector::max("price"));

    let sql = query.to_sql().unwrap();
    assert_eq!(sql, "SELECT MAX(price) FROM products");
}

#[test]
fn select_test_sum_function() {
    let query = from("orders")
        .select(ColumnSelector::sum("total"));

    let sql = query.to_sql().unwrap();
    assert_eq!(sql, "SELECT SUM(total) FROM orders");
}

#[test]
fn select_test_aggregation_with_alias() {
    let query = from("orders")
        .select(ColumnSelector::sum("total").as_alias("total_sales"));

    let sql = query.to_sql().unwrap();
    assert_eq!(sql, "SELECT SUM(total) AS total_sales FROM orders");
}

#[test]
fn select_test_count_all() {
    let query = from("users")
        .select(ColumnSelector::count());

    let sql = query.to_sql().unwrap();
    assert_eq!(sql, "SELECT COUNT(*) FROM users");
}

#[test]
fn select_test_count_all_with_alias() {
    let query = from("users")
        .select(ColumnSelector::count_as("total_users"));

    let sql = query.to_sql().unwrap();
    assert_eq!(sql, "SELECT COUNT(*) AS total_users FROM users");
}

#[test]
fn select_test_count_column() {
    let query = from("users")
        .select(ColumnSelector::count_column("email"));

    let sql = query.to_sql().unwrap();
    assert_eq!(sql, "SELECT COUNT(email) FROM users");
}

#[test]
fn select_test_count_distinct() {
    let query = from("orders")
        .select(ColumnSelector::count_distinct("customer_id"));

    let sql = query.to_sql().unwrap();
    assert_eq!(sql, "SELECT COUNT(DISTINCT(customer_id)) FROM orders");
}

#[test]
fn select_test_cross_join() {
    let query = from("users")
        .select("*")
        .cross_join("categories");
    
    let sql = query.to_sql().unwrap();
    assert_eq!(sql, "SELECT * FROM users CROSS JOIN categories");
}

#[test]
fn select_test_full_outer_join() {
    let query = from("users")
        .select("*")
        .full_outer_join("profiles", "users.id", "profiles.user_id");
    
    let sql = query.to_sql().unwrap();
    assert_eq!(sql, "SELECT * FROM users FULL OUTER JOIN profiles ON users.id = profiles.user_id");
}

#[test]
fn select_test_aggregation_with_group_by() {
    let query = from("orders")
        .select(vec![
            ColumnSelector::Column("status".to_string()),
            ColumnSelector::count().as_alias("count"),
            ColumnSelector::avg("total").as_alias("avg_total")
        ])
        .group_by("status");
        
    let sql = query.to_sql().unwrap();
    assert_eq!(sql, "SELECT status, COUNT(*) AS count, AVG(total) AS avg_total FROM orders GROUP BY status");
}

#[test]
fn select_test_aggregation_with_joins() {
    let query = from("users")
        .select(vec![
            ColumnSelector::Column("users.name".to_string()),
            ColumnSelector::count().as_alias("order_count")
        ])
        .left_join("orders", "users.id", "orders.user_id")
        .group_by("users.name");
        
    let sql = query.to_sql().unwrap();
    assert_eq!(sql, "SELECT users.name, COUNT(*) AS order_count FROM users LEFT JOIN orders ON users.id = orders.user_id GROUP BY users.name");
}

#[test]
fn select_test_complex_aggregation_query() {
    let query = from("orders")
        .select(vec![
            ColumnSelector::Column("customer_id".to_string()),
            ColumnSelector::Column("status".to_string()),
            ColumnSelector::count().as_alias("order_count"),
            ColumnSelector::sum("total").as_alias("total_sales"),
            ColumnSelector::avg("total").as_alias("avg_order_value"),
            ColumnSelector::min("total").as_alias("min_order"),
            ColumnSelector::max("total").as_alias("max_order")
        ])
        .where_(("status", "completed"))
        .group_by(("customer_id", "status"))
        .order_by_asc("customer_id")
        .order_by_desc("total_sales")
        .limit(100);
        
    let sql = query.to_sql().unwrap();
    let expected = "SELECT customer_id, status, COUNT(*) AS order_count, SUM(total) AS total_sales, AVG(total) AS avg_order_value, MIN(total) AS min_order, MAX(total) AS max_order FROM orders WHERE status = ? GROUP BY customer_id, status ORDER BY customer_id ASC, total_sales DESC LIMIT 100";
    assert_eq!(sql, expected);
}

#[test]
fn select_test_complex_distinct_query() {
    let query = from("users")
        .inner_join("user_roles", "users.id", "user_roles.user_id")
        .inner_join("roles", "user_roles.role_id", "roles.id")
        .select(("users.department", "roles.name"))
        .distinct()
        .where_(("users.active", true))
        .and_where(("roles.active", true))
        .order_by_asc("users.department")
        .order_by_asc("roles.name")
        .limit(20);
        
    let sql = query.to_sql().unwrap();
    let expected = "SELECT DISTINCT users.department, roles.name FROM users INNER JOIN user_roles ON users.id = user_roles.user_id INNER JOIN roles ON user_roles.role_id = roles.id WHERE users.active = ? AND roles.active = ? ORDER BY users.department ASC, roles.name ASC LIMIT 20";
    assert_eq!(sql, expected);
}

#[test]
fn select_test_and_where_methods() {
    // Test that and_where works the same as where_
    let query1 = from("users")
        .select("*")
        .where_(("age", op::GT, 18))
        .where_(("status", "active"));

    let query2 = from("users")
        .select("*")
        .where_(("age", op::GT, 18))
        .and_where(("status", "active"));

    assert_eq!(query1.to_sql().unwrap(), query2.to_sql().unwrap());
}

#[test]
fn select_test_complex_where_combinations() {
    let query = from("users")
        .select("*")
        .where_(("age", op::GTE, 18))     // First condition (AND by default)
        .and_where(("status", "active"))  // Explicit AND
        .or_where(("role", "admin"))      // OR condition
        .and_where(("verified", true));   // Back to AND

    let sql = query.to_sql().unwrap();
    assert_eq!(sql, "SELECT * FROM users WHERE age >= ? AND status = ? OR role = ? AND verified = ?");
}

#[test]
fn select_test_distinct_all_columns() {
    let query = from("users")
        .select("*")
        .distinct();

    let sql = query.to_sql().unwrap();
    assert_eq!(sql, "SELECT DISTINCT * FROM users");
}

#[test]
fn select_test_complex_query_with_joins_group_order() {
    let query = from("users")
        .select(("users.name", "orders.status"))
        .inner_join("orders", "users.id", "orders.user_id")
        .where_(("users.active", true))
        .group_by(("users.name", "orders.status"))
        .order_by_asc("users.name")
        .order_by_desc("orders.status")
        .limit(10);

    let sql = query.to_sql().unwrap();
    assert_eq!(sql, "SELECT users.name, orders.status FROM users INNER JOIN orders ON users.id = orders.user_id WHERE users.active = ? GROUP BY users.name, orders.status ORDER BY users.name ASC, orders.status DESC LIMIT 10");
}

#[test]
fn select_test_distinct_multiple_columns() {
    let query = from("users")
        .select(("status", "role"))
        .distinct();

    let sql = query.to_sql().unwrap();
    assert_eq!(sql, "SELECT DISTINCT status, role FROM users");
}

#[test]
fn select_test_distinct_with_group_by() {
    let query = from("orders")
        .group_by("customer_id")
        .select("customer_id")
        .distinct();

    let sql = query.to_sql().unwrap();
    assert_eq!(sql, "SELECT DISTINCT customer_id FROM orders GROUP BY customer_id");
}

#[test]
fn select_test_distinct_with_join() {
    let query = from("users")
        .select("users.role")
        .distinct()
        .inner_join("departments", "users.dept_id", "departments.id");

    let sql = query.to_sql().unwrap();
    assert_eq!(sql, "SELECT DISTINCT users.role FROM users INNER JOIN departments ON users.dept_id = departments.id");
}

#[test]
fn select_test_distinct_with_limit() {
    let query = from("users")
        .select("department")
        .distinct()
        .limit(5);

    let sql = query.to_sql().unwrap();
    assert_eq!(sql, "SELECT DISTINCT department FROM users LIMIT 5");
}

#[test]
fn select_test_distinct_with_order_by() {
    let query = from("users")
        .select("status")
        .distinct()
        .order_by_asc("status");

    let sql = query.to_sql().unwrap();
    assert_eq!(sql, "SELECT DISTINCT status FROM users ORDER BY status ASC");
}

#[test]
fn select_test_distinct_with_where() {
    let query = from("users")
        .where_(("active", true))
        .select("department")
        .distinct();

    let sql = query.to_sql().unwrap();
    assert_eq!(sql, "SELECT DISTINCT department FROM users WHERE active = ?");
}

#[test]
fn select_test_group_by_with_order_by() {
    let query = from("orders")
        .select("status")
        .group_by("status")
        .order_by_asc("status");

    let sql = query.to_sql().unwrap();
    assert_eq!(sql, "SELECT status FROM orders GROUP BY status ORDER BY status ASC");
}

#[test]
fn select_test_group_by_with_where() {
    let query = from("orders")
        .select("status")
        .where_(("active", true))
        .group_by("status");

    let sql = query.to_sql().unwrap();
    assert_eq!(sql, "SELECT status FROM orders WHERE active = ? GROUP BY status");
}

#[test]
fn select_test_having_count_distinct() {
    let query = from("orders")
        .select(vec![
            ColumnSelector::Column("region".to_string()),
            ColumnSelector::count_distinct("customer_id").as_alias("unique_customers"),
            ColumnSelector::sum("total").as_alias("total_sales")
        ])
        .group_by("region")
        .having(("COUNT(DISTINCT customer_id)", op::GT, 100));
        
    let sql = query.to_sql().unwrap();
    assert_eq!(sql, "SELECT region, COUNT(DISTINCT(customer_id)) AS unique_customers, SUM(total) AS total_sales FROM orders GROUP BY region HAVING COUNT(DISTINCT customer_id) > ?");
}

#[test]
fn select_test_having_with_avg() {
    let query = from("products")
        .select(vec![
            ColumnSelector::Column("category".to_string()),
            ColumnSelector::avg("price").as_alias("avg_price")
        ])
        .group_by("category")
        .having(("AVG(price)", op::LT, Value::F64Bits(100.0f64.to_bits())));
        
    let sql = query.to_sql().unwrap();
    assert_eq!(sql, "SELECT category, AVG(price) AS avg_price FROM products GROUP BY category HAVING AVG(price) < ?");
}

#[test]
fn select_test_having_with_joins() {
    let query = from("users")
        .select(vec![
            ColumnSelector::Column("users.department".to_string()),
            ColumnSelector::count().as_alias("user_count"),
            ColumnSelector::avg("salaries.amount").as_alias("avg_salary")
        ])
        .inner_join("salaries", "users.id", "salaries.user_id")
        .group_by("users.department")
        .having(("COUNT(*)", op::GTE, 5));
        
    let sql = query.to_sql().unwrap();
    assert_eq!(sql, "SELECT users.department, COUNT(*) AS user_count, AVG(salaries.amount) AS avg_salary FROM users INNER JOIN salaries ON users.id = salaries.user_id GROUP BY users.department HAVING COUNT(*) >= ?");
}

#[test]
fn select_test_having_with_or_condition() {
    let query = from("products")
        .select(vec![
            ColumnSelector::Column("category".to_string()),
            ColumnSelector::count().as_alias("product_count"),
            ColumnSelector::avg("price").as_alias("avg_price")
        ])
        .group_by("category")
        .having(("COUNT(*)", op::GT, 10))
        .or_having(("AVG(price)", op::LT, 50));
        
    let sql = query.to_sql().unwrap();
    assert_eq!(sql, "SELECT category, COUNT(*) AS product_count, AVG(price) AS avg_price FROM products GROUP BY category HAVING COUNT(*) > ? OR AVG(price) < ?");
}

#[test]
fn select_test_having_with_order_by() {
    let query = from("products")
        .select(vec![
            ColumnSelector::Column("category".to_string()),
            ColumnSelector::count().as_alias("product_count"),
            ColumnSelector::max("price").as_alias("max_price")
        ])
        .group_by("category")
        .having(("COUNT(*)", op::GT, 5))
        .order_by_asc("product_count")
        .order_by_desc("max_price");
        
    let sql = query.to_sql().unwrap();
    assert_eq!(sql, "SELECT category, COUNT(*) AS product_count, MAX(price) AS max_price FROM products GROUP BY category HAVING COUNT(*) > ? ORDER BY product_count ASC, max_price DESC");
}

#[test]
fn select_test_having_with_sum() {
    let query = from("sales")
        .select(vec![
            ColumnSelector::Column("region".to_string()),
            ColumnSelector::sum("amount").as_alias("total_sales")
        ])
        .group_by("region")
        .having(("SUM(amount)", op::GTE, 10000));
        
    let sql = query.to_sql().unwrap();
    assert_eq!(sql, "SELECT region, SUM(amount) AS total_sales FROM sales GROUP BY region HAVING SUM(amount) >= ?");
}

#[test]
fn select_test_join_with_limit_offset() {
    let query = from("users")
        .inner_join("profiles", "users.id", "profiles.user_id")
        .select("*")
        .limit(10)
        .offset(20);

    let sql = query.to_sql().unwrap();
    assert_eq!(sql, "SELECT * FROM users INNER JOIN profiles ON users.id = profiles.user_id LIMIT 10 OFFSET 20");
}

#[test]
fn select_test_join_with_where_clause() {
    let query = from("users")
        .select(("users.name", "orders.total"))
        .inner_join("orders", "users.id", "orders.user_id")
        .where_(("users.active", true))
        .and_where(("orders.status", "completed"));

    let sql = query.to_sql().unwrap();
    assert_eq!(sql, "SELECT users.name, orders.total FROM users INNER JOIN orders ON users.id = orders.user_id WHERE users.active = ? AND orders.status = ?");
}

#[test]
fn select_test_multiple_order_by() {
    let query = from("users")
        .order_by_asc("name")
        .order_by_desc("created_at")
        .order_by_asc("id")
        .select("*");

    let sql = query.to_sql().unwrap();
    assert_eq!(sql, "SELECT * FROM users ORDER BY name ASC, created_at DESC, id ASC");
}

#[test]
fn select_test_order_by_with_limit_offset() {
    let query = from("users")
        .order_by_asc("created_at")
        .limit(25)
        .offset(50)
        .select("*");

    let sql = query.to_sql().unwrap();
    assert_eq!(sql, "SELECT * FROM users ORDER BY created_at ASC LIMIT 25 OFFSET 50");
}

#[test]
fn select_test_order_by_with_where() {
    let query = from("users")
        .where_(("active", true))
        .order_by_asc("name")
        .select("*");

    let sql = query.to_sql().unwrap();
    assert_eq!(sql, "SELECT * FROM users WHERE active = ? ORDER BY name ASC");
}

#[test]
fn select_test_multiple_joins() {
    let query = from("users")
        .inner_join("profiles", "users.id", "profiles.user_id")
        .left_join("orders", "users.id", "orders.user_id")
        .right_join("categories", "orders.category_id", "categories.id")
        .select("*");

    let sql = query.to_sql().unwrap();
    assert_eq!(sql, "SELECT * FROM users INNER JOIN profiles ON users.id = profiles.user_id LEFT JOIN orders ON users.id = orders.user_id RIGHT JOIN categories ON orders.category_id = categories.id");
}

#[test]
fn select_test_mixed_columns_and_aggregations() {
    let query = from("orders")
        .select(vec![
            ColumnSelector::Column("status".to_string()),
            ColumnSelector::count().as_alias("count"),
            ColumnSelector::sum("total").as_alias("total_sales")
        ]);

    let sql = query.to_sql().unwrap();
    assert_eq!(sql, "SELECT status, COUNT(*) AS count, SUM(total) AS total_sales FROM orders");
}

#[test]
fn select_test_having_with_where_and_group_by() {
    let query = from("orders")
        .select(vec![
            ColumnSelector::Column("status".to_string()),
            ColumnSelector::count().as_alias("count"),
            ColumnSelector::sum("total").as_alias("total_sales")
        ])
        .where_(("created_at", op::GTE, "2023-01-01"))
        .group_by("status")
        .having(("COUNT(*)", op::GT, 5));
        
    let sql = query.to_sql().unwrap();
    assert_eq!(sql, "SELECT status, COUNT(*) AS count, SUM(total) AS total_sales FROM orders WHERE created_at >= ? GROUP BY status HAVING COUNT(*) > ?");
}

#[test]
fn select_test_multiple_having_conditions() {
    let query = from("orders")
        .select(vec![
            ColumnSelector::Column("customer_id".to_string()),
            ColumnSelector::count().as_alias("order_count"),
            ColumnSelector::sum("total").as_alias("total_spent")
        ])
        .group_by("customer_id")
        .having(("COUNT(*)", op::GT, 3))
        .and_having(("SUM(total)", op::GTE, 500));
        
    let sql = query.to_sql().unwrap();
    assert_eq!(sql, "SELECT customer_id, COUNT(*) AS order_count, SUM(total) AS total_spent FROM orders GROUP BY customer_id HAVING COUNT(*) > ? AND SUM(total) >= ?");
}

#[test]
fn select_test_generic_join_method() {
    let query = from("users")
        .join(JoinType::Inner, "profiles", "users.id", archibald::Operator::EQ, "profiles.user_id")
        .select("*");

    let sql = query.to_sql().unwrap();
    assert_eq!(sql, "SELECT * FROM users INNER JOIN profiles ON users.id = profiles.user_id");
}

#[test]
fn select_test_join_with_custom_operator() {
    let query = from("users")
        .join(JoinType::Inner, "profiles", "users.id", op::GT, "profiles.min_user_id")
        .select("*");

    let sql = query.to_sql().unwrap();
    assert_eq!(sql, "SELECT * FROM users INNER JOIN profiles ON users.id > profiles.min_user_id");
}

#[test]
fn test_complex_subquery_with_joins() {
    let subquery = from("orders")
        .inner_join("order_items", "orders.id", "order_items.order_id")
        .select(ColumnSelector::sum("order_items.quantity"))
        .where_(("orders.customer_id", 1))
        .group_by("orders.customer_id");

    let query = from("customers")
        .select(vec![
            ColumnSelector::Column("name".to_string()),
            ColumnSelector::subquery_as(subquery, "total_items_ordered")
        ]);

    let sql = query.to_sql().unwrap();
    assert_eq!(sql, "SELECT name, (SELECT SUM(order_items.quantity) FROM orders INNER JOIN order_items ON orders.id = order_items.order_id WHERE orders.customer_id = ? GROUP BY orders.customer_id) AS total_items_ordered FROM customers");
}

#[test]
fn test_where_in_subquery() {
    let subquery = from("orders")
        .select("customer_id")
        .where_(("status", "completed"));

    let query = from("customers")
        .where_in("id", subquery)
        .select("*");

    let sql = query.to_sql().unwrap();
    assert_eq!(sql, "SELECT * FROM customers WHERE id IN (SELECT customer_id FROM orders WHERE status = ?)");
}

#[test]
fn test_subquery_in_select() {
    let subquery = from("orders")
        .select("total")
        .where_(("customer_id", 1))
        .limit(1);

    let query = from("customers")
        .select(vec![
            ColumnSelector::Column("name".to_string()),
            ColumnSelector::subquery_as(subquery, "latest_order_total")
        ]);

    let sql = query.to_sql().unwrap();
    assert_eq!(sql, "SELECT name, (SELECT total FROM orders WHERE customer_id = ? LIMIT 1) AS latest_order_total FROM customers");
}

#[test]
fn test_where_exists_subquery() {
    let subquery = from("orders")
        .select("1")
        .where_(("orders.customer_id", 1));

    let query = from("customers")
        .where_exists(subquery)
        .select("*");

    let sql = query.to_sql().unwrap();
    assert_eq!(sql, "SELECT * FROM customers WHERE EXISTS (SELECT 1 FROM orders WHERE orders.customer_id = ?)");
}

#[test]
fn test_where_not_in_subquery() {
    let subquery = from("cancelled_orders")
        .select("customer_id");

    let query = from("customers")
        .where_not_in("id", subquery)
        .select("*");

    let sql = query.to_sql().unwrap();
    assert_eq!(sql, "SELECT * FROM customers WHERE id NOT IN (SELECT customer_id FROM cancelled_orders)");
}

#[test]
fn test_where_not_exists_subquery() {
    let subquery = from("orders")
        .select("1")
        .where_(("orders.customer_id", 1));

    let query = from("customers")
        .where_not_exists(subquery)
        .select("*");

    let sql = query.to_sql().unwrap();
    assert_eq!(sql, "SELECT * FROM customers WHERE NOT EXISTS (SELECT 1 FROM orders WHERE orders.customer_id = ?)");
}

#[test]
fn test_subquery_with_aggregation() {
    let avg_subquery = from("orders")
        .select(ColumnSelector::avg("total").as_alias("avg_total"));

    let query = from("customers")
        .select(vec![
            ColumnSelector::Column("name".to_string()),
            ColumnSelector::subquery_as(avg_subquery, "avg_order_total")
        ]);

    let sql = query.to_sql().unwrap();
    assert_eq!(sql, "SELECT name, (SELECT AVG(total) AS avg_total FROM orders) AS avg_order_total FROM customers");
}

#[test]
fn test_subquery_with_multiple_conditions() {
    let subquery = from("orders")
        .select("customer_id")
        .where_(("status", "completed"))
        .and_where(("total", op::GT, 50));

    let query = from("customers")
        .select("name")
        .where_in("id", subquery)
        .where_(("active", true));

    let sql = query.to_sql().unwrap();
    assert_eq!(sql, "SELECT name FROM customers WHERE active = ? AND id IN (SELECT customer_id FROM orders WHERE status = ? AND total > ?)");
}

#[test]
fn test_nested_subqueries() {
    let inner_subquery = from("order_items")
        .select("order_id")
        .where_(("product_id", 1));

    let outer_subquery = from("orders")
        .select("customer_id")
        .where_in("id", inner_subquery);

    let query = from("customers")
        .select("*")
        .where_in("id", outer_subquery);

    let sql = query.to_sql().unwrap();
    assert_eq!(sql, "SELECT * FROM customers WHERE id IN (SELECT customer_id FROM orders WHERE id IN (SELECT order_id FROM order_items WHERE product_id = ?))");
}

#[test]
fn test_mixed_tuple_column_selectors() {
    // Test all our new mixed tuple implementations

    // (&str, ColumnSelector)
    let query1 = from("users")
        .select(("name", ColumnSelector::count()));
    let sql1 = query1.to_sql().unwrap();
    assert_eq!(sql1, "SELECT name, COUNT(*) FROM users");

    // (&str, ColumnSelector, ColumnSelector) - the main one we wanted!
    let query2 = from("users")
        .select((
            "name",
            ColumnSelector::count().as_alias("total"),
            ColumnSelector::avg("rating").as_alias("avg_rating")
        ));
    let sql2 = query2.to_sql().unwrap();
    assert_eq!(sql2, "SELECT name, COUNT(*) AS total, AVG(rating) AS avg_rating FROM users");

    // (ColumnSelector, &str, ColumnSelector)
    let query3 = from("products")
        .select((
            ColumnSelector::sum("price").as_alias("total_price"),
            "category",
            ColumnSelector::count()
        ));
    let sql3 = query3.to_sql().unwrap();
    assert_eq!(sql3, "SELECT SUM(price) AS total_price, category, COUNT(*) FROM products");
}

#[test]
fn test_mixed_where_and_subquery_conditions() {
    let subquery = from("orders")
        .select("customer_id")
        .where_(("total", op::GT, 100));

    let query = from("customers")
        .select("*")
        .where_(("active", true))
        .where_in("id", subquery);

    let sql = query.to_sql().unwrap();
    assert_eq!(sql, "SELECT * FROM customers WHERE active = ? AND id IN (SELECT customer_id FROM orders WHERE total > ?)");
}

