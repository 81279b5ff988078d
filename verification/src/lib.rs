//! A fluent, immutable SQL query-construction library.
//!
//! Queries are assembled through typestate builders: each statement kind
//! (SELECT, INSERT, UPDATE, DELETE) moves through explicit states, and only
//! a structurally complete state can render to SQL text with `?`
//! placeholders and a matching parameter sequence. Rendering is specified
//! exactly: the contracts on `to_sql` and `parameters` pin both the text
//! and the parameter order, and the laws module states the crossing
//! properties, placeholder alignment first among them.

pub mod common;
pub mod delete;
pub mod error;
pub mod executor;
pub mod insert;
pub mod laws;
pub mod op;
pub mod operator;
pub mod render;
pub mod select;
pub mod update;
pub mod value;

pub use common::{
    AggregateFunction, GroupByClause, IntoColumns, IntoCondition, JoinClause, JoinCondition,
    JoinConnector, JoinType, OrderByClause, QueryBuilder, SortDirection, WhereCondition,
    WhereConnector,
};
pub use delete::{DeleteBuilderComplete, DeleteBuilderInitial};
pub use error::Error;
pub use executor::IsolationLevel;
pub use insert::{InsertBuilderComplete, InsertBuilderInitial, IntoInsertData};
pub use operator::{IntoOperator, Operator};
pub use select::{
    ColumnSelector, IntoColumnSelectors, SelectBuilderComplete, SelectBuilderInitial, Subquery,
};
pub use update::{
    IntoUpdateData, UpdateBuilderComplete, UpdateBuilderInitial, UpdateBuilderWithSet,
};
pub use value::{IntoValue, Value};

use vstd::prelude::*;

verus! {

/// Create a new SELECT query builder for the given table.
pub fn from(name: &str) -> (r: SelectBuilderInitial)
    ensures
        r@.table_name == name@,
        r@.where_conditions.len() == 0,
        r@.subquery_conditions.len() == 0,
        r@.join_clauses.len() == 0,
        r@.order_by_clauses.len() == 0,
        r@.group_by_clause is None,
        r@.having_conditions.len() == 0,
        !r@.distinct,
        r@.limit_value is None,
        r@.offset_value is None,
{
    SelectBuilderInitial::new(name)
}

/// Create a new UPDATE query builder for the given table.
pub fn update(name: &str) -> (r: UpdateBuilderInitial)
    ensures
        r@.table_name == name@,
{
    UpdateBuilderInitial::new(name)
}

/// Create a new DELETE query builder for the given table.
pub fn delete(name: &str) -> (r: DeleteBuilderInitial)
    ensures
        r@.table_name == name@,
{
    DeleteBuilderInitial::new(name)
}

/// Create a new INSERT query builder for the given table.
pub fn insert(name: &str) -> (r: InsertBuilderInitial)
    ensures
        r@.table_name == name@,
{
    InsertBuilderInitial::new(name)
}

/// Create a plain column selector, for mixing named columns with
/// aggregates in a column list.
pub fn col(name: &str) -> (r: ColumnSelector)
    ensures
        r@ == select::ColumnSelectorV::Column(name@),
{
    ColumnSelector::column(name)
}

} // verus!
