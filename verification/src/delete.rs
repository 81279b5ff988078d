//! DELETE query builder.
//!
//! A DELETE starts in an initial state that cannot render; only adding a
//! WHERE condition moves it to the complete state. An unconditional DELETE
//! is therefore impossible to render, by construction.

use vstd::prelude::*;
use crate::common::{IntoCondition, QueryBuilder, WhereCondition, WhereConditionV, WhereConnector};
use crate::error::{Error, ErrorV};
use crate::operator::unknown_op_error;
use crate::render::{
    all_ops_known, append_conditions, collect_where_params, cond_views, conditions_sql,
    first_unknown_token, param_views, validate_conditions, where_clause_sql, where_params,
};
use crate::value::Value;

verus! {

/// DELETE query builder in initial state (before `where_` is called).
/// It cannot render: DELETE requires a WHERE condition for safety.
#[derive(Debug, Clone)]
pub struct DeleteBuilderInitial {
    table_name: String,
}

/// The shape of a [`DeleteBuilderInitial`].
pub struct DeleteBuilderInitialV {
    pub table_name: Seq<char>,
}

impl View for DeleteBuilderInitial {
    type V = DeleteBuilderInitialV;

    closed spec fn view(&self) -> DeleteBuilderInitialV {
        DeleteBuilderInitialV { table_name: self.table_name@ }
    }
}

/// DELETE query builder in complete state (after `where_` is called).
#[derive(Debug, Clone)]
pub struct DeleteBuilderComplete {
    table_name: String,
    where_conditions: Vec<WhereCondition>,
}

/// The shape of a [`DeleteBuilderComplete`].
pub struct DeleteBuilderCompleteV {
    pub table_name: Seq<char>,
    pub where_conditions: Seq<WhereConditionV>,
}

impl View for DeleteBuilderComplete {
    type V = DeleteBuilderCompleteV;

    closed spec fn view(&self) -> DeleteBuilderCompleteV {
        DeleteBuilderCompleteV {
            table_name: self.table_name@,
            where_conditions: cond_views(self.where_conditions@),
        }
    }
}

/// The SQL text a complete DELETE renders to.
pub open spec fn delete_sql(v: DeleteBuilderCompleteV) -> Seq<char> {
    "DELETE FROM "@ + v.table_name + where_clause_sql(v.where_conditions)
}

/// The error returned when a DELETE without WHERE is rendered.
pub open spec fn delete_incomplete_error() -> ErrorV {
    ErrorV::InvalidQuery { message: "DELETE requires WHERE condition for safety"@ }
}

impl DeleteBuilderInitial {
    /// Create a new DELETE query builder in initial state.
    pub fn new(table: &str) -> (r: Self)
        ensures
            r@.table_name == table@,
    {
        Self { table_name: table.to_owned() }
    }

    /// Add a WHERE condition, transitioning to [`DeleteBuilderComplete`].
    /// This is required before the query can render.
    pub fn where_<C: IntoCondition>(self, condition: C) -> (r: DeleteBuilderComplete)
        ensures
            r@.table_name == self@.table_name,
            r@.where_conditions =~= seq![
                WhereConditionV {
                    column: condition.cond_column(),
                    operator: condition.cond_operator(),
                    value: condition.cond_value(),
                    connector: WhereConnector::And,
                },
            ],
    {
        let (column, operator, value) = condition.into_condition();
        let mut where_conditions: Vec<WhereCondition> = Vec::new();
        where_conditions.push(
            WhereCondition { column, operator, value, connector: WhereConnector::And },
        );
        DeleteBuilderComplete { table_name: self.table_name, where_conditions }
    }
}

impl DeleteBuilderComplete {
    /// Add an AND WHERE condition.
    pub fn where_<C: IntoCondition>(self, condition: C) -> (r: Self)
        ensures
            r@.table_name == self@.table_name,
            r@.where_conditions =~= self@.where_conditions.push(
                WhereConditionV {
                    column: condition.cond_column(),
                    operator: condition.cond_operator(),
                    value: condition.cond_value(),
                    connector: WhereConnector::And,
                },
            ),
    {
        let (column, operator, value) = condition.into_condition();
        let mut me = self;
        me.where_conditions.push(
            WhereCondition { column, operator, value, connector: WhereConnector::And },
        );
        me
    }

    /// Add an OR WHERE condition.
    pub fn or_where<C: IntoCondition>(self, condition: C) -> (r: Self)
        ensures
            r@.table_name == self@.table_name,
            r@.where_conditions =~= self@.where_conditions.push(
                WhereConditionV {
                    column: condition.cond_column(),
                    operator: condition.cond_operator(),
                    value: condition.cond_value(),
                    connector: WhereConnector::Or,
                },
            ),
    {
        let (column, operator, value) = condition.into_condition();
        let mut me = self;
        me.where_conditions.push(
            WhereCondition { column, operator, value, connector: WhereConnector::Or },
        );
        me
    }

    /// Add an AND WHERE condition (same as `where_`).
    pub fn and_where<C: IntoCondition>(self, condition: C) -> (r: Self)
        ensures
            r@.table_name == self@.table_name,
            r@.where_conditions =~= self@.where_conditions.push(
                WhereConditionV {
                    column: condition.cond_column(),
                    operator: condition.cond_operator(),
                    value: condition.cond_value(),
                    connector: WhereConnector::And,
                },
            ),
    {
        self.where_(condition)
    }

    /// Render this DELETE: every operator is validated first, and the text
    /// is `DELETE FROM <table> WHERE <conditions>` exactly.
    pub fn to_sql(&self) -> (r: Result<String, Error>)
        ensures
            r is Ok <==> all_ops_known(self@.where_conditions),
            r is Ok ==> r->Ok_0@ == delete_sql(self@),
            r is Err ==> r->Err_0@ == unknown_op_error(
                first_unknown_token(self@.where_conditions),
            ),
    {
        match validate_conditions(&self.where_conditions) {
            Err(e) => Err(e),
            Ok(()) => {
                let mut sql = "DELETE FROM ".to_owned();
                sql.append(self.table_name.as_str());
                if self.where_conditions.len() > 0 {
                    sql.append(" WHERE ");
                    append_conditions(&mut sql, &self.where_conditions);
                }
                Ok(sql)
            },
        }
    }

    /// The bound parameters, in the order their placeholders stand in the
    /// rendered SQL.
    pub fn parameters(&self) -> (r: Vec<Value>)
        ensures
            param_views(r@) == where_params(self@.where_conditions),
    {
        let mut out: Vec<Value> = Vec::new();
        collect_where_params(&mut out, &self.where_conditions);
        out
    }
}

impl QueryBuilder for DeleteBuilderInitial {
    /// Rendering an incomplete DELETE always fails.
    fn to_sql(&self) -> (r: Result<String, Error>)
        ensures
            r is Err && r->Err_0@ == delete_incomplete_error(),
    {
        Err(Error::invalid_query("DELETE requires WHERE condition for safety"))
    }

    fn parameters(&self) -> (r: Vec<Value>)
        ensures
            r@.len() == 0,
    {
        Vec::new()
    }
}

impl QueryBuilder for DeleteBuilderComplete {
    fn to_sql(&self) -> (r: Result<String, Error>)
        ensures
            r is Ok <==> all_ops_known(self@.where_conditions),
            r is Ok ==> r->Ok_0@ == delete_sql(self@),
    {
        DeleteBuilderComplete::to_sql(self)
    }

    fn parameters(&self) -> (r: Vec<Value>)
        ensures
            param_views(r@) == where_params(self@.where_conditions),
    {
        DeleteBuilderComplete::parameters(self)
    }
}

} // verus!
