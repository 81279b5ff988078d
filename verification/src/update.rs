//! UPDATE query builder.
//!
//! An UPDATE moves through three states: the initial state only knows its
//! table; `set` produces a state that carries assignments but still cannot
//! render; only `where_` completes it. An UPDATE without both a SET and a
//! WHERE clause is therefore impossible to render, by construction.

use vstd::prelude::*;
use crate::common::{IntoCondition, QueryBuilder, WhereCondition, WhereConditionV, WhereConnector};
use crate::error::{Error, ErrorV};
use crate::operator::unknown_op_error;
use crate::render::{
    all_ops_known, append_conditions, collect_where_params, cond_views, first_unknown_token,
    param_views, validate_conditions, where_clause_sql, where_params,
};
use crate::value::{Value, ValueV};

verus! {

/// The shapes of a list of SET assignments: column name and value shape.
pub open spec fn set_clause_views(s: Seq<(String, Value)>) -> Seq<(Seq<char>, ValueV)> {
    s.map_values(|p: (String, Value)| (p.0@, p.1@))
}

/// The text of the SET list: `col = ?` items joined by `, `.
pub open spec fn set_clauses_sql(cs: Seq<(Seq<char>, ValueV)>) -> Seq<char>
    decreases cs,
{
    if cs.len() == 0 {
        Seq::empty()
    } else if cs.len() == 1 {
        cs[0].0 + " = ?"@
    } else {
        set_clauses_sql(cs.drop_last()) + ", "@ + cs.last().0 + " = ?"@
    }
}

/// The assigned values of the SET list, in order.
pub open spec fn set_params(cs: Seq<(Seq<char>, ValueV)>) -> Seq<ValueV> {
    cs.map_values(|c: (Seq<char>, ValueV)| c.1)
}

/// Trait for types that can be converted to UPDATE data.
pub trait IntoUpdateData: Sized {
    /// Whether `r` is an entry list this data source can produce. A hash
    /// map yields its entries in arbitrary order, so a source constrains
    /// its output rather than determining it.
    spec fn describes_update(self, r: Seq<(Seq<char>, ValueV)>) -> bool;

    fn into_update_data(self) -> (r: Vec<(String, Value)>)
        ensures
            self.describes_update(set_clause_views(r@)),
    ;
}

/// Relies on `HashMap::into_iter`: yields each entry of the map exactly
/// once, in arbitrary order; the keys of a map are distinct.
#[verifier::external_body]
fn hash_map_entries(m: std::collections::HashMap<String, Value>) -> (r: Vec<(String, Value)>)
    ensures
        forall|i: int, j: int|
            0 <= i < j < r@.len() ==> #[trigger] r@[i].0@ != #[trigger] r@[j].0@,
{
    m.into_iter().collect()
}

impl IntoUpdateData for std::collections::HashMap<String, Value> {
    /// Some ordering of distinct columns: which entries come, and in which
    /// order, is not modeled, because hash map iteration is unordered.
    open spec fn describes_update(self, r: Seq<(Seq<char>, ValueV)>) -> bool {
        forall|i: int, j: int| 0 <= i < j < r.len() ==> r[i].0 != r[j].0
    }

    fn into_update_data(self) -> (r: Vec<(String, Value)>) {
        hash_map_entries(self)
    }
}

impl IntoUpdateData for Vec<(String, Value)> {
    /// An explicit entry list is kept exactly, in order.
    open spec fn describes_update(self, r: Seq<(Seq<char>, ValueV)>) -> bool {
        r == set_clause_views(self@)
    }

    fn into_update_data(self) -> (r: Vec<(String, Value)>) {
        self
    }
}

/// Initial UPDATE query builder: requires a SET clause before anything
/// else.
#[derive(Debug, Clone)]
pub struct UpdateBuilderInitial {
    table_name: String,
}

/// The shape of an [`UpdateBuilderInitial`].
pub struct UpdateBuilderInitialV {
    pub table_name: Seq<char>,
}

impl View for UpdateBuilderInitial {
    type V = UpdateBuilderInitialV;

    closed spec fn view(&self) -> UpdateBuilderInitialV {
        UpdateBuilderInitialV { table_name: self.table_name@ }
    }
}

/// UPDATE query builder with a SET clause: requires a WHERE clause before
/// it can render.
#[derive(Debug, Clone)]
pub struct UpdateBuilderWithSet {
    table_name: String,
    set_clauses: Vec<(String, Value)>,
}

/// The shape of an [`UpdateBuilderWithSet`].
pub struct UpdateBuilderWithSetV {
    pub table_name: Seq<char>,
    pub set_clauses: Seq<(Seq<char>, ValueV)>,
}

impl View for UpdateBuilderWithSet {
    type V = UpdateBuilderWithSetV;

    closed spec fn view(&self) -> UpdateBuilderWithSetV {
        UpdateBuilderWithSetV {
            table_name: self.table_name@,
            set_clauses: set_clause_views(self.set_clauses@),
        }
    }
}

/// Complete UPDATE query builder: has both SET and WHERE clauses.
#[derive(Debug, Clone)]
pub struct UpdateBuilderComplete {
    table_name: String,
    set_clauses: Vec<(String, Value)>,
    where_conditions: Vec<WhereCondition>,
}

/// The shape of an [`UpdateBuilderComplete`].
pub struct UpdateBuilderCompleteV {
    pub table_name: Seq<char>,
    pub set_clauses: Seq<(Seq<char>, ValueV)>,
    pub where_conditions: Seq<WhereConditionV>,
}

impl View for UpdateBuilderComplete {
    type V = UpdateBuilderCompleteV;

    closed spec fn view(&self) -> UpdateBuilderCompleteV {
        UpdateBuilderCompleteV {
            table_name: self.table_name@,
            set_clauses: set_clause_views(self.set_clauses@),
            where_conditions: cond_views(self.where_conditions@),
        }
    }
}

/// The SQL text a complete UPDATE renders to.
pub open spec fn update_sql(v: UpdateBuilderCompleteV) -> Seq<char> {
    "UPDATE "@ + v.table_name + " SET "@ + set_clauses_sql(v.set_clauses) + where_clause_sql(
        v.where_conditions,
    )
}

/// The parameters of a complete UPDATE: SET values first, WHERE values
/// after, matching placeholder order in the text.
pub open spec fn update_params(v: UpdateBuilderCompleteV) -> Seq<ValueV> {
    set_params(v.set_clauses) + where_params(v.where_conditions)
}

/// The error returned when an UPDATE without SET is rendered.
pub open spec fn update_needs_set_error() -> ErrorV {
    ErrorV::InvalidQuery { message: "UPDATE requires SET clause. Use .set() method."@ }
}

/// The error returned when an UPDATE without WHERE is rendered.
pub open spec fn update_needs_where_error() -> ErrorV {
    ErrorV::InvalidQuery {
        message: "UPDATE requires WHERE clause for safety. Use .where_() or .and_where() method."@,
    }
}

/// The defensive error returned when a complete UPDATE somehow carries no
/// assignments.
pub open spec fn update_empty_set_error() -> ErrorV {
    ErrorV::InvalidQuery { message: "UPDATE requires SET clauses"@ }
}

impl UpdateBuilderInitial {
    /// Create a new UPDATE query builder.
    pub fn new(table: &str) -> (r: Self)
        ensures
            r@.table_name == table@,
    {
        Self { table_name: table.to_owned() }
    }

    /// Set column values, transitioning to [`UpdateBuilderWithSet`].
    pub fn set<T: IntoUpdateData>(self, data: T) -> (r: UpdateBuilderWithSet)
        ensures
            r@.table_name == self@.table_name,
            data.describes_update(r@.set_clauses),
    {
        let updates = data.into_update_data();
        UpdateBuilderWithSet { table_name: self.table_name, set_clauses: updates }
    }
}

impl UpdateBuilderWithSet {
    /// Add a WHERE condition, transitioning to [`UpdateBuilderComplete`].
    pub fn where_<C: IntoCondition>(self, condition: C) -> (r: UpdateBuilderComplete)
        ensures
            r@.table_name == self@.table_name,
            r@.set_clauses == self@.set_clauses,
            r@.where_conditions =~= seq![
                WhereConditionV {
                    column: condition.cond_column(),
                    operator: condition.cond_operator(),
                    value: condition.cond_value(),
                    connector: WhereConnector::And,
                },
            ],
    {
        let (column, operator, value) = condition.into_condition();
        let mut where_conditions: Vec<WhereCondition> = Vec::new();
        where_conditions.push(
            WhereCondition { column, operator, value, connector: WhereConnector::And },
        );
        UpdateBuilderComplete {
            table_name: self.table_name,
            set_clauses: self.set_clauses,
            where_conditions,
        }
    }

    /// Add an AND WHERE condition (same as `where_`).
    pub fn and_where<C: IntoCondition>(self, condition: C) -> (r: UpdateBuilderComplete)
        ensures
            r@.table_name == self@.table_name,
            r@.set_clauses == self@.set_clauses,
            r@.where_conditions =~= seq![
                WhereConditionV {
                    column: condition.cond_column(),
                    operator: condition.cond_operator(),
                    value: condition.cond_value(),
                    connector: WhereConnector::And,
                },
            ],
    {
        self.where_(condition)
    }
}

impl UpdateBuilderComplete {
    /// Add an additional WHERE condition with AND.
    pub fn and_where<C: IntoCondition>(self, condition: C) -> (r: Self)
        ensures
            r@.table_name == self@.table_name,
            r@.set_clauses == self@.set_clauses,
            r@.where_conditions =~= self@.where_conditions.push(
                WhereConditionV {
                    column: condition.cond_column(),
                    operator: condition.cond_operator(),
                    value: condition.cond_value(),
                    connector: WhereConnector::And,
                },
            ),
    {
        let (column, operator, value) = condition.into_condition();
        let mut me = self;
        me.where_conditions.push(
            WhereCondition { column, operator, value, connector: WhereConnector::And },
        );
        me
    }

    /// Add an additional WHERE condition with OR.
    pub fn or_where<C: IntoCondition>(self, condition: C) -> (r: Self)
        ensures
            r@.table_name == self@.table_name,
            r@.set_clauses == self@.set_clauses,
            r@.where_conditions =~= self@.where_conditions.push(
                WhereConditionV {
                    column: condition.cond_column(),
                    operator: condition.cond_operator(),
                    value: condition.cond_value(),
                    connector: WhereConnector::Or,
                },
            ),
    {
        let (column, operator, value) = condition.into_condition();
        let mut me = self;
        me.where_conditions.push(
            WhereCondition { column, operator, value, connector: WhereConnector::Or },
        );
        me
    }

    /// Add a WHERE condition (same as `and_where`).
    pub fn where_<C: IntoCondition>(self, condition: C) -> (r: Self)
        ensures
            r@.table_name == self@.table_name,
            r@.set_clauses == self@.set_clauses,
            r@.where_conditions =~= self@.where_conditions.push(
                WhereConditionV {
                    column: condition.cond_column(),
                    operator: condition.cond_operator(),
                    value: condition.cond_value(),
                    connector: WhereConnector::And,
                },
            ),
    {
        self.and_where(condition)
    }

    /// Render this UPDATE. A complete UPDATE with no assignments fails the
    /// defensive re-check; then every operator is validated; then the text
    /// is `UPDATE <table> SET <assignments> WHERE <conditions>` exactly.
    pub fn to_sql(&self) -> (r: Result<String, Error>)
        ensures
            r is Ok <==> (self@.set_clauses.len() > 0 && all_ops_known(self@.where_conditions)),
            r is Ok ==> r->Ok_0@ == update_sql(self@),
            r is Err && self@.set_clauses.len() == 0 ==> r->Err_0@ == update_empty_set_error(),
            r is Err && self@.set_clauses.len() > 0 ==> r->Err_0@ == unknown_op_error(
                first_unknown_token(self@.where_conditions),
            ),
    {
        if self.set_clauses.len() == 0 {
            return Err(Error::invalid_query("UPDATE requires SET clauses"));
        }
        match validate_conditions(&self.where_conditions) {
            Err(e) => Err(e),
            Ok(()) => {
                let mut sql = "UPDATE ".to_owned();
                sql.append(self.table_name.as_str());
                sql.append(" SET ");
                append_set_clauses(&mut sql, &self.set_clauses);
                if self.where_conditions.len() > 0 {
                    sql.append(" WHERE ");
                    append_conditions(&mut sql, &self.where_conditions);
                }
                Ok(sql)
            },
        }
    }

    /// The bound parameters: assigned values first, then condition values,
    /// matching the order of `?` placeholders in the rendered SQL.
    pub fn parameters(&self) -> (r: Vec<Value>)
        ensures
            param_views(r@) == update_params(self@),
    {
        let mut out: Vec<Value> = Vec::new();
        collect_set_params(&mut out, &self.set_clauses);
        collect_where_params(&mut out, &self.where_conditions);
        out
    }
}

pub proof fn lemma_set_clauses_sql_step(cs: Seq<(Seq<char>, ValueV)>, i: int)
    requires
        0 <= i < cs.len(),
    ensures
        set_clauses_sql(cs.take(i + 1)) == if i == 0 {
            cs[0].0 + " = ?"@
        } else {
            set_clauses_sql(cs.take(i)) + ", "@ + cs[i].0 + " = ?"@
        },
{
    assert(cs.take(i + 1).drop_last() =~= cs.take(i));
    assert(cs.take(i + 1).last() == cs[i]);
    if i == 0 {
        assert(cs.take(1).len() == 1);
        assert(cs.take(1)[0] == cs[0]);
    }
}

/// Append the rendered SET list to `sql`.
#[verifier::loop_isolation(false)]
fn append_set_clauses(sql: &mut String, cs: &Vec<(String, Value)>)
    ensures
        final(sql)@ == old(sql)@ + set_clauses_sql(set_clause_views(cs@)),
{
    let ghost cv = set_clause_views(cs@);
    let ghost base = sql@;
    let mut i: usize = 0;
    while i < cs.len()
        invariant
            0 <= i <= cs@.len(),
            sql@ == base + set_clauses_sql(cv.take(i as int)),
        decreases cs@.len() - i,
    {
        if i > 0 {
            sql.append(", ");
        }
        sql.append(cs[i].0.as_str());
        sql.append(" = ?");
        proof {
            lemma_set_clauses_sql_step(cv, i as int);
            assert(sql@ == base + set_clauses_sql(cv.take(i + 1)));
        }
        i = i + 1;
    }
    proof {
        assert(cv.take(cs@.len() as int) =~= cv);
    }
}

/// Append a clone of each assigned value to `out`, in SET order.
#[verifier::loop_isolation(false)]
fn collect_set_params(out: &mut Vec<Value>, cs: &Vec<(String, Value)>)
    ensures
        param_views(final(out)@) == param_views(old(out)@) + set_params(set_clause_views(cs@)),
{
    let ghost cv = set_clause_views(cs@);
    let ghost base = param_views(out@);
    let mut i: usize = 0;
    while i < cs.len()
        invariant
            0 <= i <= cs@.len(),
            param_views(out@) =~= base + set_params(cv.take(i as int)),
        decreases cs@.len() - i,
    {
        let v = cs[i].1.clone();
        proof {
            assert(cv[i as int] == (cs@[i as int].0@, cs@[i as int].1@));
            assert(v@ == cv[i as int].1);
        }
        let ghost prev = out@;
        let ghost vv = v@;
        out.push(v);
        proof {
            assert(out@ == prev.push(v));
            assert(param_views(out@) =~= param_views(prev).push(vv));
            assert(set_params(cv.take(i + 1)) =~= set_params(cv.take(i as int)).push(
                cv[i as int].1));
            assert(param_views(out@) =~= base + set_params(cv.take(i + 1)));
        }
        i = i + 1;
    }
    proof {
        assert(cv.take(cs@.len() as int) =~= cv);
        assert(param_views(out@) =~= base + set_params(cv));
    }
}

impl QueryBuilder for UpdateBuilderInitial {
    /// Rendering an UPDATE without SET always fails.
    fn to_sql(&self) -> (r: Result<String, Error>)
        ensures
            r is Err && r->Err_0@ == update_needs_set_error(),
    {
        Err(Error::invalid_query("UPDATE requires SET clause. Use .set() method."))
    }

    fn parameters(&self) -> (r: Vec<Value>)
        ensures
            r@.len() == 0,
    {
        Vec::new()
    }
}

impl QueryBuilder for UpdateBuilderWithSet {
    /// Rendering an UPDATE without WHERE always fails.
    fn to_sql(&self) -> (r: Result<String, Error>)
        ensures
            r is Err && r->Err_0@ == update_needs_where_error(),
    {
        Err(
            Error::invalid_query(
                "UPDATE requires WHERE clause for safety. Use .where_() or .and_where() method.",
            ),
        )
    }

    /// The values assigned so far, in SET order.
    fn parameters(&self) -> (r: Vec<Value>)
        ensures
            param_views(r@) == set_params(self@.set_clauses),
    {
        let mut out: Vec<Value> = Vec::new();
        collect_set_params(&mut out, &self.set_clauses);
        out
    }
}

impl QueryBuilder for UpdateBuilderComplete {
    fn to_sql(&self) -> (r: Result<String, Error>)
        ensures
            r is Ok <==> (self@.set_clauses.len() > 0 && all_ops_known(self@.where_conditions)),
            r is Ok ==> r->Ok_0@ == update_sql(self@),
    {
        UpdateBuilderComplete::to_sql(self)
    }

    fn parameters(&self) -> (r: Vec<Value>)
        ensures
            param_views(r@) == update_params(self@),
    {
        UpdateBuilderComplete::parameters(self)
    }
}

} // verus!
