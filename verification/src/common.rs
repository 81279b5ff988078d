//! Condition and clause records shared across all query builders.

use vstd::prelude::*;
use crate::error::Error;
use crate::operator::{IntoOperator, OpV, Operator};
use crate::value::{IntoValue, Value, ValueV};

verus! {

/// Core trait for all query builders.
pub trait QueryBuilder {
    /// Generate the SQL query string.
    fn to_sql(&self) -> Result<String, Error>;

    /// Get the parameters for the query, in placeholder order.
    fn parameters(&self) -> Vec<Value>;
}

/// How WHERE conditions are connected.
#[derive(Debug, Clone, PartialEq)]
pub enum WhereConnector {
    And,
    Or,
}

/// The text emitted before a condition at index one or later.
pub open spec fn connector_token(c: WhereConnector) -> Seq<char> {
    match c {
        WhereConnector::And => " AND "@,
        WhereConnector::Or => " OR "@,
    }
}

/// A WHERE condition.
#[derive(Debug, Clone, PartialEq)]
pub struct WhereCondition {
    pub column: String,
    pub operator: Operator,
    pub value: Value,
    pub connector: WhereConnector,
}

/// The shape of a [`WhereCondition`].
#[verifier::ext_equal]
pub struct WhereConditionV {
    pub column: Seq<char>,
    pub operator: OpV,
    pub value: ValueV,
    pub connector: WhereConnector,
}

impl View for WhereCondition {
    type V = WhereConditionV;

    open spec fn view(&self) -> WhereConditionV {
        WhereConditionV {
            column: self.column@,
            operator: self.operator@,
            value: self.value@,
            connector: self.connector,
        }
    }
}

/// Trait for conditions that can be used in WHERE clauses.
pub trait IntoCondition: Sized {
    /// The column (or function expression) the condition tests.
    spec fn cond_column(self) -> Seq<char>;

    /// The operator of the condition.
    spec fn cond_operator(self) -> OpV;

    /// The shape of the bound value.
    spec fn cond_value(self) -> ValueV;

    fn into_condition(self) -> (r: (String, Operator, Value))
        ensures
            r.0@ == self.cond_column(),
            r.1@ == self.cond_operator(),
            r.2@ == self.cond_value(),
    ;
}

/// Shorthand equality: `("age", 18)` stands for `age = 18`.
impl<T: IntoValue> IntoCondition for (&str, T) {
    open spec fn cond_column(self) -> Seq<char> {
        self.0@
    }

    open spec fn cond_operator(self) -> OpV {
        OpV::Equal
    }

    open spec fn cond_value(self) -> ValueV {
        self.1.spec_value()
    }

    fn into_condition(self) -> (r: (String, Operator, Value)) {
        (self.0.to_owned(), Operator::Equal, self.1.into_value())
    }
}

/// Explicit operator: `("age", op::GT, 18)` or `("age", ">", 18)`.
impl<O: IntoOperator, T: IntoValue> IntoCondition for (&str, O, T) {
    open spec fn cond_column(self) -> Seq<char> {
        self.0@
    }

    open spec fn cond_operator(self) -> OpV {
        self.1.spec_operator()
    }

    open spec fn cond_value(self) -> ValueV {
        self.2.spec_value()
    }

    fn into_condition(self) -> (r: (String, Operator, Value)) {
        (self.0.to_owned(), self.1.into_operator(), self.2.into_value())
    }
}

/// Aggregation function types.
#[derive(Debug, Clone, PartialEq)]
pub enum AggregateFunction {
    Count,
    CountDistinct,
    Sum,
    Avg,
    Min,
    Max,
}

/// The SQL prefix an aggregate renders to (`CountDistinct` carries its
/// opening parenthesis, matching the renderer's double-closed form).
pub open spec fn agg_text(f: AggregateFunction) -> Seq<char> {
    match f {
        AggregateFunction::Count => "COUNT"@,
        AggregateFunction::CountDistinct => "COUNT(DISTINCT"@,
        AggregateFunction::Sum => "SUM"@,
        AggregateFunction::Avg => "AVG"@,
        AggregateFunction::Min => "MIN"@,
        AggregateFunction::Max => "MAX"@,
    }
}

impl AggregateFunction {
    /// The SQL prefix this aggregate renders to.
    pub fn as_str(&self) -> (r: &'static str)
        ensures
            r@ == agg_text(*self),
    {
        match self {
            AggregateFunction::Count => "COUNT",
            AggregateFunction::CountDistinct => "COUNT(DISTINCT",
            AggregateFunction::Sum => "SUM",
            AggregateFunction::Avg => "AVG",
            AggregateFunction::Min => "MIN",
            AggregateFunction::Max => "MAX",
        }
    }
}

/// Trait to convert various types into column name lists.
pub trait IntoColumns: Sized {
    /// The column names, in order.
    spec fn spec_columns(self) -> Seq<Seq<char>>;

    fn into_columns(self) -> (r: Vec<String>)
        ensures
            r@.map_values(|s: String| s@) == self.spec_columns(),
    ;
}

impl IntoColumns for &str {
    open spec fn spec_columns(self) -> Seq<Seq<char>> {
        seq![self@]
    }

    fn into_columns(self) -> (r: Vec<String>) {
        let mut v: Vec<String> = Vec::new();
        v.push(self.to_owned());
        proof {
            assert(v@.map_values(|s: String| s@) =~= seq![self@]);
        }
        v
    }
}

impl IntoColumns for String {
    open spec fn spec_columns(self) -> Seq<Seq<char>> {
        seq![self@]
    }

    fn into_columns(self) -> (r: Vec<String>) {
        let ghost me: Seq<char> = self@;
        let mut v: Vec<String> = Vec::new();
        v.push(self);
        proof {
            assert(v@.map_values(|s: String| s@) =~= seq![me]);
        }
        v
    }
}

impl IntoColumns for Vec<String> {
    open spec fn spec_columns(self) -> Seq<Seq<char>> {
        self@.map_values(|s: String| s@)
    }

    fn into_columns(self) -> (r: Vec<String>) {
        self
    }
}

impl IntoColumns for Vec<&str> {
    open spec fn spec_columns(self) -> Seq<Seq<char>> {
        self@.map_values(|s: &str| s@)
    }

    #[verifier::loop_isolation(false)]
    fn into_columns(self) -> (r: Vec<String>) {
        let mut v: Vec<String> = Vec::new();
        let mut i: usize = 0;
        while i < self.len()
            invariant
                0 <= i <= self@.len(),
                v@.map_values(|s: String| s@) =~= self@.take(i as int).map_values(
                    |s: &str| s@,
                ),
            decreases self@.len() - i,
        {
            v.push(self[i].to_owned());
            proof {
                assert(self@.take(i + 1).map_values(|s: &str| s@) =~= self@.take(
                    i as int,
                ).map_values(|s: &str| s@).push(self@[i as int]@));
            }
            i = i + 1;
        }
        proof {
            assert(self@.take(self@.len() as int) =~= self@);
        }
        v
    }
}

impl IntoColumns for (&str, &str) {
    open spec fn spec_columns(self) -> Seq<Seq<char>> {
        seq![self.0@, self.1@]
    }

    fn into_columns(self) -> (r: Vec<String>) {
        let mut v: Vec<String> = Vec::new();
        v.push(self.0.to_owned());
        v.push(self.1.to_owned());
        proof {
            assert(v@.map_values(|s: String| s@) =~= seq![self.0@, self.1@]);
        }
        v
    }
}

impl IntoColumns for (&str, &str, &str) {
    open spec fn spec_columns(self) -> Seq<Seq<char>> {
        seq![self.0@, self.1@, self.2@]
    }

    fn into_columns(self) -> (r: Vec<String>) {
        let mut v: Vec<String> = Vec::new();
        v.push(self.0.to_owned());
        v.push(self.1.to_owned());
        v.push(self.2.to_owned());
        proof {
            assert(v@.map_values(|s: String| s@) =~= seq![self.0@, self.1@, self.2@]);
        }
        v
    }
}

impl IntoColumns for (&str, &str, &str, &str) {
    open spec fn spec_columns(self) -> Seq<Seq<char>> {
        seq![self.0@, self.1@, self.2@, self.3@]
    }

    fn into_columns(self) -> (r: Vec<String>) {
        let mut v: Vec<String> = Vec::new();
        v.push(self.0.to_owned());
        v.push(self.1.to_owned());
        v.push(self.2.to_owned());
        v.push(self.3.to_owned());
        proof {
            assert(v@.map_values(|s: String| s@) =~= seq![
                self.0@,
                self.1@,
                self.2@,
                self.3@,
            ]);
        }
        v
    }
}

impl IntoColumns for (&str, &str, &str, &str, &str) {
    open spec fn spec_columns(self) -> Seq<Seq<char>> {
        seq![self.0@, self.1@, self.2@, self.3@, self.4@]
    }

    fn into_columns(self) -> (r: Vec<String>) {
        let mut v: Vec<String> = Vec::new();
        v.push(self.0.to_owned());
        v.push(self.1.to_owned());
        v.push(self.2.to_owned());
        v.push(self.3.to_owned());
        v.push(self.4.to_owned());
        proof {
            assert(v@.map_values(|s: String| s@) =~= seq![
                self.0@,
                self.1@,
                self.2@,
                self.3@,
                self.4@,
            ]);
        }
        v
    }
}

/// JOIN types.
#[derive(Debug, Clone, PartialEq)]
pub enum JoinType {
    Inner,
    Left,
    Right,
    Full,
    Cross,
}

/// The keyword a join type renders to, before `JOIN`.
pub open spec fn join_type_text(t: JoinType) -> Seq<char> {
    match t {
        JoinType::Inner => "INNER"@,
        JoinType::Left => "LEFT"@,
        JoinType::Right => "RIGHT"@,
        JoinType::Full => "FULL OUTER"@,
        JoinType::Cross => "CROSS"@,
    }
}

impl JoinType {
    /// The keyword this join type renders to.
    pub fn as_str(&self) -> (r: &'static str)
        ensures
            r@ == join_type_text(*self),
    {
        match self {
            JoinType::Inner => "INNER",
            JoinType::Left => "LEFT",
            JoinType::Right => "RIGHT",
            JoinType::Full => "FULL OUTER",
            JoinType::Cross => "CROSS",
        }
    }
}

/// How JOIN conditions are connected.
#[derive(Debug, Clone, PartialEq)]
pub enum JoinConnector {
    And,
    Or,
}

/// The text emitted before an ON condition at index one or later.
pub open spec fn join_connector_token(c: JoinConnector) -> Seq<char> {
    match c {
        JoinConnector::And => " AND "@,
        JoinConnector::Or => " OR "@,
    }
}

/// A condition in a JOIN ON clause.
#[derive(Debug, Clone, PartialEq)]
pub struct JoinCondition {
    pub left_column: String,
    pub operator: Operator,
    pub right_column: String,
    pub connector: JoinConnector,
}

/// The shape of a [`JoinCondition`].
#[verifier::ext_equal]
pub struct JoinConditionV {
    pub left_column: Seq<char>,
    pub operator: OpV,
    pub right_column: Seq<char>,
    pub connector: JoinConnector,
}

impl View for JoinCondition {
    type V = JoinConditionV;

    open spec fn view(&self) -> JoinConditionV {
        JoinConditionV {
            left_column: self.left_column@,
            operator: self.operator@,
            right_column: self.right_column@,
            connector: self.connector,
        }
    }
}

/// A complete JOIN clause with table and conditions.
#[derive(Debug, Clone, PartialEq)]
pub struct JoinClause {
    pub join_type: JoinType,
    pub table: String,
    pub on_conditions: Vec<JoinCondition>,
}

/// The shape of a [`JoinClause`].
#[verifier::ext_equal]
pub struct JoinClauseV {
    pub join_type: JoinType,
    pub table: Seq<char>,
    pub on_conditions: Seq<JoinConditionV>,
}

impl View for JoinClause {
    type V = JoinClauseV;

    open spec fn view(&self) -> JoinClauseV {
        JoinClauseV {
            join_type: self.join_type,
            table: self.table@,
            on_conditions: self.on_conditions@.map_values(|c: JoinCondition| c@),
        }
    }
}

/// Sort direction for ORDER BY clauses.
#[derive(Debug, Clone, PartialEq)]
pub enum SortDirection {
    Asc,
    Desc,
}

/// The keyword a sort direction renders to.
pub open spec fn sort_direction_text(d: SortDirection) -> Seq<char> {
    match d {
        SortDirection::Asc => "ASC"@,
        SortDirection::Desc => "DESC"@,
    }
}

impl SortDirection {
    /// The keyword this direction renders to.
    pub fn as_str(&self) -> (r: &'static str)
        ensures
            r@ == sort_direction_text(*self),
    {
        match self {
            SortDirection::Asc => "ASC",
            SortDirection::Desc => "DESC",
        }
    }
}

/// An ORDER BY clause.
#[derive(Debug, Clone, PartialEq)]
pub struct OrderByClause {
    pub column: String,
    pub direction: SortDirection,
}

/// The shape of an [`OrderByClause`].
#[verifier::ext_equal]
pub struct OrderByClauseV {
    pub column: Seq<char>,
    pub direction: SortDirection,
}

impl View for OrderByClause {
    type V = OrderByClauseV;

    open spec fn view(&self) -> OrderByClauseV {
        OrderByClauseV { column: self.column@, direction: self.direction }
    }
}

/// A GROUP BY clause.
#[derive(Debug, Clone, PartialEq)]
pub struct GroupByClause {
    pub columns: Vec<String>,
}

/// The shape of a [`GroupByClause`].
#[verifier::ext_equal]
pub struct GroupByClauseV {
    pub columns: Seq<Seq<char>>,
}

impl View for GroupByClause {
    type V = GroupByClauseV;

    open spec fn view(&self) -> GroupByClauseV {
        GroupByClauseV { columns: self.columns@.map_values(|s: String| s@) }
    }
}

/// A HAVING condition (used with GROUP BY).
#[derive(Debug, Clone, PartialEq)]
pub struct HavingCondition {
    pub column_or_function: String,
    pub operator: Operator,
    pub value: Value,
    pub connector: WhereConnector,
}

/// The shape of a [`HavingCondition`].
#[verifier::ext_equal]
pub struct HavingConditionV {
    pub column_or_function: Seq<char>,
    pub operator: OpV,
    pub value: ValueV,
    pub connector: WhereConnector,
}

impl View for HavingCondition {
    type V = HavingConditionV;

    open spec fn view(&self) -> HavingConditionV {
        HavingConditionV {
            column_or_function: self.column_or_function@,
            operator: self.operator@,
            value: self.value@,
            connector: self.connector,
        }
    }
}

} // verus!
