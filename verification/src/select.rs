//! SELECT query builder.
//!
//! A SELECT starts in an initial state that accumulates any clause but
//! cannot render; declaring the column list moves it to the complete
//! state, which renders and can also be boxed as a subquery inside another
//! builder. Subqueries nest without bound: a condition or a selected
//! column may carry a whole nested SELECT, and rendering recurses into it.

use vstd::prelude::*;
use vstd::string::StrSliceExecFns;
use crate::common::{
    agg_text, connector_token, join_connector_token, join_type_text, sort_direction_text,
    AggregateFunction, GroupByClause, GroupByClauseV, HavingCondition, HavingConditionV,
    IntoColumns, IntoCondition, JoinClause, JoinClauseV, JoinCondition, JoinConditionV, JoinType,
    OrderByClause, OrderByClauseV, QueryBuilder, SortDirection, WhereCondition, WhereConditionV,
    WhereConnector,
};
use crate::error::{Error, ErrorV};
use crate::operator::{op_is_known, op_text, unknown_op_error, IntoOperator, OpV, Operator};
use crate::render::{
    all_ops_known, comma_join, cond_views, conditions_sql, first_unknown_token, param_views,
    push_char, where_params,
};
use crate::value::{Value, ValueV};

verus! {

/// Column selector that can be a regular column, an aggregation, or a
/// whole scalar subquery.
#[derive(Debug)]
pub enum ColumnSelector {
    Column(String),
    Aggregate { function: AggregateFunction, column: String, alias: Option<String> },
    CountAll { alias: Option<String> },
    SubqueryColumn { subquery: Subquery, alias: Option<String> },
}

/// Subquery wrapper for use in conditions and selected columns. It owns a
/// complete nested SELECT builder.
#[derive(Debug)]
pub struct Subquery {
    pub query: Box<SelectBuilderComplete>,
}

/// A subquery condition, for `WHERE IN`, `WHERE EXISTS` and their
/// negations.
#[derive(Debug)]
pub struct SubqueryCondition {
    pub column: String,
    pub operator: Operator,
    pub subquery: Subquery,
    pub connector: WhereConnector,
}

/// SELECT query builder in initial state (before `select` is called).
/// Clauses of every kind accumulate here, but it cannot render.
#[derive(Debug)]
pub struct SelectBuilderInitial {
    table_name: String,
    where_conditions: Vec<WhereCondition>,
    subquery_conditions: Vec<SubqueryCondition>,
    join_clauses: Vec<JoinClause>,
    order_by_clauses: Vec<OrderByClause>,
    group_by_clause: Option<GroupByClause>,
    having_conditions: Vec<HavingCondition>,
    distinct: bool,
    limit_value: Option<u64>,
    offset_value: Option<u64>,
}

/// SELECT query builder in complete state (after `select` is called).
#[derive(Debug)]
pub struct SelectBuilderComplete {
    pub table_name: String,
    pub selected_columns: Vec<ColumnSelector>,
    pub where_conditions: Vec<WhereCondition>,
    pub subquery_conditions: Vec<SubqueryCondition>,
    pub join_clauses: Vec<JoinClause>,
    pub order_by_clauses: Vec<OrderByClause>,
    pub group_by_clause: Option<GroupByClause>,
    pub having_conditions: Vec<HavingCondition>,
    pub distinct: bool,
    pub limit_value: Option<u64>,
    pub offset_value: Option<u64>,
}

/// The shape of a [`ColumnSelector`].
#[verifier::ext_equal]
pub enum ColumnSelectorV {
    Column(Seq<char>),
    Aggregate { function: AggregateFunction, column: Seq<char>, alias: Option<Seq<char>> },
    CountAll { alias: Option<Seq<char>> },
    SubqueryColumn { subquery: SelectV, alias: Option<Seq<char>> },
}

/// The shape of a [`SubqueryCondition`].
#[verifier::ext_equal]
pub struct SubqueryConditionV {
    pub column: Seq<char>,
    pub operator: OpV,
    pub subquery: SelectV,
    pub connector: WhereConnector,
}

/// The shape of a [`SelectBuilderComplete`], and of the nested SELECT a
/// [`Subquery`] carries.
#[verifier::ext_equal]
pub struct SelectV {
    pub table_name: Seq<char>,
    pub selected_columns: Seq<ColumnSelectorV>,
    pub where_conditions: Seq<WhereConditionV>,
    pub subquery_conditions: Seq<SubqueryConditionV>,
    pub join_clauses: Seq<JoinClauseV>,
    pub order_by_clauses: Seq<OrderByClauseV>,
    pub group_by_clause: Option<GroupByClauseV>,
    pub having_conditions: Seq<HavingConditionV>,
    pub distinct: bool,
    pub limit_value: Option<u64>,
    pub offset_value: Option<u64>,
}

/// The shape of a [`SelectBuilderInitial`].
#[verifier::ext_equal]
pub struct SelectInitialV {
    pub table_name: Seq<char>,
    pub where_conditions: Seq<WhereConditionV>,
    pub subquery_conditions: Seq<SubqueryConditionV>,
    pub join_clauses: Seq<JoinClauseV>,
    pub order_by_clauses: Seq<OrderByClauseV>,
    pub group_by_clause: Option<GroupByClauseV>,
    pub having_conditions: Seq<HavingConditionV>,
    pub distinct: bool,
    pub limit_value: Option<u64>,
    pub offset_value: Option<u64>,
}

/// The shape of one selected column.
pub open spec fn selector_view(c: ColumnSelector) -> ColumnSelectorV
    decreases c,
{
    match c {
        ColumnSelector::Column(name) => ColumnSelectorV::Column(name@),
        ColumnSelector::Aggregate { function, column, alias } => ColumnSelectorV::Aggregate {
            function,
            column: column@,
            alias: alias_view(alias),
        },
        ColumnSelector::CountAll { alias } => ColumnSelectorV::CountAll {
            alias: alias_view(alias),
        },
        ColumnSelector::SubqueryColumn { subquery, alias } => ColumnSelectorV::SubqueryColumn {
            subquery: select_view(*subquery.query),
            alias: alias_view(alias),
        },
    }
}

/// The shape of an optional alias.
pub open spec fn alias_view(a: Option<String>) -> Option<Seq<char>> {
    match a {
        Some(s) => Some(s@),
        None => None,
    }
}

/// The shapes of the selected columns, in order.
pub open spec fn selector_views(s: Seq<ColumnSelector>) -> Seq<ColumnSelectorV>
    decreases s,
{
    if s.len() == 0 {
        Seq::empty()
    } else {
        selector_views(s.drop_last()).push(selector_view(s.last()))
    }
}

/// The shape of one subquery condition.
pub open spec fn subcond_view(c: SubqueryCondition) -> SubqueryConditionV
    decreases c,
{
    SubqueryConditionV {
        column: c.column@,
        operator: c.operator@,
        subquery: select_view(*c.subquery.query),
        connector: c.connector,
    }
}

/// The shapes of the subquery conditions, in order.
pub open spec fn subcond_views(s: Seq<SubqueryCondition>) -> Seq<SubqueryConditionV>
    decreases s,
{
    if s.len() == 0 {
        Seq::empty()
    } else {
        subcond_views(s.drop_last()).push(subcond_view(s.last()))
    }
}

/// The shape of a complete SELECT builder.
pub open spec fn select_view(b: SelectBuilderComplete) -> SelectV
    decreases b,
{
    SelectV {
        table_name: b.table_name@,
        selected_columns: selector_views(b.selected_columns@),
        where_conditions: cond_views(b.where_conditions@),
        subquery_conditions: subcond_views(b.subquery_conditions@),
        join_clauses: b.join_clauses@.map_values(|j: JoinClause| j@),
        order_by_clauses: b.order_by_clauses@.map_values(|o: OrderByClause| o@),
        group_by_clause: match b.group_by_clause {
            Some(g) => Some(g@),
            None => None,
        },
        having_conditions: b.having_conditions@.map_values(|h: HavingCondition| h@),
        distinct: b.distinct,
        limit_value: b.limit_value,
        offset_value: b.offset_value,
    }
}

impl View for ColumnSelector {
    type V = ColumnSelectorV;

    open spec fn view(&self) -> ColumnSelectorV {
        selector_view(*self)
    }
}

impl View for SubqueryCondition {
    type V = SubqueryConditionV;

    open spec fn view(&self) -> SubqueryConditionV {
        subcond_view(*self)
    }
}

impl View for SelectBuilderComplete {
    type V = SelectV;

    open spec fn view(&self) -> SelectV {
        select_view(*self)
    }
}

impl View for Subquery {
    type V = SelectV;

    open spec fn view(&self) -> SelectV {
        select_view(*self.query)
    }
}

impl View for SelectBuilderInitial {
    type V = SelectInitialV;

    closed spec fn view(&self) -> SelectInitialV {
        SelectInitialV {
            table_name: self.table_name@,
            where_conditions: cond_views(self.where_conditions@),
            subquery_conditions: subcond_views(self.subquery_conditions@),
            join_clauses: self.join_clauses@.map_values(|j: JoinClause| j@),
            order_by_clauses: self.order_by_clauses@.map_values(|o: OrderByClause| o@),
            group_by_clause: match self.group_by_clause {
                Some(g) => Some(g@),
                None => None,
            },
            having_conditions: self.having_conditions@.map_values(|h: HavingCondition| h@),
            distinct: self.distinct,
            limit_value: self.limit_value,
            offset_value: self.offset_value,
        }
    }
}

pub broadcast proof fn selector_views_props(s: Seq<ColumnSelector>)
    ensures
        #[trigger] selector_views(s).len() == s.len(),
        forall|i: int| 0 <= i < s.len() ==> selector_views(s)[i] == selector_view(s[i]),
    decreases s,
{
    if s.len() > 0 {
        selector_views_props(s.drop_last());
        assert forall|i: int| 0 <= i < s.len() implies selector_views(s)[i] == selector_view(
            s[i],
        ) by {
            if i < s.len() - 1 {
                assert(s.drop_last()[i] == s[i]);
            }
        }
    }
}

pub broadcast proof fn subcond_views_props(s: Seq<SubqueryCondition>)
    ensures
        #[trigger] subcond_views(s).len() == s.len(),
        forall|i: int| 0 <= i < s.len() ==> subcond_views(s)[i] == subcond_view(s[i]),
    decreases s,
{
    if s.len() > 0 {
        subcond_views_props(s.drop_last());
        assert forall|i: int| 0 <= i < s.len() implies subcond_views(s)[i] == subcond_view(
            s[i],
        ) by {
            if i < s.len() - 1 {
                assert(s.drop_last()[i] == s[i]);
            }
        }
    }
}

impl ColumnSelector {
    /// Create a plain column selector.
    pub fn column(name: &str) -> (r: Self)
        ensures
            r@ == ColumnSelectorV::Column(name@),
    {
        ColumnSelector::Column(name.to_owned())
    }

    /// Create a `COUNT(*)` selector.
    pub fn count() -> (r: Self)
        ensures
            r@ == (ColumnSelectorV::CountAll { alias: None }),
    {
        ColumnSelector::CountAll { alias: None }
    }

    /// Create a `COUNT(*)` selector with an alias.
    pub fn count_as(alias: &str) -> (r: Self)
        ensures
            r@ == (ColumnSelectorV::CountAll { alias: Some(alias@) }),
    {
        ColumnSelector::CountAll { alias: Some(alias.to_owned()) }
    }

    /// Create a `COUNT(column)` selector.
    pub fn count_column(column: &str) -> (r: Self)
        ensures
            r@ == (ColumnSelectorV::Aggregate {
                function: AggregateFunction::Count,
                column: column@,
                alias: None,
            }),
    {
        ColumnSelector::Aggregate {
            function: AggregateFunction::Count,
            column: column.to_owned(),
            alias: None,
        }
    }

    /// Create a `COUNT(DISTINCT(column))` selector.
    pub fn count_distinct(column: &str) -> (r: Self)
        ensures
            r@ == (ColumnSelectorV::Aggregate {
                function: AggregateFunction::CountDistinct,
                column: column@,
                alias: None,
            }),
    {
        ColumnSelector::Aggregate {
            function: AggregateFunction::CountDistinct,
            column: column.to_owned(),
            alias: None,
        }
    }

    /// Create a `SUM(column)` selector.
    pub fn sum(column: &str) -> (r: Self)
        ensures
            r@ == (ColumnSelectorV::Aggregate {
                function: AggregateFunction::Sum,
                column: column@,
                alias: None,
            }),
    {
        ColumnSelector::Aggregate {
            function: AggregateFunction::Sum,
            column: column.to_owned(),
            alias: None,
        }
    }

    /// Create an `AVG(column)` selector.
    pub fn avg(column: &str) -> (r: Self)
        ensures
            r@ == (ColumnSelectorV::Aggregate {
                function: AggregateFunction::Avg,
                column: column@,
                alias: None,
            }),
    {
        ColumnSelector::Aggregate {
            function: AggregateFunction::Avg,
            column: column.to_owned(),
            alias: None,
        }
    }

    /// Create a `MIN(column)` selector.
    pub fn min(column: &str) -> (r: Self)
        ensures
            r@ == (ColumnSelectorV::Aggregate {
                function: AggregateFunction::Min,
                column: column@,
                alias: None,
            }),
    {
        ColumnSelector::Aggregate {
            function: AggregateFunction::Min,
            column: column.to_owned(),
            alias: None,
        }
    }

    /// Create a `MAX(column)` selector.
    pub fn max(column: &str) -> (r: Self)
        ensures
            r@ == (ColumnSelectorV::Aggregate {
                function: AggregateFunction::Max,
                column: column@,
                alias: None,
            }),
    {
        ColumnSelector::Aggregate {
            function: AggregateFunction::Max,
            column: column.to_owned(),
            alias: None,
        }
    }

    /// Set the alias of this selector. Aggregates, `COUNT(*)` and subquery
    /// columns take the alias; on a plain column this is a no-op, a
    /// documented limitation of the data model.
    pub fn as_alias(self, alias: &str) -> (r: Self)
        ensures
            r@ == spec_with_alias(self@, alias@),
    {
        match self {
            ColumnSelector::Column(name) => ColumnSelector::Column(name),
            ColumnSelector::Aggregate { function, column, alias: _ } => {
                ColumnSelector::Aggregate { function, column, alias: Some(alias.to_owned()) }
            },
            ColumnSelector::CountAll { alias: _ } => {
                ColumnSelector::CountAll { alias: Some(alias.to_owned()) }
            },
            ColumnSelector::SubqueryColumn { subquery, alias: _ } => {
                ColumnSelector::SubqueryColumn { subquery, alias: Some(alias.to_owned()) }
            },
        }
    }

    /// Create a subquery column selector with an alias.
    pub fn subquery_as(query: SelectBuilderComplete, alias: &str) -> (r: Self)
        ensures
            r@ == (ColumnSelectorV::SubqueryColumn {
                subquery: query@,
                alias: Some(alias@),
            }),
    {
        ColumnSelector::SubqueryColumn {
            subquery: Subquery::new(query),
            alias: Some(alias.to_owned()),
        }
    }
}

/// The selector with its alias slot replaced, on the variants that carry
/// one; a plain column is returned unchanged.
pub open spec fn spec_with_alias(c: ColumnSelectorV, alias: Seq<char>) -> ColumnSelectorV {
    match c {
        ColumnSelectorV::Column(name) => ColumnSelectorV::Column(name),
        ColumnSelectorV::Aggregate { function, column, alias: _ } => ColumnSelectorV::Aggregate {
            function,
            column,
            alias: Some(alias),
        },
        ColumnSelectorV::CountAll { alias: _ } => ColumnSelectorV::CountAll {
            alias: Some(alias),
        },
        ColumnSelectorV::SubqueryColumn { subquery, alias: _ } => ColumnSelectorV::SubqueryColumn {
            subquery,
            alias: Some(alias),
        },
    }
}

impl Subquery {
    /// Create a new subquery from a complete SELECT builder.
    pub fn new(query: SelectBuilderComplete) -> (r: Self)
        ensures
            r@ == query@,
    {
        Self { query: Box::new(query) }
    }
}

/// Trait to convert various types into column selector lists.
pub trait IntoColumnSelectors: Sized {
    /// The shapes of the selectors, in order.
    spec fn spec_selectors(self) -> Seq<ColumnSelectorV>;

    fn into_column_selectors(self) -> (r: Vec<ColumnSelector>)
        ensures
            selector_views(r@) == self.spec_selectors(),
    ;
}

impl IntoColumnSelectors for &str {
    open spec fn spec_selectors(self) -> Seq<ColumnSelectorV> {
        seq![ColumnSelectorV::Column(self@)]
    }

    fn into_column_selectors(self) -> (r: Vec<ColumnSelector>) {
        let mut v: Vec<ColumnSelector> = Vec::new();
        v.push(ColumnSelector::Column(self.to_owned()));
        proof {
            selector_views_props(v@);
            assert(selector_views(v@) =~= seq![ColumnSelectorV::Column(self@)]);
        }
        v
    }
}

impl IntoColumnSelectors for String {
    open spec fn spec_selectors(self) -> Seq<ColumnSelectorV> {
        seq![ColumnSelectorV::Column(self@)]
    }

    fn into_column_selectors(self) -> (r: Vec<ColumnSelector>) {
        let ghost me: Seq<char> = self@;
        let mut v: Vec<ColumnSelector> = Vec::new();
        v.push(ColumnSelector::Column(self));
        proof {
            selector_views_props(v@);
            assert(selector_views(v@) =~= seq![ColumnSelectorV::Column(me)]);
        }
        v
    }
}

impl IntoColumnSelectors for ColumnSelector {
    open spec fn spec_selectors(self) -> Seq<ColumnSelectorV> {
        seq![selector_view(self)]
    }

    fn into_column_selectors(self) -> (r: Vec<ColumnSelector>) {
        let ghost me = selector_view(self);
        let mut v: Vec<ColumnSelector> = Vec::new();
        v.push(self);
        proof {
            selector_views_props(v@);
            assert(selector_views(v@) =~= seq![me]);
        }
        v
    }
}

impl IntoColumnSelectors for Vec<ColumnSelector> {
    open spec fn spec_selectors(self) -> Seq<ColumnSelectorV> {
        selector_views(self@)
    }

    fn into_column_selectors(self) -> (r: Vec<ColumnSelector>) {
        self
    }
}

impl IntoColumnSelectors for Vec<String> {
    open spec fn spec_selectors(self) -> Seq<ColumnSelectorV> {
        self@.map_values(|s: String| ColumnSelectorV::Column(s@))
    }

    #[verifier::loop_isolation(false)]
    fn into_column_selectors(self) -> (r: Vec<ColumnSelector>) {
        let mut items = self;
        let ghost all = items@;
        let n0 = items.len();
        proof {
            assert(all.len() == n0);
        }
        let mut v: Vec<ColumnSelector> = Vec::new();
        let mut i: usize = 0;
        while items.len() > 0
            invariant
                i + items@.len() == all.len(),
                items@ =~= all.skip(i as int),
                v@.len() == i,
                forall|j: int|
                    0 <= j < i ==> selector_views(v@)[j] == ColumnSelectorV::Column(
                        #[trigger] all[j]@,
                    ),
            decreases items@.len(),
        {
            let s = items.remove(0);
            let ghost prev = v@;
            v.push(ColumnSelector::Column(s));
            proof {
                selector_views_props(v@);
                selector_views_props(prev);
                assert(v@.drop_last() =~= prev);
            }
            i = i + 1;
        }
        proof {
            selector_views_props(v@);
            assert(selector_views(v@) =~= all.map_values(
                |s: String| ColumnSelectorV::Column(s@),
            ));
        }
        v
    }
}

impl IntoColumnSelectors for Vec<&str> {
    open spec fn spec_selectors(self) -> Seq<ColumnSelectorV> {
        self@.map_values(|s: &str| ColumnSelectorV::Column(s@))
    }

    #[verifier::loop_isolation(false)]
    fn into_column_selectors(self) -> (r: Vec<ColumnSelector>) {
        let mut v: Vec<ColumnSelector> = Vec::new();
        let mut i: usize = 0;
        while i < self.len()
            invariant
                0 <= i <= self@.len(),
                v@.len() == i,
                forall|j: int|
                    0 <= j < i ==> selector_views(v@)[j] == ColumnSelectorV::Column(
                        #[trigger] self@[j]@,
                    ),
            decreases self@.len() - i,
        {
            let ghost prev = v@;
            v.push(ColumnSelector::Column(self[i].to_owned()));
            proof {
                selector_views_props(v@);
                selector_views_props(prev);
                assert(v@.drop_last() =~= prev);
            }
            i = i + 1;
        }
        proof {
            selector_views_props(v@);
            assert(selector_views(v@) =~= self@.map_values(
                |s: &str| ColumnSelectorV::Column(s@),
            ));
        }
        v
    }
}

impl IntoColumnSelectors for (&str, &str) {
    open spec fn spec_selectors(self) -> Seq<ColumnSelectorV> {
        seq![ColumnSelectorV::Column(self.0@), ColumnSelectorV::Column(self.1@)]
    }

    fn into_column_selectors(self) -> (r: Vec<ColumnSelector>) {
        let mut v: Vec<ColumnSelector> = Vec::new();
        v.push(ColumnSelector::Column(self.0.to_owned()));
        v.push(ColumnSelector::Column(self.1.to_owned()));
        proof {
            selector_views_props(v@);
            assert(selector_views(v@) =~= self.spec_selectors());
        }
        v
    }
}

impl IntoColumnSelectors for (&str, &str, &str) {
    open spec fn spec_selectors(self) -> Seq<ColumnSelectorV> {
        seq![
            ColumnSelectorV::Column(self.0@),
            ColumnSelectorV::Column(self.1@),
            ColumnSelectorV::Column(self.2@),
        ]
    }

    fn into_column_selectors(self) -> (r: Vec<ColumnSelector>) {
        let mut v: Vec<ColumnSelector> = Vec::new();
        v.push(ColumnSelector::Column(self.0.to_owned()));
        v.push(ColumnSelector::Column(self.1.to_owned()));
        v.push(ColumnSelector::Column(self.2.to_owned()));
        proof {
            selector_views_props(v@);
            assert(selector_views(v@) =~= self.spec_selectors());
        }
        v
    }
}

impl IntoColumnSelectors for (&str, &str, &str, &str) {
    open spec fn spec_selectors(self) -> Seq<ColumnSelectorV> {
        seq![
            ColumnSelectorV::Column(self.0@),
            ColumnSelectorV::Column(self.1@),
            ColumnSelectorV::Column(self.2@),
            ColumnSelectorV::Column(self.3@),
        ]
    }

    fn into_column_selectors(self) -> (r: Vec<ColumnSelector>) {
        let mut v: Vec<ColumnSelector> = Vec::new();
        v.push(ColumnSelector::Column(self.0.to_owned()));
        v.push(ColumnSelector::Column(self.1.to_owned()));
        v.push(ColumnSelector::Column(self.2.to_owned()));
        v.push(ColumnSelector::Column(self.3.to_owned()));
        proof {
            selector_views_props(v@);
            assert(selector_views(v@) =~= self.spec_selectors());
        }
        v
    }
}

impl IntoColumnSelectors for (&str, &str, &str, &str, &str) {
    open spec fn spec_selectors(self) -> Seq<ColumnSelectorV> {
        seq![
            ColumnSelectorV::Column(self.0@),
            ColumnSelectorV::Column(self.1@),
            ColumnSelectorV::Column(self.2@),
            ColumnSelectorV::Column(self.3@),
            ColumnSelectorV::Column(self.4@),
        ]
    }

    fn into_column_selectors(self) -> (r: Vec<ColumnSelector>) {
        let mut v: Vec<ColumnSelector> = Vec::new();
        v.push(ColumnSelector::Column(self.0.to_owned()));
        v.push(ColumnSelector::Column(self.1.to_owned()));
        v.push(ColumnSelector::Column(self.2.to_owned()));
        v.push(ColumnSelector::Column(self.3.to_owned()));
        v.push(ColumnSelector::Column(self.4.to_owned()));
        proof {
            selector_views_props(v@);
            assert(selector_views(v@) =~= self.spec_selectors());
        }
        v
    }
}

impl IntoColumnSelectors for (&str, ColumnSelector) {
    open spec fn spec_selectors(self) -> Seq<ColumnSelectorV> {
        seq![ColumnSelectorV::Column(self.0@), selector_view(self.1)]
    }

    fn into_column_selectors(self) -> (r: Vec<ColumnSelector>) {
        let ghost me = self.spec_selectors();
        let mut v: Vec<ColumnSelector> = Vec::new();
        v.push(ColumnSelector::Column(self.0.to_owned()));
        v.push(self.1);
        proof {
            selector_views_props(v@);
            assert(selector_views(v@) =~= me);
        }
        v
    }
}

impl IntoColumnSelectors for (&str, ColumnSelector, ColumnSelector) {
    open spec fn spec_selectors(self) -> Seq<ColumnSelectorV> {
        seq![ColumnSelectorV::Column(self.0@), selector_view(self.1), selector_view(self.2)]
    }

    fn into_column_selectors(self) -> (r: Vec<ColumnSelector>) {
        let ghost me = self.spec_selectors();
        let mut v: Vec<ColumnSelector> = Vec::new();
        v.push(ColumnSelector::Column(self.0.to_owned()));
        v.push(self.1);
        v.push(self.2);
        proof {
            selector_views_props(v@);
            assert(selector_views(v@) =~= me);
        }
        v
    }
}

impl IntoColumnSelectors for (ColumnSelector, &str, ColumnSelector) {
    open spec fn spec_selectors(self) -> Seq<ColumnSelectorV> {
        seq![selector_view(self.0), ColumnSelectorV::Column(self.1@), selector_view(self.2)]
    }

    fn into_column_selectors(self) -> (r: Vec<ColumnSelector>) {
        let ghost me = self.spec_selectors();
        let mut v: Vec<ColumnSelector> = Vec::new();
        let middle = self.1.to_owned();
        v.push(self.0);
        v.push(ColumnSelector::Column(middle));
        v.push(self.2);
        proof {
            selector_views_props(v@);
            assert(selector_views(v@) =~= me);
        }
        v
    }
}

} // verus!
verus! {

// ---------------------------------------------------------------------
// The rendering specification. `select_render` gives the full outcome of
// rendering a SELECT of a given shape: either the exact SQL text or the
// exact error. It recurses into nested subqueries the way the executable
// renderer does.
// ---------------------------------------------------------------------

/// A rendered piece followed by its optional ` AS <alias>` suffix.
pub open spec fn with_alias(t: Seq<char>, alias: Option<Seq<char>>) -> Seq<char> {
    match alias {
        None => t,
        Some(a) => t + " AS "@ + a,
    }
}

/// The text of an aggregate selector; `COUNT(DISTINCT` carries its extra
/// opening parenthesis, so the rendered form closes twice.
pub open spec fn agg_selector_text(f: AggregateFunction, column: Seq<char>) -> Seq<char> {
    if f is CountDistinct {
        agg_text(f) + "("@ + column + "))"@
    } else {
        agg_text(f) + "("@ + column + ")"@
    }
}

/// The rendered text of one selected column, or the error of its nested
/// subquery.
pub open spec fn selector_render(c: ColumnSelectorV) -> Result<Seq<char>, ErrorV>
    decreases c,
{
    match c {
        ColumnSelectorV::Column(name) => Ok(name),
        ColumnSelectorV::Aggregate { function, column, alias } => Ok(
            with_alias(agg_selector_text(function, column), alias),
        ),
        ColumnSelectorV::CountAll { alias } => Ok(with_alias("COUNT(*)"@, alias)),
        ColumnSelectorV::SubqueryColumn { subquery, alias } => match select_render(subquery) {
            Ok(t) => Ok(with_alias("("@ + t + ")"@, alias)),
            Err(e) => Err(e),
        },
    }
}

/// The rendered column list, `, `-joined, or the first error among the
/// columns in order.
pub open spec fn selectors_render(s: Seq<ColumnSelectorV>) -> Result<Seq<char>, ErrorV>
    decreases s,
{
    if s.len() == 0 {
        Ok(Seq::empty())
    } else if s.len() == 1 {
        selector_render(s[0])
    } else {
        match selectors_render(s.drop_last()) {
            Err(e) => Err(e),
            Ok(t) => match selector_render(s.last()) {
                Err(e) => Err(e),
                Ok(u) => Ok(t + ", "@ + u),
            },
        }
    }
}

/// The head of a subquery condition: column (omitted entirely when empty,
/// as for EXISTS), operator token, and the space before the parenthesized
/// subquery.
pub open spec fn subcond_head(c: SubqueryConditionV) -> Seq<char> {
    c.column + (if c.column.len() > 0 {
        " "@
    } else {
        Seq::empty()
    }) + op_text(c.operator) + " "@
}

/// The rendered subquery conditions, or the first nested error in order.
/// `has_prior` says whether plain conditions already stand in the same
/// WHERE section, so that every subquery condition needs its connector.
pub open spec fn subconds_render(s: Seq<SubqueryConditionV>, has_prior: bool) -> Result<
    Seq<char>,
    ErrorV,
>
    decreases s,
{
    if s.len() == 0 {
        Ok(Seq::empty())
    } else {
        match subconds_render(s.drop_last(), has_prior) {
            Err(e) => Err(e),
            Ok(t) => match select_render(s.last().subquery) {
                Err(e) => Err(e),
                Ok(q) => Ok(
                    t + (if has_prior || s.len() > 1 {
                        connector_token(s.last().connector)
                    } else {
                        Seq::empty()
                    }) + subcond_head(s.last()) + "("@ + q + ")"@,
                ),
            },
        }
    }
}

/// The text of one JOIN ON condition.
pub open spec fn join_cond_text(c: JoinConditionV) -> Seq<char> {
    c.left_column + " "@ + op_text(c.operator) + " "@ + c.right_column
}

/// The ON conditions of one join, connectors interleaved.
pub open spec fn join_conds_sql(cs: Seq<JoinConditionV>) -> Seq<char>
    decreases cs,
{
    if cs.len() == 0 {
        Seq::empty()
    } else if cs.len() == 1 {
        join_cond_text(cs[0])
    } else {
        join_conds_sql(cs.drop_last()) + join_connector_token(cs.last().connector)
            + join_cond_text(cs.last())
    }
}

/// The text of one JOIN clause, leading space included. A CROSS join
/// never renders an ON section.
pub open spec fn join_sql(j: JoinClauseV) -> Seq<char> {
    " "@ + join_type_text(j.join_type) + " JOIN "@ + j.table + (if j.on_conditions.len() > 0
        && !(j.join_type is Cross) {
        " ON "@ + join_conds_sql(j.on_conditions)
    } else {
        Seq::empty()
    })
}

/// All JOIN clauses, in order.
pub open spec fn joins_sql(js: Seq<JoinClauseV>) -> Seq<char>
    decreases js,
{
    if js.len() == 0 {
        Seq::empty()
    } else {
        joins_sql(js.drop_last()) + join_sql(js.last())
    }
}

/// The text of one HAVING condition.
pub open spec fn having_text(h: HavingConditionV) -> Seq<char> {
    h.column_or_function + " "@ + op_text(h.operator) + " ?"@
}

/// The HAVING conditions, connectors interleaved.
pub open spec fn having_sql(hs: Seq<HavingConditionV>) -> Seq<char>
    decreases hs,
{
    if hs.len() == 0 {
        Seq::empty()
    } else if hs.len() == 1 {
        having_text(hs[0])
    } else {
        having_sql(hs.drop_last()) + connector_token(hs.last().connector) + having_text(
            hs.last(),
        )
    }
}

/// The GROUP BY section with its optional HAVING part; HAVING renders
/// only inside a GROUP BY.
pub open spec fn group_having_sql(
    g: Option<GroupByClauseV>,
    hs: Seq<HavingConditionV>,
) -> Seq<char> {
    match g {
        None => Seq::empty(),
        Some(gv) => " GROUP BY "@ + comma_join(gv.columns) + (if hs.len() == 0 {
            Seq::empty()
        } else {
            " HAVING "@ + having_sql(hs)
        }),
    }
}

/// The ORDER BY section.
pub open spec fn order_by_sql(os: Seq<OrderByClauseV>) -> Seq<char> {
    if os.len() == 0 {
        Seq::empty()
    } else {
        " ORDER BY "@ + comma_join(
            os.map_values(|o: OrderByClauseV| o.column + " "@ + sort_direction_text(o.direction)),
        )
    }
}

/// The decimal digit character for `d`.
pub open spec fn dec_digit(d: int) -> char {
    ((48 + d) as u8) as char
}

/// The decimal text of a nonnegative number.
pub open spec fn dec_text(n: int) -> Seq<char>
    decreases n,
{
    if n < 10 {
        seq![dec_digit(n)]
    } else {
        dec_text(n / 10).push(dec_digit(n % 10))
    }
}

/// The LIMIT section.
pub open spec fn limit_sql(l: Option<u64>) -> Seq<char> {
    match l {
        None => Seq::empty(),
        Some(n) => " LIMIT "@ + dec_text(n as int),
    }
}

/// The OFFSET section.
pub open spec fn offset_sql(l: Option<u64>) -> Seq<char> {
    match l {
        None => Seq::empty(),
        Some(n) => " OFFSET "@ + dec_text(n as int),
    }
}

/// Whether every subquery condition's own operator is known.
pub open spec fn subcond_ops_known(s: Seq<SubqueryConditionV>) -> bool {
    forall|i: int| 0 <= i < s.len() ==> op_is_known(#[trigger] s[i].operator)
}

/// The token of the first unknown operator among the subquery conditions.
pub open spec fn first_unknown_subcond_token(s: Seq<SubqueryConditionV>) -> Seq<char>
    decreases s,
{
    if s.len() == 0 {
        Seq::empty()
    } else if s[0].operator is Unknown {
        s[0].operator->Unknown_0
    } else {
        first_unknown_subcond_token(s.drop_first())
    }
}

/// Whether every ON condition of one join has a known operator.
pub open spec fn join_conds_ops_known(cs: Seq<JoinConditionV>) -> bool {
    forall|i: int| 0 <= i < cs.len() ==> op_is_known(#[trigger] cs[i].operator)
}

/// Whether every ON condition of every join has a known operator.
pub open spec fn join_ops_known(js: Seq<JoinClauseV>) -> bool {
    forall|i: int| 0 <= i < js.len() ==> join_conds_ops_known(#[trigger] js[i].on_conditions)
}

/// The token of the first unknown operator among one join's ON
/// conditions.
pub open spec fn first_unknown_join_cond_token(cs: Seq<JoinConditionV>) -> Seq<char>
    decreases cs,
{
    if cs.len() == 0 {
        Seq::empty()
    } else if cs[0].operator is Unknown {
        cs[0].operator->Unknown_0
    } else {
        first_unknown_join_cond_token(cs.drop_first())
    }
}

/// The token of the first unknown operator across the joins, in order.
pub open spec fn first_unknown_join_token(js: Seq<JoinClauseV>) -> Seq<char>
    decreases js,
{
    if js.len() == 0 {
        Seq::empty()
    } else if !join_conds_ops_known(js[0].on_conditions) {
        first_unknown_join_cond_token(js[0].on_conditions)
    } else {
        first_unknown_join_token(js.drop_first())
    }
}

/// Whether every HAVING condition's operator is known.
pub open spec fn having_ops_known(hs: Seq<HavingConditionV>) -> bool {
    forall|i: int| 0 <= i < hs.len() ==> op_is_known(#[trigger] hs[i].operator)
}

/// The token of the first unknown operator among the HAVING conditions.
pub open spec fn first_unknown_having_token(hs: Seq<HavingConditionV>) -> Seq<char>
    decreases hs,
{
    if hs.len() == 0 {
        Seq::empty()
    } else if hs[0].operator is Unknown {
        hs[0].operator->Unknown_0
    } else {
        first_unknown_having_token(hs.drop_first())
    }
}

/// The full outcome of rendering a SELECT of shape `v`: operators are
/// validated before any text is assembled (WHERE conditions, then
/// subquery conditions, then JOIN ON conditions, then HAVING conditions),
/// and nested subqueries render recursively (selected columns before
/// WHERE subqueries), the first failure deciding the error.
pub open spec fn select_render(v: SelectV) -> Result<Seq<char>, ErrorV>
    decreases v,
{
    if !all_ops_known(v.where_conditions) {
        Err(unknown_op_error(first_unknown_token(v.where_conditions)))
    } else if !subcond_ops_known(v.subquery_conditions) {
        Err(unknown_op_error(first_unknown_subcond_token(v.subquery_conditions)))
    } else if !join_ops_known(v.join_clauses) {
        Err(unknown_op_error(first_unknown_join_token(v.join_clauses)))
    } else if !having_ops_known(v.having_conditions) {
        Err(unknown_op_error(first_unknown_having_token(v.having_conditions)))
    } else {
        let cols = if v.selected_columns.len() == 0 {
            Ok("*"@)
        } else {
            selectors_render(v.selected_columns)
        };
        match cols {
            Err(e) => Err(e),
            Ok(cols_text) => match subconds_render(
                v.subquery_conditions,
                v.where_conditions.len() > 0,
            ) {
                Err(e) => Err(e),
                Ok(sub_text) => Ok(
                    "SELECT "@ + (if v.distinct {
                        "DISTINCT "@
                    } else {
                        Seq::empty()
                    }) + cols_text + " FROM "@ + v.table_name + joins_sql(v.join_clauses) + (
                    if v.where_conditions.len() == 0 && v.subquery_conditions.len() == 0 {
                        Seq::empty()
                    } else {
                        " WHERE "@ + conditions_sql(v.where_conditions) + sub_text
                    }) + group_having_sql(v.group_by_clause, v.having_conditions)
                        + order_by_sql(v.order_by_clauses) + limit_sql(v.limit_value)
                        + offset_sql(v.offset_value),
                ),
            },
        }
    }
}

/// The bound values of the HAVING conditions, in clause order.
pub open spec fn having_params(hs: Seq<HavingConditionV>) -> Seq<ValueV> {
    hs.map_values(|h: HavingConditionV| h.value)
}

/// The parameters a SELECT hands out directly: WHERE values before HAVING
/// values, matching the placeholder order of its own text. Values bound
/// inside nested subqueries stay with the nested builder; see
/// `select_flat_params` for the fully flattened sequence.
pub open spec fn select_params(v: SelectV) -> Seq<ValueV> {
    where_params(v.where_conditions) + having_params(v.having_conditions)
}

/// The fully flattened parameter sequence of a SELECT, in the left-to-
/// right order of `?` placeholders in its rendered text: parameters of
/// subqueries among the selected columns, then own WHERE values, then
/// parameters of WHERE subqueries, then own HAVING values.
pub open spec fn select_flat_params(v: SelectV) -> Seq<ValueV>
    decreases v,
{
    selector_flat_params(v.selected_columns) + where_params(v.where_conditions)
        + subcond_flat_params(v.subquery_conditions) + having_params(v.having_conditions)
}

/// The flattened parameters of the subqueries among the selected columns.
pub open spec fn selector_flat_params(s: Seq<ColumnSelectorV>) -> Seq<ValueV>
    decreases s,
{
    if s.len() == 0 {
        Seq::empty()
    } else {
        selector_flat_params(s.drop_last()) + (match s.last() {
            ColumnSelectorV::SubqueryColumn { subquery, alias: _ } => select_flat_params(
                subquery,
            ),
            _ => Seq::empty(),
        })
    }
}

/// The flattened parameters of the WHERE subqueries.
pub open spec fn subcond_flat_params(s: Seq<SubqueryConditionV>) -> Seq<ValueV>
    decreases s,
{
    if s.len() == 0 {
        Seq::empty()
    } else {
        subcond_flat_params(s.drop_last()) + select_flat_params(s.last().subquery)
    }
}

} // verus!
verus! {

/// The view of an initial builder after one more plain WHERE condition.
pub open spec fn initial_with_cond(
    v: SelectInitialV,
    column: Seq<char>,
    operator: OpV,
    value: ValueV,
    connector: WhereConnector,
) -> SelectInitialV {
    SelectInitialV {
        where_conditions: v.where_conditions.push(
            WhereConditionV { column, operator, value, connector },
        ),
        ..v
    }
}

/// The view of a complete builder after one more plain WHERE condition.
pub open spec fn complete_with_cond(
    v: SelectV,
    column: Seq<char>,
    operator: OpV,
    value: ValueV,
    connector: WhereConnector,
) -> SelectV {
    SelectV {
        where_conditions: v.where_conditions.push(
            WhereConditionV { column, operator, value, connector },
        ),
        ..v
    }
}

impl SelectBuilderInitial {
    /// Create a new SELECT query builder in initial state.
    pub fn new(table: &str) -> (r: Self)
        ensures
            r@ =~~= (SelectInitialV {
                table_name: table@,
                where_conditions: Seq::empty(),
                subquery_conditions: Seq::empty(),
                join_clauses: Seq::empty(),
                order_by_clauses: Seq::empty(),
                group_by_clause: None,
                having_conditions: Seq::empty(),
                distinct: false,
                limit_value: None,
                offset_value: None,
            }),
    {
        let r = Self {
            table_name: table.to_owned(),
            where_conditions: Vec::new(),
            subquery_conditions: Vec::new(),
            join_clauses: Vec::new(),
            order_by_clauses: Vec::new(),
            group_by_clause: None,
            having_conditions: Vec::new(),
            distinct: false,
            limit_value: None,
            offset_value: None,
        };
        proof {
            assert(subcond_views(r.subquery_conditions@) =~= Seq::<SubqueryConditionV>::empty());
        }
        r
    }

    /// Select specific columns, transitioning to
    /// [`SelectBuilderComplete`].
    pub fn select<T: IntoColumnSelectors>(self, columns: T) -> (r: SelectBuilderComplete)
        ensures
            r@ =~~= (SelectV {
                table_name: self@.table_name,
                selected_columns: columns.spec_selectors(),
                where_conditions: self@.where_conditions,
                subquery_conditions: self@.subquery_conditions,
                join_clauses: self@.join_clauses,
                order_by_clauses: self@.order_by_clauses,
                group_by_clause: self@.group_by_clause,
                having_conditions: self@.having_conditions,
                distinct: self@.distinct,
                limit_value: self@.limit_value,
                offset_value: self@.offset_value,
            }),
    {
        let selected_columns = columns.into_column_selectors();
        SelectBuilderComplete {
            table_name: self.table_name,
            selected_columns,
            where_conditions: self.where_conditions,
            subquery_conditions: self.subquery_conditions,
            join_clauses: self.join_clauses,
            order_by_clauses: self.order_by_clauses,
            group_by_clause: self.group_by_clause,
            having_conditions: self.having_conditions,
            distinct: self.distinct,
            limit_value: self.limit_value,
            offset_value: self.offset_value,
        }
    }

    /// Select all columns (`*`), transitioning to
    /// [`SelectBuilderComplete`].
    pub fn select_all(self) -> (r: SelectBuilderComplete)
        ensures
            r@ =~~= (SelectV {
                table_name: self@.table_name,
                selected_columns: seq![ColumnSelectorV::Column("*"@)],
                where_conditions: self@.where_conditions,
                subquery_conditions: self@.subquery_conditions,
                join_clauses: self@.join_clauses,
                order_by_clauses: self@.order_by_clauses,
                group_by_clause: self@.group_by_clause,
                having_conditions: self@.having_conditions,
                distinct: self@.distinct,
                limit_value: self@.limit_value,
                offset_value: self@.offset_value,
            }),
    {
        let mut selected_columns: Vec<ColumnSelector> = Vec::new();
        selected_columns.push(ColumnSelector::Column("*".to_owned()));
        proof {
            selector_views_props(selected_columns@);
            assert(selector_views(selected_columns@) =~= seq![ColumnSelectorV::Column("*"@)]);
        }
        SelectBuilderComplete {
            table_name: self.table_name,
            selected_columns,
            where_conditions: self.where_conditions,
            subquery_conditions: self.subquery_conditions,
            join_clauses: self.join_clauses,
            order_by_clauses: self.order_by_clauses,
            group_by_clause: self.group_by_clause,
            having_conditions: self.having_conditions,
            distinct: self.distinct,
            limit_value: self.limit_value,
            offset_value: self.offset_value,
        }
    }

    /// Add a WHERE condition joined with AND.
    pub fn where_<C: IntoCondition>(self, condition: C) -> (r: Self)
        ensures
            r@ =~~= initial_with_cond(
                self@,
                condition.cond_column(),
                condition.cond_operator(),
                condition.cond_value(),
                WhereConnector::And,
            ),
    {
        let (column, operator, value) = condition.into_condition();
        let mut me = self;
        me.where_conditions.push(
            WhereCondition { column, operator, value, connector: WhereConnector::And },
        );
        me
    }

    /// Add a WHERE condition joined with OR.
    pub fn or_where<C: IntoCondition>(self, condition: C) -> (r: Self)
        ensures
            r@ =~~= initial_with_cond(
                self@,
                condition.cond_column(),
                condition.cond_operator(),
                condition.cond_value(),
                WhereConnector::Or,
            ),
    {
        let (column, operator, value) = condition.into_condition();
        let mut me = self;
        me.where_conditions.push(
            WhereCondition { column, operator, value, connector: WhereConnector::Or },
        );
        me
    }

    /// Add a WHERE condition joined with AND (same as `where_`).
    pub fn and_where<C: IntoCondition>(self, condition: C) -> (r: Self)
        ensures
            r@ =~~= initial_with_cond(
                self@,
                condition.cond_column(),
                condition.cond_operator(),
                condition.cond_value(),
                WhereConnector::And,
            ),
    {
        self.where_(condition)
    }

    /// Add a `WHERE <column> IN (<subquery>)` condition.
    pub fn where_in(self, column: &str, subquery: SelectBuilderComplete) -> (r: Self)
        ensures
            r@ =~~= (SelectInitialV {
                subquery_conditions: self@.subquery_conditions.push(
                    SubqueryConditionV {
                        column: column@,
                        operator: OpV::In,
                        subquery: subquery@,
                        connector: WhereConnector::And,
                    },
                ),
                ..self@
            }),
    {
        let ghost old_view = self@;
        let ghost subv = subquery@;
        let mut me = self;
        let ghost prev = me.subquery_conditions@;
        me.subquery_conditions.push(
            SubqueryCondition {
                column: column.to_owned(),
                operator: Operator::In,
                subquery: Subquery::new(subquery),
                connector: WhereConnector::And,
            },
        );
        proof {
            assert(me.subquery_conditions@.drop_last() =~= prev);
            let last = me.subquery_conditions@.last();
            assert(subcond_view(last) =~~= (SubqueryConditionV {
                column: column@,
                operator: OpV::In,
                subquery: subv,
                connector: WhereConnector::And,
            }));
            assert(subcond_views(me.subquery_conditions@) =~~= old_view.subquery_conditions.push(
                SubqueryConditionV {
                    column: column@,
                    operator: OpV::In,
                    subquery: subv,
                    connector: WhereConnector::And,
                },
            ));
        }
        me
    }

    /// Add a `WHERE EXISTS (<subquery>)` condition; no column is named.
    pub fn where_exists(self, subquery: SelectBuilderComplete) -> (r: Self)
        ensures
            r@ =~~= (SelectInitialV {
                subquery_conditions: self@.subquery_conditions.push(
                    SubqueryConditionV {
                        column: Seq::empty(),
                        operator: OpV::Exists,
                        subquery: subquery@,
                        connector: WhereConnector::And,
                    },
                ),
                ..self@
            }),
    {
        let ghost old_view = self@;
        let ghost subv = subquery@;
        let mut me = self;
        let ghost prev = me.subquery_conditions@;
        me.subquery_conditions.push(
            SubqueryCondition {
                column: "".to_owned(),
                operator: Operator::Exists,
                subquery: Subquery::new(subquery),
                connector: WhereConnector::And,
            },
        );
        proof {
            assert(me.subquery_conditions@.drop_last() =~= prev);
            reveal_strlit("");
            assert(""@ =~= Seq::<char>::empty());
            let last = me.subquery_conditions@.last();
            assert(subcond_view(last) =~~= (SubqueryConditionV {
                column: Seq::empty(),
                operator: OpV::Exists,
                subquery: subv,
                connector: WhereConnector::And,
            }));
            assert(subcond_views(me.subquery_conditions@) =~~= old_view.subquery_conditions.push(
                SubqueryConditionV {
                    column: Seq::empty(),
                    operator: OpV::Exists,
                    subquery: subv,
                    connector: WhereConnector::And,
                },
            ));
        }
        me
    }

    /// Add a `WHERE <column> NOT IN (<subquery>)` condition.
    pub fn where_not_in(self, column: &str, subquery: SelectBuilderComplete) -> (r: Self)
        ensures
            r@ =~~= (SelectInitialV {
                subquery_conditions: self@.subquery_conditions.push(
                    SubqueryConditionV {
                        column: column@,
                        operator: OpV::NotIn,
                        subquery: subquery@,
                        connector: WhereConnector::And,
                    },
                ),
                ..self@
            }),
    {
        let ghost old_view = self@;
        let ghost subv = subquery@;
        let mut me = self;
        let ghost prev = me.subquery_conditions@;
        me.subquery_conditions.push(
            SubqueryCondition {
                column: column.to_owned(),
                operator: Operator::NotIn,
                subquery: Subquery::new(subquery),
                connector: WhereConnector::And,
            },
        );
        proof {
            assert(me.subquery_conditions@.drop_last() =~= prev);
            let last = me.subquery_conditions@.last();
            assert(subcond_view(last) =~~= (SubqueryConditionV {
                column: column@,
                operator: OpV::NotIn,
                subquery: subv,
                connector: WhereConnector::And,
            }));
            assert(subcond_views(me.subquery_conditions@) =~~= old_view.subquery_conditions.push(
                SubqueryConditionV {
                    column: column@,
                    operator: OpV::NotIn,
                    subquery: subv,
                    connector: WhereConnector::And,
                },
            ));
        }
        me
    }

    /// Add a `WHERE NOT EXISTS (<subquery>)` condition; no column is
    /// named.
    pub fn where_not_exists(self, subquery: SelectBuilderComplete) -> (r: Self)
        ensures
            r@ =~~= (SelectInitialV {
                subquery_conditions: self@.subquery_conditions.push(
                    SubqueryConditionV {
                        column: Seq::empty(),
                        operator: OpV::NotExists,
                        subquery: subquery@,
                        connector: WhereConnector::And,
                    },
                ),
                ..self@
            }),
    {
        let ghost old_view = self@;
        let ghost subv = subquery@;
        let mut me = self;
        let ghost prev = me.subquery_conditions@;
        me.subquery_conditions.push(
            SubqueryCondition {
                column: "".to_owned(),
                operator: Operator::NotExists,
                subquery: Subquery::new(subquery),
                connector: WhereConnector::And,
            },
        );
        proof {
            assert(me.subquery_conditions@.drop_last() =~= prev);
            reveal_strlit("");
            assert(""@ =~= Seq::<char>::empty());
            let last = me.subquery_conditions@.last();
            assert(subcond_view(last) =~~= (SubqueryConditionV {
                column: Seq::empty(),
                operator: OpV::NotExists,
                subquery: subv,
                connector: WhereConnector::And,
            }));
            assert(subcond_views(me.subquery_conditions@) =~~= old_view.subquery_conditions.push(
                SubqueryConditionV {
                    column: Seq::empty(),
                    operator: OpV::NotExists,
                    subquery: subv,
                    connector: WhereConnector::And,
                },
            ));
        }
        me
    }

    /// Add an INNER JOIN on an equality of two columns.
    pub fn inner_join(self, table: &str, left_column: &str, right_column: &str) -> (r: Self)
        ensures
            r@ =~~= (SelectInitialV {
                join_clauses: self@.join_clauses.push(
                    single_eq_join(JoinType::Inner, table@, left_column@, right_column@),
                ),
                ..self@
            }),
    {
        let mut me = self;
        me.join_clauses.push(make_eq_join(JoinType::Inner, table, left_column, right_column));
        me
    }

    /// Add a LEFT JOIN on an equality of two columns.
    pub fn left_join(self, table: &str, left_column: &str, right_column: &str) -> (r: Self)
        ensures
            r@ =~~= (SelectInitialV {
                join_clauses: self@.join_clauses.push(
                    single_eq_join(JoinType::Left, table@, left_column@, right_column@),
                ),
                ..self@
            }),
    {
        let mut me = self;
        me.join_clauses.push(make_eq_join(JoinType::Left, table, left_column, right_column));
        me
    }

    /// Add a RIGHT JOIN on an equality of two columns.
    pub fn right_join(self, table: &str, left_column: &str, right_column: &str) -> (r: Self)
        ensures
            r@ =~~= (SelectInitialV {
                join_clauses: self@.join_clauses.push(
                    single_eq_join(JoinType::Right, table@, left_column@, right_column@),
                ),
                ..self@
            }),
    {
        let mut me = self;
        me.join_clauses.push(make_eq_join(JoinType::Right, table, left_column, right_column));
        me
    }

    /// Add a FULL OUTER JOIN on an equality of two columns.
    pub fn full_outer_join(self, table: &str, left_column: &str, right_column: &str) -> (r: Self)
        ensures
            r@ =~~= (SelectInitialV {
                join_clauses: self@.join_clauses.push(
                    single_eq_join(JoinType::Full, table@, left_column@, right_column@),
                ),
                ..self@
            }),
    {
        let mut me = self;
        me.join_clauses.push(make_eq_join(JoinType::Full, table, left_column, right_column));
        me
    }

    /// Add a CROSS JOIN; it carries no ON conditions.
    pub fn cross_join(self, table: &str) -> (r: Self)
        ensures
            r@ =~~= (SelectInitialV {
                join_clauses: self@.join_clauses.push(
                    JoinClauseV {
                        join_type: JoinType::Cross,
                        table: table@,
                        on_conditions: Seq::empty(),
                    },
                ),
                ..self@
            }),
    {
        let mut me = self;
        let on_conditions: Vec<JoinCondition> = Vec::new();
        me.join_clauses.push(
            JoinClause { join_type: JoinType::Cross, table: table.to_owned(), on_conditions },
        );
        me
    }

    /// Add a JOIN with an explicit join type and ON operator.
    pub fn join<O: IntoOperator>(
        self,
        join_type: JoinType,
        table: &str,
        left_col: &str,
        operator: O,
        right_col: &str,
    ) -> (r: Self)
        ensures
            r@ =~~= (SelectInitialV {
                join_clauses: self@.join_clauses.push(
                    JoinClauseV {
                        join_type,
                        table: table@,
                        on_conditions: seq![
                            JoinConditionV {
                                left_column: left_col@,
                                operator: operator.spec_operator(),
                                right_column: right_col@,
                                connector: crate::common::JoinConnector::And,
                            },
                        ],
                    },
                ),
                ..self@
            }),
    {
        let mut me = self;
        let mut on_conditions: Vec<JoinCondition> = Vec::new();
        on_conditions.push(
            JoinCondition {
                left_column: left_col.to_owned(),
                operator: operator.into_operator(),
                right_column: right_col.to_owned(),
                connector: crate::common::JoinConnector::And,
            },
        );
        me.join_clauses.push(
            JoinClause { join_type, table: table.to_owned(), on_conditions },
        );
        me
    }

    /// Set the GROUP BY clause.
    pub fn group_by<C: IntoColumns>(self, columns: C) -> (r: Self)
        ensures
            r@ =~~= (SelectInitialV {
                group_by_clause: Some(GroupByClauseV { columns: columns.spec_columns() }),
                ..self@
            }),
    {
        let mut me = self;
        me.group_by_clause = Some(GroupByClause { columns: columns.into_columns() });
        me
    }

    /// Add a HAVING condition joined with AND.
    pub fn having<C: IntoCondition>(self, condition: C) -> (r: Self)
        ensures
            r@ =~~= (SelectInitialV {
                having_conditions: self@.having_conditions.push(
                    HavingConditionV {
                        column_or_function: condition.cond_column(),
                        operator: condition.cond_operator(),
                        value: condition.cond_value(),
                        connector: WhereConnector::And,
                    },
                ),
                ..self@
            }),
    {
        let (column, operator, value) = condition.into_condition();
        let mut me = self;
        me.having_conditions.push(
            HavingCondition {
                column_or_function: column,
                operator,
                value,
                connector: WhereConnector::And,
            },
        );
        me
    }

    /// Add a HAVING condition joined with AND.
    pub fn and_having<C: IntoCondition>(self, condition: C) -> (r: Self)
        ensures
            r@ =~~= (SelectInitialV {
                having_conditions: self@.having_conditions.push(
                    HavingConditionV {
                        column_or_function: condition.cond_column(),
                        operator: condition.cond_operator(),
                        value: condition.cond_value(),
                        connector: WhereConnector::And,
                    },
                ),
                ..self@
            }),
    {
        let (column, operator, value) = condition.into_condition();
        let mut me = self;
        me.having_conditions.push(
            HavingCondition {
                column_or_function: column,
                operator,
                value,
                connector: WhereConnector::And,
            },
        );
        me
    }

    /// Add a HAVING condition joined with OR.
    pub fn or_having<C: IntoCondition>(self, condition: C) -> (r: Self)
        ensures
            r@ =~~= (SelectInitialV {
                having_conditions: self@.having_conditions.push(
                    HavingConditionV {
                        column_or_function: condition.cond_column(),
                        operator: condition.cond_operator(),
                        value: condition.cond_value(),
                        connector: WhereConnector::Or,
                    },
                ),
                ..self@
            }),
    {
        let (column, operator, value) = condition.into_condition();
        let mut me = self;
        me.having_conditions.push(
            HavingCondition {
                column_or_function: column,
                operator,
                value,
                connector: WhereConnector::Or,
            },
        );
        me
    }

    /// Add an ORDER BY clause with the given direction.
    pub fn order_by(self, column: &str, direction: SortDirection) -> (r: Self)
        ensures
            r@ =~~= (SelectInitialV {
                order_by_clauses: self@.order_by_clauses.push(
                    OrderByClauseV { column: column@, direction },
                ),
                ..self@
            }),
    {
        let mut me = self;
        me.order_by_clauses.push(OrderByClause { column: column.to_owned(), direction });
        me
    }

    /// Add an ascending ORDER BY clause.
    pub fn order_by_asc(self, column: &str) -> (r: Self)
        ensures
            r@ =~~= (SelectInitialV {
                order_by_clauses: self@.order_by_clauses.push(
                    OrderByClauseV { column: column@, direction: SortDirection::Asc },
                ),
                ..self@
            }),
    {
        self.order_by(column, SortDirection::Asc)
    }

    /// Add a descending ORDER BY clause.
    pub fn order_by_desc(self, column: &str) -> (r: Self)
        ensures
            r@ =~~= (SelectInitialV {
                order_by_clauses: self@.order_by_clauses.push(
                    OrderByClauseV { column: column@, direction: SortDirection::Desc },
                ),
                ..self@
            }),
    {
        self.order_by(column, SortDirection::Desc)
    }

    /// Set the LIMIT.
    pub fn limit(self, count: u64) -> (r: Self)
        ensures
            r@ =~~= (SelectInitialV { limit_value: Some(count), ..self@ }),
    {
        let mut me = self;
        me.limit_value = Some(count);
        me
    }

    /// Set the OFFSET.
    pub fn offset(self, offset: u64) -> (r: Self)
        ensures
            r@ =~~= (SelectInitialV { offset_value: Some(offset), ..self@ }),
    {
        let mut me = self;
        me.offset_value = Some(offset);
        me
    }
}

/// The shape of a join on a single equality of two columns.
pub open spec fn single_eq_join(
    join_type: JoinType,
    table: Seq<char>,
    left: Seq<char>,
    right: Seq<char>,
) -> JoinClauseV {
    JoinClauseV {
        join_type,
        table,
        on_conditions: seq![
            JoinConditionV {
                left_column: left,
                operator: OpV::Equal,
                right_column: right,
                connector: crate::common::JoinConnector::And,
            },
        ],
    }
}

/// Build a join clause on a single equality of two columns.
fn make_eq_join(join_type: JoinType, table: &str, left: &str, right: &str) -> (r: JoinClause)
    ensures
        r@ =~~= single_eq_join(join_type, table@, left@, right@),
{
    let mut on_conditions: Vec<JoinCondition> = Vec::new();
    on_conditions.push(
        JoinCondition {
            left_column: left.to_owned(),
            operator: Operator::Equal,
            right_column: right.to_owned(),
            connector: crate::common::JoinConnector::And,
        },
    );
    let r = JoinClause { join_type, table: table.to_owned(), on_conditions };
    proof {
        assert(r.on_conditions@.map_values(|c: JoinCondition| c@) =~= seq![
            JoinConditionV {
                left_column: left@,
                operator: OpV::Equal,
                right_column: right@,
                connector: crate::common::JoinConnector::And,
            },
        ]);
    }
    r
}

} // verus!
verus! {

impl SelectBuilderComplete {
    /// Add a WHERE condition joined with AND.
    pub fn where_<C: IntoCondition>(self, condition: C) -> (r: Self)
        ensures
            r@ =~~= complete_with_cond(
                self@,
                condition.cond_column(),
                condition.cond_operator(),
                condition.cond_value(),
                WhereConnector::And,
            ),
    {
        let (column, operator, value) = condition.into_condition();
        let mut me = self;
        me.where_conditions.push(
            WhereCondition { column, operator, value, connector: WhereConnector::And },
        );
        me
    }

    /// Add a WHERE condition joined with OR.
    pub fn or_where<C: IntoCondition>(self, condition: C) -> (r: Self)
        ensures
            r@ =~~= complete_with_cond(
                self@,
                condition.cond_column(),
                condition.cond_operator(),
                condition.cond_value(),
                WhereConnector::Or,
            ),
    {
        let (column, operator, value) = condition.into_condition();
        let mut me = self;
        me.where_conditions.push(
            WhereCondition { column, operator, value, connector: WhereConnector::Or },
        );
        me
    }

    /// Add a WHERE condition joined with AND (same as `where_`).
    pub fn and_where<C: IntoCondition>(self, condition: C) -> (r: Self)
        ensures
            r@ =~~= complete_with_cond(
                self@,
                condition.cond_column(),
                condition.cond_operator(),
                condition.cond_value(),
                WhereConnector::And,
            ),
    {
        self.where_(condition)
    }

    /// Add an ORDER BY clause with the given direction.
    pub fn order_by(self, column: &str, direction: SortDirection) -> (r: Self)
        ensures
            r@ =~~= (SelectV {
                order_by_clauses: self@.order_by_clauses.push(
                    OrderByClauseV { column: column@, direction },
                ),
                ..self@
            }),
    {
        let mut me = self;
        me.order_by_clauses.push(OrderByClause { column: column.to_owned(), direction });
        me
    }

    /// Add an ascending ORDER BY clause.
    pub fn order_by_asc(self, column: &str) -> (r: Self)
        ensures
            r@ =~~= (SelectV {
                order_by_clauses: self@.order_by_clauses.push(
                    OrderByClauseV { column: column@, direction: SortDirection::Asc },
                ),
                ..self@
            }),
    {
        self.order_by(column, SortDirection::Asc)
    }

    /// Add a descending ORDER BY clause.
    pub fn order_by_desc(self, column: &str) -> (r: Self)
        ensures
            r@ =~~= (SelectV {
                order_by_clauses: self@.order_by_clauses.push(
                    OrderByClauseV { column: column@, direction: SortDirection::Desc },
                ),
                ..self@
            }),
    {
        self.order_by(column, SortDirection::Desc)
    }

    /// Set the LIMIT.
    pub fn limit(self, count: u64) -> (r: Self)
        ensures
            r@ =~~= (SelectV { limit_value: Some(count), ..self@ }),
    {
        let mut me = self;
        me.limit_value = Some(count);
        me
    }

    /// Set the OFFSET.
    pub fn offset(self, offset: u64) -> (r: Self)
        ensures
            r@ =~~= (SelectV { offset_value: Some(offset), ..self@ }),
    {
        let mut me = self;
        me.offset_value = Some(offset);
        me
    }

    /// Mark the query as DISTINCT.
    pub fn distinct(self) -> (r: Self)
        ensures
            r@ =~~= (SelectV { distinct: true, ..self@ }),
    {
        let mut me = self;
        me.distinct = true;
        me
    }

    /// Add a `WHERE <column> IN (<subquery>)` condition.
    pub fn where_in(self, column: &str, subquery: SelectBuilderComplete) -> (r: Self)
        ensures
            r@ =~~= (SelectV {
                subquery_conditions: self@.subquery_conditions.push(
                    SubqueryConditionV {
                        column: column@,
                        operator: OpV::In,
                        subquery: subquery@,
                        connector: WhereConnector::And,
                    },
                ),
                ..self@
            }),
    {
        let ghost old_view = self@;
        let ghost subv = subquery@;
        let mut me = self;
        let ghost prev = me.subquery_conditions@;
        me.subquery_conditions.push(
            SubqueryCondition {
                column: column.to_owned(),
                operator: Operator::In,
                subquery: Subquery::new(subquery),
                connector: WhereConnector::And,
            },
        );
        proof {
            assert(me.subquery_conditions@.drop_last() =~= prev);
            let last = me.subquery_conditions@.last();
            assert(subcond_view(last) =~~= (SubqueryConditionV {
                column: column@,
                operator: OpV::In,
                subquery: subv,
                connector: WhereConnector::And,
            }));
            assert(subcond_views(me.subquery_conditions@) =~~= old_view.subquery_conditions.push(
                SubqueryConditionV {
                    column: column@,
                    operator: OpV::In,
                    subquery: subv,
                    connector: WhereConnector::And,
                },
            ));
        }
        me
    }

    /// Add a `WHERE EXISTS (<subquery>)` condition; no column is named.
    pub fn where_exists(self, subquery: SelectBuilderComplete) -> (r: Self)
        ensures
            r@ =~~= (SelectV {
                subquery_conditions: self@.subquery_conditions.push(
                    SubqueryConditionV {
                        column: Seq::empty(),
                        operator: OpV::Exists,
                        subquery: subquery@,
                        connector: WhereConnector::And,
                    },
                ),
                ..self@
            }),
    {
        let ghost old_view = self@;
        let ghost subv = subquery@;
        let mut me = self;
        let ghost prev = me.subquery_conditions@;
        me.subquery_conditions.push(
            SubqueryCondition {
                column: "".to_owned(),
                operator: Operator::Exists,
                subquery: Subquery::new(subquery),
                connector: WhereConnector::And,
            },
        );
        proof {
            assert(me.subquery_conditions@.drop_last() =~= prev);
            reveal_strlit("");
            assert(""@ =~= Seq::<char>::empty());
            let last = me.subquery_conditions@.last();
            assert(subcond_view(last) =~~= (SubqueryConditionV {
                column: Seq::empty(),
                operator: OpV::Exists,
                subquery: subv,
                connector: WhereConnector::And,
            }));
            assert(subcond_views(me.subquery_conditions@) =~~= old_view.subquery_conditions.push(
                SubqueryConditionV {
                    column: Seq::empty(),
                    operator: OpV::Exists,
                    subquery: subv,
                    connector: WhereConnector::And,
                },
            ));
        }
        me
    }

    /// Add a `WHERE <column> NOT IN (<subquery>)` condition.
    pub fn where_not_in(self, column: &str, subquery: SelectBuilderComplete) -> (r: Self)
        ensures
            r@ =~~= (SelectV {
                subquery_conditions: self@.subquery_conditions.push(
                    SubqueryConditionV {
                        column: column@,
                        operator: OpV::NotIn,
                        subquery: subquery@,
                        connector: WhereConnector::And,
                    },
                ),
                ..self@
            }),
    {
        let ghost old_view = self@;
        let ghost subv = subquery@;
        let mut me = self;
        let ghost prev = me.subquery_conditions@;
        me.subquery_conditions.push(
            SubqueryCondition {
                column: column.to_owned(),
                operator: Operator::NotIn,
                subquery: Subquery::new(subquery),
                connector: WhereConnector::And,
            },
        );
        proof {
            assert(me.subquery_conditions@.drop_last() =~= prev);
            let last = me.subquery_conditions@.last();
            assert(subcond_view(last) =~~= (SubqueryConditionV {
                column: column@,
                operator: OpV::NotIn,
                subquery: subv,
                connector: WhereConnector::And,
            }));
            assert(subcond_views(me.subquery_conditions@) =~~= old_view.subquery_conditions.push(
                SubqueryConditionV {
                    column: column@,
                    operator: OpV::NotIn,
                    subquery: subv,
                    connector: WhereConnector::And,
                },
            ));
        }
        me
    }

    /// Add a `WHERE NOT EXISTS (<subquery>)` condition; no column is
    /// named.
    pub fn where_not_exists(self, subquery: SelectBuilderComplete) -> (r: Self)
        ensures
            r@ =~~= (SelectV {
                subquery_conditions: self@.subquery_conditions.push(
                    SubqueryConditionV {
                        column: Seq::empty(),
                        operator: OpV::NotExists,
                        subquery: subquery@,
                        connector: WhereConnector::And,
                    },
                ),
                ..self@
            }),
    {
        let ghost old_view = self@;
        let ghost subv = subquery@;
        let mut me = self;
        let ghost prev = me.subquery_conditions@;
        me.subquery_conditions.push(
            SubqueryCondition {
                column: "".to_owned(),
                operator: Operator::NotExists,
                subquery: Subquery::new(subquery),
                connector: WhereConnector::And,
            },
        );
        proof {
            assert(me.subquery_conditions@.drop_last() =~= prev);
            reveal_strlit("");
            assert(""@ =~= Seq::<char>::empty());
            let last = me.subquery_conditions@.last();
            assert(subcond_view(last) =~~= (SubqueryConditionV {
                column: Seq::empty(),
                operator: OpV::NotExists,
                subquery: subv,
                connector: WhereConnector::And,
            }));
            assert(subcond_views(me.subquery_conditions@) =~~= old_view.subquery_conditions.push(
                SubqueryConditionV {
                    column: Seq::empty(),
                    operator: OpV::NotExists,
                    subquery: subv,
                    connector: WhereConnector::And,
                },
            ));
        }
        me
    }

    /// Add an INNER JOIN on an equality of two columns.
    pub fn inner_join(self, table: &str, left_column: &str, right_column: &str) -> (r: Self)
        ensures
            r@ =~~= (SelectV {
                join_clauses: self@.join_clauses.push(
                    single_eq_join(JoinType::Inner, table@, left_column@, right_column@),
                ),
                ..self@
            }),
    {
        let mut me = self;
        me.join_clauses.push(make_eq_join(JoinType::Inner, table, left_column, right_column));
        me
    }

    /// Add a LEFT JOIN on an equality of two columns.
    pub fn left_join(self, table: &str, left_column: &str, right_column: &str) -> (r: Self)
        ensures
            r@ =~~= (SelectV {
                join_clauses: self@.join_clauses.push(
                    single_eq_join(JoinType::Left, table@, left_column@, right_column@),
                ),
                ..self@
            }),
    {
        let mut me = self;
        me.join_clauses.push(make_eq_join(JoinType::Left, table, left_column, right_column));
        me
    }

    /// Add a RIGHT JOIN on an equality of two columns.
    pub fn right_join(self, table: &str, left_column: &str, right_column: &str) -> (r: Self)
        ensures
            r@ =~~= (SelectV {
                join_clauses: self@.join_clauses.push(
                    single_eq_join(JoinType::Right, table@, left_column@, right_column@),
                ),
                ..self@
            }),
    {
        let mut me = self;
        me.join_clauses.push(make_eq_join(JoinType::Right, table, left_column, right_column));
        me
    }

    /// Add a FULL OUTER JOIN on an equality of two columns.
    pub fn full_outer_join(self, table: &str, left_column: &str, right_column: &str) -> (r: Self)
        ensures
            r@ =~~= (SelectV {
                join_clauses: self@.join_clauses.push(
                    single_eq_join(JoinType::Full, table@, left_column@, right_column@),
                ),
                ..self@
            }),
    {
        let mut me = self;
        me.join_clauses.push(make_eq_join(JoinType::Full, table, left_column, right_column));
        me
    }

    /// Add a CROSS JOIN; it carries no ON conditions.
    pub fn cross_join(self, table: &str) -> (r: Self)
        ensures
            r@ =~~= (SelectV {
                join_clauses: self@.join_clauses.push(
                    JoinClauseV {
                        join_type: JoinType::Cross,
                        table: table@,
                        on_conditions: Seq::empty(),
                    },
                ),
                ..self@
            }),
    {
        let mut me = self;
        let on_conditions: Vec<JoinCondition> = Vec::new();
        me.join_clauses.push(
            JoinClause { join_type: JoinType::Cross, table: table.to_owned(), on_conditions },
        );
        me
    }

    /// Add a JOIN with an explicit join type and ON operator.
    pub fn join<O: IntoOperator>(
        self,
        join_type: JoinType,
        table: &str,
        left_col: &str,
        operator: O,
        right_col: &str,
    ) -> (r: Self)
        ensures
            r@ =~~= (SelectV {
                join_clauses: self@.join_clauses.push(
                    JoinClauseV {
                        join_type,
                        table: table@,
                        on_conditions: seq![
                            JoinConditionV {
                                left_column: left_col@,
                                operator: operator.spec_operator(),
                                right_column: right_col@,
                                connector: crate::common::JoinConnector::And,
                            },
                        ],
                    },
                ),
                ..self@
            }),
    {
        let mut me = self;
        let mut on_conditions: Vec<JoinCondition> = Vec::new();
        on_conditions.push(
            JoinCondition {
                left_column: left_col.to_owned(),
                operator: operator.into_operator(),
                right_column: right_col.to_owned(),
                connector: crate::common::JoinConnector::And,
            },
        );
        me.join_clauses.push(
            JoinClause { join_type, table: table.to_owned(), on_conditions },
        );
        me
    }

    /// Set the GROUP BY clause.
    pub fn group_by<C: IntoColumns>(self, columns: C) -> (r: Self)
        ensures
            r@ =~~= (SelectV {
                group_by_clause: Some(GroupByClauseV { columns: columns.spec_columns() }),
                ..self@
            }),
    {
        let mut me = self;
        me.group_by_clause = Some(GroupByClause { columns: columns.into_columns() });
        me
    }

    /// Add a HAVING condition joined with AND.
    pub fn having<C: IntoCondition>(self, condition: C) -> (r: Self)
        ensures
            r@ =~~= (SelectV {
                having_conditions: self@.having_conditions.push(
                    HavingConditionV {
                        column_or_function: condition.cond_column(),
                        operator: condition.cond_operator(),
                        value: condition.cond_value(),
                        connector: WhereConnector::And,
                    },
                ),
                ..self@
            }),
    {
        let (column, operator, value) = condition.into_condition();
        let mut me = self;
        me.having_conditions.push(
            HavingCondition {
                column_or_function: column,
                operator,
                value,
                connector: WhereConnector::And,
            },
        );
        me
    }

    /// Add a HAVING condition joined with AND.
    pub fn and_having<C: IntoCondition>(self, condition: C) -> (r: Self)
        ensures
            r@ =~~= (SelectV {
                having_conditions: self@.having_conditions.push(
                    HavingConditionV {
                        column_or_function: condition.cond_column(),
                        operator: condition.cond_operator(),
                        value: condition.cond_value(),
                        connector: WhereConnector::And,
                    },
                ),
                ..self@
            }),
    {
        let (column, operator, value) = condition.into_condition();
        let mut me = self;
        me.having_conditions.push(
            HavingCondition {
                column_or_function: column,
                operator,
                value,
                connector: WhereConnector::And,
            },
        );
        me
    }

    /// Add a HAVING condition joined with OR.
    pub fn or_having<C: IntoCondition>(self, condition: C) -> (r: Self)
        ensures
            r@ =~~= (SelectV {
                having_conditions: self@.having_conditions.push(
                    HavingConditionV {
                        column_or_function: condition.cond_column(),
                        operator: condition.cond_operator(),
                        value: condition.cond_value(),
                        connector: WhereConnector::Or,
                    },
                ),
                ..self@
            }),
    {
        let (column, operator, value) = condition.into_condition();
        let mut me = self;
        me.having_conditions.push(
            HavingCondition {
                column_or_function: column,
                operator,
                value,
                connector: WhereConnector::Or,
            },
        );
        me
    }
}

} // verus!
verus! {

/// Validate the operators of the subquery conditions, in order.
#[verifier::loop_isolation(false)]
fn validate_subconds(sc: &Vec<SubqueryCondition>) -> (r: Result<(), Error>)
    ensures
        r is Ok <==> subcond_ops_known(subcond_views(sc@)),
        r is Err ==> r->Err_0@ == unknown_op_error(
            first_unknown_subcond_token(subcond_views(sc@)),
        ),
{
    let ghost cv = subcond_views(sc@);
    proof {
        subcond_views_props(sc@);
    }
    let mut i: usize = 0;
    while i < sc.len()
        invariant
            0 <= i <= sc@.len(),
            forall|j: int| 0 <= j < i ==> op_is_known(#[trigger] cv[j].operator),
        decreases sc@.len() - i,
    {
        match sc[i].operator.validate() {
            Ok(()) => {},
            Err(e) => {
                proof {
                    lemma_first_unknown_subcond_at(cv, i as int);
                }
                return Err(e);
            },
        }
        i = i + 1;
    }
    Ok(())
}

proof fn lemma_first_unknown_subcond_at(cv: Seq<SubqueryConditionV>, i: int)
    requires
        0 <= i < cv.len(),
        cv[i].operator is Unknown,
        forall|j: int| 0 <= j < i ==> op_is_known(#[trigger] cv[j].operator),
    ensures
        first_unknown_subcond_token(cv) == cv[i].operator->Unknown_0,
    decreases cv,
{
    if i > 0 {
        lemma_first_unknown_subcond_at(cv.drop_first(), i - 1);
    }
}

proof fn lemma_first_unknown_having_at(cv: Seq<HavingConditionV>, i: int)
    requires
        0 <= i < cv.len(),
        cv[i].operator is Unknown,
        forall|j: int| 0 <= j < i ==> op_is_known(#[trigger] cv[j].operator),
    ensures
        first_unknown_having_token(cv) == cv[i].operator->Unknown_0,
    decreases cv,
{
    if i > 0 {
        lemma_first_unknown_having_at(cv.drop_first(), i - 1);
    }
}

proof fn lemma_first_unknown_join_cond_at(cv: Seq<JoinConditionV>, i: int)
    requires
        0 <= i < cv.len(),
        cv[i].operator is Unknown,
        forall|j: int| 0 <= j < i ==> op_is_known(#[trigger] cv[j].operator),
    ensures
        first_unknown_join_cond_token(cv) == cv[i].operator->Unknown_0,
    decreases cv,
{
    if i > 0 {
        lemma_first_unknown_join_cond_at(cv.drop_first(), i - 1);
    }
}

proof fn lemma_first_unknown_join_at(js: Seq<JoinClauseV>, i: int)
    requires
        0 <= i < js.len(),
        !join_conds_ops_known(js[i].on_conditions),
        forall|j: int| 0 <= j < i ==> join_conds_ops_known(#[trigger] js[j].on_conditions),
    ensures
        first_unknown_join_token(js) == first_unknown_join_cond_token(js[i].on_conditions),
    decreases js,
{
    if i > 0 {
        lemma_first_unknown_join_at(js.drop_first(), i - 1);
    }
}

/// Validate the operators of the HAVING conditions, in order.
#[verifier::loop_isolation(false)]
fn validate_having(hc: &Vec<HavingCondition>) -> (r: Result<(), Error>)
    ensures
        r is Ok <==> having_ops_known(hc@.map_values(|h: HavingCondition| h@)),
        r is Err ==> r->Err_0@ == unknown_op_error(
            first_unknown_having_token(hc@.map_values(|h: HavingCondition| h@)),
        ),
{
    let ghost cv = hc@.map_values(|h: HavingCondition| h@);
    let mut i: usize = 0;
    while i < hc.len()
        invariant
            0 <= i <= hc@.len(),
            forall|j: int| 0 <= j < i ==> op_is_known(#[trigger] cv[j].operator),
        decreases hc@.len() - i,
    {
        match hc[i].operator.validate() {
            Ok(()) => {},
            Err(e) => {
                proof {
                    lemma_first_unknown_having_at(cv, i as int);
                }
                return Err(e);
            },
        }
        i = i + 1;
    }
    Ok(())
}

/// Validate the operators of every join's ON conditions, in order.
#[verifier::loop_isolation(false)]
fn validate_joins(js: &Vec<JoinClause>) -> (r: Result<(), Error>)
    ensures
        r is Ok <==> join_ops_known(js@.map_values(|j: JoinClause| j@)),
        r is Err ==> r->Err_0@ == unknown_op_error(
            first_unknown_join_token(js@.map_values(|j: JoinClause| j@)),
        ),
{
    let ghost jv = js@.map_values(|j: JoinClause| j@);
    let mut i: usize = 0;
    while i < js.len()
        invariant
            0 <= i <= js@.len(),
            forall|j: int| 0 <= j < i ==> join_conds_ops_known(#[trigger] jv[j].on_conditions),
        decreases js@.len() - i,
    {
        let cs = &js[i].on_conditions;
        let ghost csv = cs@.map_values(|c: JoinCondition| c@);
        proof {
            assert(jv[i as int].on_conditions =~= csv);
        }
        let mut k: usize = 0;
        while k < cs.len()
            invariant
                0 <= k <= cs@.len(),
                forall|j: int| 0 <= j < k ==> op_is_known(#[trigger] csv[j].operator),
            decreases cs@.len() - k,
        {
            match cs[k].operator.validate() {
                Ok(()) => {},
                Err(e) => {
                    proof {
                        lemma_first_unknown_join_cond_at(csv, k as int);
                        lemma_first_unknown_join_at(jv, i as int);
                    }
                    return Err(e);
                },
            }
            k = k + 1;
        }
        i = i + 1;
    }
    Ok(())
}

proof fn lemma_joins_sql_step(js: Seq<JoinClauseV>, i: int)
    requires
        0 <= i < js.len(),
    ensures
        joins_sql(js.take(i + 1)) == joins_sql(js.take(i)) + join_sql(js[i]),
{
    assert(js.take(i + 1).drop_last() =~= js.take(i));
    assert(js.take(i + 1).last() == js[i]);
}

proof fn lemma_join_conds_sql_step(cs: Seq<JoinConditionV>, i: int)
    requires
        0 <= i < cs.len(),
    ensures
        join_conds_sql(cs.take(i + 1)) == if i == 0 {
            join_cond_text(cs[0])
        } else {
            join_conds_sql(cs.take(i)) + join_connector_token(cs[i].connector) + join_cond_text(
                cs[i],
            )
        },
{
    assert(cs.take(i + 1).drop_last() =~= cs.take(i));
    assert(cs.take(i + 1).last() == cs[i]);
    if i == 0 {
        assert(cs.take(1).len() == 1);
        assert(cs.take(1)[0] == cs[0]);
    }
}

/// Append one JOIN clause to `sql`, with its leading space.
#[verifier::loop_isolation(false)]
#[verifier::rlimit(100)]
#[verifier::spinoff_prover]
fn append_one_join(sql: &mut String, j: &JoinClause)
    ensures
        final(sql)@ == old(sql)@ + join_sql(j@),
{
    let ghost jbase = sql@;
    sql.append(" ");
    sql.append(j.join_type.as_str());
    sql.append(" JOIN ");
    sql.append(j.table.as_str());
    let is_cross = matches!(j.join_type, JoinType::Cross);
    if j.on_conditions.len() > 0 && !is_cross {
        sql.append(" ON ");
        let cs = &j.on_conditions;
        let ghost csv = cs@.map_values(|c: JoinCondition| c@);
        let ghost cbase = sql@;
        let mut k: usize = 0;
        while k < cs.len()
            invariant
                0 <= k <= cs@.len(),
                sql@ == cbase + join_conds_sql(csv.take(k as int)),
            decreases cs@.len() - k,
        {
            let c = &cs[k];
            if k > 0 {
                match c.connector {
                    crate::common::JoinConnector::And => sql.append(" AND "),
                    crate::common::JoinConnector::Or => sql.append(" OR "),
                }
            }
            sql.append(c.left_column.as_str());
            sql.append(" ");
            sql.append(c.operator.as_str());
            sql.append(" ");
            sql.append(c.right_column.as_str());
            proof {
                lemma_join_conds_sql_step(csv, k as int);
                assert(sql@ == cbase + join_conds_sql(csv.take(k + 1)));
            }
            k = k + 1;
        }
        proof {
            assert(csv.take(cs@.len() as int) =~= csv);
            assert(j@.on_conditions =~= csv);
            assert(sql@ == jbase + join_sql(j@));
        }
    } else {
        proof {
            assert(sql@ == jbase + join_sql(j@));
        }
    }
}

/// Append every JOIN clause to `sql`, in order.
#[verifier::loop_isolation(false)]
fn append_joins(sql: &mut String, js: &Vec<JoinClause>)
    ensures
        final(sql)@ == old(sql)@ + joins_sql(js@.map_values(|j: JoinClause| j@)),
{
    let ghost jv = js@.map_values(|j: JoinClause| j@);
    let ghost base = sql@;
    let mut i: usize = 0;
    while i < js.len()
        invariant
            0 <= i <= js@.len(),
            sql@ == base + joins_sql(jv.take(i as int)),
        decreases js@.len() - i,
    {
        append_one_join(sql, &js[i]);
        proof {
            lemma_joins_sql_step(jv, i as int);
            assert(jv[i as int] == js@[i as int]@);
            assert(sql@ == base + joins_sql(jv.take(i + 1)));
        }
        i = i + 1;
    }
    proof {
        assert(jv.take(js@.len() as int) =~= jv);
    }
}

proof fn lemma_having_sql_step(hs: Seq<HavingConditionV>, i: int)
    requires
        0 <= i < hs.len(),
    ensures
        having_sql(hs.take(i + 1)) == if i == 0 {
            having_text(hs[0])
        } else {
            having_sql(hs.take(i)) + connector_token(hs[i].connector) + having_text(hs[i])
        },
{
    assert(hs.take(i + 1).drop_last() =~= hs.take(i));
    assert(hs.take(i + 1).last() == hs[i]);
    if i == 0 {
        assert(hs.take(1).len() == 1);
        assert(hs.take(1)[0] == hs[0]);
    }
}

/// Append the GROUP BY section, with its HAVING part, to `sql`.
#[verifier::loop_isolation(false)]
fn append_group_having(sql: &mut String, g: &Option<GroupByClause>, hc: &Vec<HavingCondition>)
    ensures
        final(sql)@ == old(sql)@ + group_having_sql(
            match g {
                Some(gv) => Some(gv@),
                None => None,
            },
            hc@.map_values(|h: HavingCondition| h@),
        ),
{
    match g {
        None => {},
        Some(gv) => {
            sql.append(" GROUP BY ");
            crate::render::append_comma_join(sql, &gv.columns);
            if hc.len() > 0 {
                sql.append(" HAVING ");
                let ghost hv = hc@.map_values(|h: HavingCondition| h@);
                let ghost hbase = sql@;
                let mut i: usize = 0;
                while i < hc.len()
                    invariant
                        0 <= i <= hc@.len(),
                        sql@ == hbase + having_sql(hv.take(i as int)),
                    decreases hc@.len() - i,
                {
                    let h = &hc[i];
                    if i > 0 {
                        match h.connector {
                            WhereConnector::And => sql.append(" AND "),
                            WhereConnector::Or => sql.append(" OR "),
                        }
                    }
                    sql.append(h.column_or_function.as_str());
                    sql.append(" ");
                    sql.append(h.operator.as_str());
                    sql.append(" ?");
                    proof {
                        lemma_having_sql_step(hv, i as int);
                        assert(sql@ == hbase + having_sql(hv.take(i + 1)));
                    }
                    i = i + 1;
                }
                proof {
                    assert(hv.take(hc@.len() as int) =~= hv);
                }
            }
        },
    }
}

/// Append the ORDER BY section to `sql`.
#[verifier::loop_isolation(false)]
fn append_order_by(sql: &mut String, os: &Vec<OrderByClause>)
    ensures
        final(sql)@ == old(sql)@ + order_by_sql(os@.map_values(|o: OrderByClause| o@)),
{
    if os.len() == 0 {
        return ;
    }
    sql.append(" ORDER BY ");
    let ghost ov = os@.map_values(|o: OrderByClause| o@);
    let ghost items = ov.map_values(
        |o: OrderByClauseV| o.column + " "@ + sort_direction_text(o.direction),
    );
    let ghost base = sql@;
    let mut i: usize = 0;
    while i < os.len()
        invariant
            0 <= i <= os@.len(),
            sql@ == base + comma_join(items.take(i as int)),
        decreases os@.len() - i,
    {
        if i > 0 {
            sql.append(", ");
        }
        let o = &os[i];
        sql.append(o.column.as_str());
        sql.append(" ");
        sql.append(o.direction.as_str());
        proof {
            crate::render::lemma_comma_join_step(items, i as int);
            assert(items[i as int] == ov[i as int].column + " "@ + sort_direction_text(
                ov[i as int].direction,
            ));
            assert(sql@ == base + comma_join(items.take(i + 1)));
        }
        i = i + 1;
    }
    proof {
        assert(items.take(os@.len() as int) =~= items);
    }
}

/// Append the decimal text of `n` to `sql`.
fn append_u64(sql: &mut String, n: u64)
    ensures
        final(sql)@ == old(sql)@ + dec_text(n as int),
    decreases n,
{
    if n >= 10 {
        append_u64(sql, n / 10);
    }
    let d: u8 = (n % 10) as u8;
    let c: char = (48 + d) as char;
    proof {
        assert(c == dec_digit(n as int % 10));
        if n < 10 {
            assert(dec_text(n as int) =~= Seq::<char>::empty().push(dec_digit(n as int)));
        }
    }
    push_char(sql, c);
}

} // verus!
verus! {

proof fn lemma_selectors_render_err_extends(s: Seq<ColumnSelectorV>, k: int)
    requires
        1 <= k <= s.len(),
        selectors_render(s.take(k)) is Err,
    ensures
        selectors_render(s) == selectors_render(s.take(k)),
    decreases s.len() - k,
{
    if k < s.len() {
        assert(s.take(k + 1).drop_last() =~= s.take(k));
        assert(selectors_render(s.take(k + 1)) == selectors_render(s.take(k)));
        lemma_selectors_render_err_extends(s, k + 1);
    } else {
        assert(s.take(k) =~= s);
    }
}

proof fn lemma_selectors_render_step(s: Seq<ColumnSelectorV>, i: int)
    requires
        0 <= i < s.len(),
        selectors_render(s.take(i)) is Ok,
    ensures
        selector_render(s[i]) is Err ==> selectors_render(s.take(i + 1)) == selector_render(
            s[i],
        ),
        selector_render(s[i]) is Ok ==> selectors_render(s.take(i + 1)) == Ok::<
            Seq<char>,
            ErrorV,
        >(
            selectors_render(s.take(i))->Ok_0 + (if i == 0 {
                Seq::empty()
            } else {
                ", "@
            }) + selector_render(s[i])->Ok_0,
        ),
{
    assert(s.take(i + 1).drop_last() =~= s.take(i));
    assert(s.take(i + 1).last() == s[i]);
    if i == 0 {
        assert(s.take(1).len() == 1);
        assert(s.take(1)[0] == s[0]);
        assert(selectors_render(s.take(0)) == Ok::<Seq<char>, ErrorV>(Seq::empty()));
        if selector_render(s[0]) is Ok {
            assert(Seq::<char>::empty() + Seq::<char>::empty() + selector_render(s[0])->Ok_0
                =~= selector_render(s[0])->Ok_0);
        }
    }
}

proof fn lemma_subconds_render_err_extends(s: Seq<SubqueryConditionV>, hp: bool, k: int)
    requires
        1 <= k <= s.len(),
        subconds_render(s.take(k), hp) is Err,
    ensures
        subconds_render(s, hp) == subconds_render(s.take(k), hp),
    decreases s.len() - k,
{
    if k < s.len() {
        assert(s.take(k + 1).drop_last() =~= s.take(k));
        assert(subconds_render(s.take(k + 1), hp) == subconds_render(s.take(k), hp));
        lemma_subconds_render_err_extends(s, hp, k + 1);
    } else {
        assert(s.take(k) =~= s);
    }
}

proof fn lemma_subconds_render_step(s: Seq<SubqueryConditionV>, hp: bool, i: int)
    requires
        0 <= i < s.len(),
        subconds_render(s.take(i), hp) is Ok,
    ensures
        select_render(s[i].subquery) is Err ==> subconds_render(s.take(i + 1), hp)
            == Err::<Seq<char>, ErrorV>(select_render(s[i].subquery)->Err_0),
        select_render(s[i].subquery) is Ok ==> subconds_render(s.take(i + 1), hp) == Ok::<
            Seq<char>,
            ErrorV,
        >(
            subconds_render(s.take(i), hp)->Ok_0 + (if hp || i > 0 {
                connector_token(s[i].connector)
            } else {
                Seq::empty()
            }) + subcond_head(s[i]) + "("@ + select_render(s[i].subquery)->Ok_0 + ")"@,
        ),
{
    assert(s.take(i + 1).drop_last() =~= s.take(i));
    assert(s.take(i + 1).last() == s[i]);
    assert(s.take(i + 1).len() == i + 1);
}

/// Append one rendered column selector to `sql`, or fail with its nested
/// subquery's error.
#[verifier::loop_isolation(false)]
#[verifier::rlimit(100)]
#[verifier::spinoff_prover]
fn append_one_selector(sql: &mut String, sel: &ColumnSelector) -> (r: Result<(), Error>)
    ensures
        r is Ok ==> selector_render(sel@) is Ok && final(sql)@ == old(sql)@ + selector_render(
            sel@,
        )->Ok_0,
        r is Err ==> selector_render(sel@) is Err && r->Err_0@ == selector_render(sel@)->Err_0,
        r is Err ==> final(sql)@ == old(sql)@,
    decreases *sel,
{
    let ghost pre = sql@;
    match sel {
        ColumnSelector::Column(name) => {
            sql.append(name.as_str());
            Ok(())
        },
        ColumnSelector::Aggregate { function, column, alias } => {
            sql.append(function.as_str());
            sql.append("(");
            sql.append(column.as_str());
            if matches!(function, AggregateFunction::CountDistinct) {
                sql.append("))");
            } else {
                sql.append(")");
            }
            append_alias(sql, alias);
            proof {
                assert(sql@ =~= pre + with_alias(
                    agg_selector_text(*function, column@),
                    alias_view(*alias),
                ));
            }
            Ok(())
        },
        ColumnSelector::CountAll { alias } => {
            sql.append("COUNT(*)");
            append_alias(sql, alias);
            proof {
                assert(sql@ =~= pre + with_alias("COUNT(*)"@, alias_view(*alias)));
            }
            Ok(())
        },
        ColumnSelector::SubqueryColumn { subquery, alias } => {
            proof {
                assert(decreases_to!(*sel => (*sel)->SubqueryColumn_subquery));
                assert(decreases_to!(
                    (*sel)->SubqueryColumn_subquery => (*sel)->SubqueryColumn_subquery.query));
            }
            match subquery.query.to_sql() {
                Err(e) => Err(e),
                Ok(t) => {
                    sql.append("(");
                    sql.append(t.as_str());
                    sql.append(")");
                    append_alias(sql, alias);
                    proof {
                        assert(sql@ =~= pre + with_alias(
                            "("@ + select_render((*sel)@->SubqueryColumn_subquery)->Ok_0 + ")"@,
                            alias_view(*alias),
                        ));
                    }
                    Ok(())
                },
            }
        },
    }
}

/// Append the rendered column list to `sql`, `, `-joined; the first
/// failing nested subquery ends the attempt with its error.
#[verifier::loop_isolation(false)]
fn append_selectors(sql: &mut String, sels: &Vec<ColumnSelector>) -> (r: Result<(), Error>)
    ensures
        r is Ok ==> selectors_render(selector_views(sels@)) is Ok && final(sql)@ == old(sql)@
            + selectors_render(selector_views(sels@))->Ok_0,
        r is Err ==> selectors_render(selector_views(sels@)) is Err && r->Err_0@
            == selectors_render(selector_views(sels@))->Err_0,
    decreases sels@,
{
    let ghost sv = selector_views(sels@);
    proof {
        selector_views_props(sels@);
        assert(selectors_render(sv.take(0)) == Ok::<Seq<char>, ErrorV>(Seq::empty()));
    }
    let ghost base = sql@;
    let mut i: usize = 0;
    while i < sels.len()
        invariant
            0 <= i <= sels@.len(),
            selectors_render(sv.take(i as int)) is Ok,
            sql@ == base + selectors_render(sv.take(i as int))->Ok_0,
        decreases sels@.len() - i,
    {
        if i > 0 {
            sql.append(", ");
        }
        proof {
            assert(decreases_to!(sels@ => sels@[i as int]));
        }
        match append_one_selector(sql, &sels[i]) {
            Err(e) => {
                proof {
                    lemma_selectors_render_step(sv, i as int);
                    lemma_selectors_render_err_extends(sv, i + 1);
                }
                return Err(e);
            },
            Ok(()) => {},
        }
        proof {
            lemma_selectors_render_step(sv, i as int);
            assert(sql@ =~= base + selectors_render(sv.take(i + 1))->Ok_0);
        }
        i = i + 1;
    }
    proof {
        assert(sv.take(sels@.len() as int) =~= sv);
    }
    Ok(())
}

/// Append the optional ` AS <alias>` suffix to `sql`.
fn append_alias(sql: &mut String, alias: &Option<String>)
    ensures
        final(sql)@ == with_alias(old(sql)@, alias_view(*alias)),
{
    match alias {
        None => {},
        Some(a) => {
            sql.append(" AS ");
            sql.append(a.as_str());
        },
    }
}

/// Append one rendered subquery condition to `sql`, its connector
/// included when anything stands before it, or fail with the nested
/// subquery's error.
#[verifier::loop_isolation(false)]
#[verifier::rlimit(60)]
fn append_one_subcond(sql: &mut String, c: &SubqueryCondition, emit_connector: bool) -> (r: Result<
    (),
    Error,
>)
    ensures
        r is Ok ==> select_render(c@.subquery) is Ok && final(sql)@ == old(sql)@ + (
        if emit_connector {
            connector_token(c@.connector)
        } else {
            Seq::empty()
        }) + subcond_head(c@) + "("@ + select_render(c@.subquery)->Ok_0 + ")"@,
        r is Err ==> select_render(c@.subquery) is Err && r->Err_0@ == select_render(
            c@.subquery,
        )->Err_0,
    decreases *c,
{
    proof {
        assert(decreases_to!(*c => (*c).subquery));
        assert(decreases_to!((*c).subquery => (*c).subquery.query));
    }
    let ghost pre = sql@;
    match c.subquery.query.to_sql() {
        Err(e) => Err(e),
        Ok(t) => {
            let ghost q = select_render(c@.subquery)->Ok_0;
            proof {
                assert(t@ == q);
            }
            if emit_connector {
                match c.connector {
                    WhereConnector::And => sql.append(" AND "),
                    WhereConnector::Or => sql.append(" OR "),
                }
            }
            proof {
                assert(sql@ =~= pre + (if emit_connector {
                    connector_token(c@.connector)
                } else {
                    Seq::empty()
                }));
            }
            let ghost afterconn = sql@;
            sql.append(c.column.as_str());
            if c.column.as_str().unicode_len() > 0 {
                sql.append(" ");
            }
            sql.append(c.operator.as_str());
            sql.append(" ");
            proof {
                if c.column@.len() == 0 {
                    assert(sql@ =~= afterconn + c.column@ + op_text(c@.operator) + " "@);
                    assert(afterconn + c.column@ + op_text(c@.operator) + " "@ =~= afterconn
                        + subcond_head(c@));
                } else {
                    assert(sql@ =~= afterconn + c.column@ + " "@ + op_text(c@.operator) + " "@);
                    assert(afterconn + c.column@ + " "@ + op_text(c@.operator) + " "@
                        =~= afterconn + subcond_head(c@));
                }
                assert(sql@ == afterconn + subcond_head(c@));
            }
            let ghost afterhead = sql@;
            sql.append("(");
            sql.append(t.as_str());
            sql.append(")");
            proof {
                assert(sql@ =~= afterhead + "("@ + q + ")"@);
                assert(sql@ =~= pre + (if emit_connector {
                    connector_token(c@.connector)
                } else {
                    Seq::empty()
                }) + subcond_head(c@) + "("@ + q + ")"@);
            }
            Ok(())
        },
    }
}

/// Append the rendered subquery conditions to `sql`; the first failing
/// nested subquery ends the attempt with its error.
#[verifier::loop_isolation(false)]
#[verifier::rlimit(100)]
#[verifier::spinoff_prover]
fn append_subconds(sql: &mut String, sc: &Vec<SubqueryCondition>, has_prior: bool) -> (r: Result<
    (),
    Error,
>)
    ensures
        r is Ok ==> subconds_render(subcond_views(sc@), has_prior) is Ok && final(sql)@
            == old(sql)@ + subconds_render(subcond_views(sc@), has_prior)->Ok_0,
        r is Err ==> subconds_render(subcond_views(sc@), has_prior) is Err && r->Err_0@
            == subconds_render(subcond_views(sc@), has_prior)->Err_0,
    decreases sc@,
{
    let ghost sv = subcond_views(sc@);
    proof {
        subcond_views_props(sc@);
        assert(subconds_render(sv.take(0), has_prior) == Ok::<Seq<char>, ErrorV>(
            Seq::empty(),
        ));
    }
    let ghost base = sql@;
    let mut i: usize = 0;
    while i < sc.len()
        invariant
            0 <= i <= sc@.len(),
            subconds_render(sv.take(i as int), has_prior) is Ok,
            sql@ == base + subconds_render(sv.take(i as int), has_prior)->Ok_0,
        decreases sc@.len() - i,
    {
        proof {
            assert(decreases_to!(sc@ => sc@[i as int]));
        }
        match append_one_subcond(sql, &sc[i], has_prior || i > 0) {
            Err(e) => {
                proof {
                    lemma_subconds_render_step(sv, has_prior, i as int);
                    lemma_subconds_render_err_extends(sv, has_prior, i + 1);
                }
                return Err(e);
            },
            Ok(()) => {},
        }
        proof {
            lemma_subconds_render_step(sv, has_prior, i as int);
            assert(sql@ =~= base + subconds_render(sv.take(i + 1), has_prior)->Ok_0);
        }
        i = i + 1;
    }
    proof {
        assert(sv.take(sc@.len() as int) =~= sv);
    }
    Ok(())
}

impl SelectBuilderComplete {
    /// Render this SELECT: every operator anywhere in the query is
    /// validated before any text is assembled, nested subqueries render
    /// recursively, and the text follows the fixed clause order
    /// `SELECT .. FROM .. JOIN .. WHERE .. GROUP BY .. HAVING ..
    /// ORDER BY .. LIMIT .. OFFSET` exactly, as `select_render` states.
    pub fn to_sql(&self) -> (r: Result<String, Error>)
        ensures
            select_render(self@) is Ok <==> r is Ok,
            r is Ok ==> r->Ok_0@ == select_render(self@)->Ok_0,
            r is Err ==> r->Err_0@ == select_render(self@)->Err_0,
        decreases *self, 1int,
    {
        match crate::render::validate_conditions(&self.where_conditions) {
            Err(e) => {
                return Err(e);
            },
            Ok(()) => {},
        }
        match validate_subconds(&self.subquery_conditions) {
            Err(e) => {
                return Err(e);
            },
            Ok(()) => {},
        }
        match validate_joins(&self.join_clauses) {
            Err(e) => {
                return Err(e);
            },
            Ok(()) => {},
        }
        match validate_having(&self.having_conditions) {
            Err(e) => {
                return Err(e);
            },
            Ok(()) => {},
        }
        self.assemble()
    }

    /// Assemble the SQL text once every operator of this level has been
    /// validated; only a nested subquery can still fail.
    #[verifier::rlimit(100)]
    fn assemble(&self) -> (r: Result<String, Error>)
        requires
            all_ops_known(select_view(*self).where_conditions),
            subcond_ops_known(select_view(*self).subquery_conditions),
            join_ops_known(select_view(*self).join_clauses),
            having_ops_known(select_view(*self).having_conditions),
        ensures
            select_render(self@) is Ok <==> r is Ok,
            r is Ok ==> r->Ok_0@ == select_render(self@)->Ok_0,
            r is Err ==> r->Err_0@ == select_render(self@)->Err_0,
        decreases *self, 0int,
    {
        let mut sql = "SELECT ".to_owned();
        if self.distinct {
            sql.append("DISTINCT ");
        }
        let ghost cols_spec: Result<Seq<char>, ErrorV> = if self@.selected_columns.len() == 0 {
            Ok("*"@)
        } else {
            selectors_render(self@.selected_columns)
        };
        if self.selected_columns.len() == 0 {
            sql.append("*");
        } else {
            proof {
                assert(decreases_to!(*self => (*self).selected_columns));
                assert(decreases_to!((*self).selected_columns => (*self).selected_columns@));
            }
            match append_selectors(&mut sql, &self.selected_columns) {
                Err(e) => {
                    return Err(e);
                },
                Ok(()) => {},
            }
        }
        sql.append(" FROM ");
        sql.append(self.table_name.as_str());
        append_joins(&mut sql, &self.join_clauses);
        proof {
            assert(sql@ =~= "SELECT "@ + (if self@.distinct {
                "DISTINCT "@
            } else {
                Seq::<char>::empty()
            }) + cols_spec->Ok_0 + " FROM "@ + self@.table_name + joins_sql(self@.join_clauses));
        }
        let ghost pre_where = sql@;
        if self.where_conditions.len() > 0 || self.subquery_conditions.len() > 0 {
            sql.append(" WHERE ");
            crate::render::append_conditions(&mut sql, &self.where_conditions);
            proof {
                assert(decreases_to!(*self => (*self).subquery_conditions));
                assert(decreases_to!(
                    (*self).subquery_conditions => (*self).subquery_conditions@));
            }
            match append_subconds(
                &mut sql,
                &self.subquery_conditions,
                self.where_conditions.len() > 0,
            ) {
                Err(e) => {
                    return Err(e);
                },
                Ok(()) => {},
            }
            proof {
                assert(sql@ =~= pre_where + (" WHERE "@ + conditions_sql(self@.where_conditions)
                    + subconds_render(
                    self@.subquery_conditions,
                    self@.where_conditions.len() > 0,
                )->Ok_0));
            }
        }
        proof {
            assert(sql@ =~= pre_where + (
            if self@.where_conditions.len() == 0 && self@.subquery_conditions.len() == 0 {
                Seq::<char>::empty()
            } else {
                " WHERE "@ + conditions_sql(self@.where_conditions) + subconds_render(
                    self@.subquery_conditions,
                    self@.where_conditions.len() > 0,
                )->Ok_0
            }));
        }
        let ghost head = sql@;
        append_group_having(&mut sql, &self.group_by_clause, &self.having_conditions);
        append_order_by(&mut sql, &self.order_by_clauses);
        match self.limit_value {
            Some(n) => {
                sql.append(" LIMIT ");
                append_u64(&mut sql, n);
            },
            None => {},
        }
        match self.offset_value {
            Some(n) => {
                sql.append(" OFFSET ");
                append_u64(&mut sql, n);
            },
            None => {},
        }
        proof {
            assert(sql@ =~= head + group_having_sql(self@.group_by_clause, self@.having_conditions)
                + order_by_sql(self@.order_by_clauses) + limit_sql(self@.limit_value)
                + offset_sql(self@.offset_value));
            assert(select_render(self@) is Ok);
            assert(sql@ =~= select_render(self@)->Ok_0);
        }
        Ok(sql)
    }

    /// The parameters this SELECT hands out directly: WHERE values before
    /// HAVING values, matching its own placeholders. Values bound inside
    /// subqueries stay with the nested builders; see
    /// `flattened_parameters`.
    pub fn parameters(&self) -> (r: Vec<Value>)
        ensures
            param_views(r@) == select_params(self@),
    {
        let mut out: Vec<Value> = Vec::new();
        crate::render::collect_where_params(&mut out, &self.where_conditions);
        collect_having_params(&mut out, &self.having_conditions);
        out
    }

    /// Every parameter the rendered SQL binds, nested subqueries
    /// included, in the left-to-right order of `?` placeholders in the
    /// text.
    pub fn flattened_parameters(&self) -> (r: Vec<Value>)
        ensures
            param_views(r@) == select_flat_params(self@),
        decreases *self,
    {
        let mut out: Vec<Value> = Vec::new();
        collect_flat_params(&mut out, self);
        out
    }
}

/// Append a clone of each HAVING condition's bound value to `out`.
#[verifier::loop_isolation(false)]
fn collect_having_params(out: &mut Vec<Value>, hc: &Vec<HavingCondition>)
    ensures
        param_views(final(out)@) == param_views(old(out)@) + having_params(
            hc@.map_values(|h: HavingCondition| h@),
        ),
{
    let ghost hv = hc@.map_values(|h: HavingCondition| h@);
    let ghost base = param_views(out@);
    let mut i: usize = 0;
    while i < hc.len()
        invariant
            0 <= i <= hc@.len(),
            param_views(out@) =~= base + having_params(hv.take(i as int)),
        decreases hc@.len() - i,
    {
        let v = hc[i].value.clone();
        proof {
            assert(hv[i as int] == hc@[i as int]@);
            assert(v@ == hv[i as int].value);
        }
        let ghost prev = out@;
        let ghost vv = v@;
        out.push(v);
        proof {
            assert(out@ == prev.push(v));
            assert(param_views(out@) =~= param_views(prev).push(vv));
            assert(having_params(hv.take(i + 1)) =~= having_params(hv.take(i as int)).push(
                hv[i as int].value));
            assert(param_views(out@) =~= base + having_params(hv.take(i + 1)));
        }
        i = i + 1;
    }
    proof {
        assert(hv.take(hc@.len() as int) =~= hv);
        assert(param_views(out@) =~= base + having_params(hv));
    }
}

proof fn lemma_selector_flat_step(s: Seq<ColumnSelectorV>, i: int)
    requires
        0 <= i < s.len(),
    ensures
        selector_flat_params(s.take(i + 1)) == selector_flat_params(s.take(i)) + (match s[i] {
            ColumnSelectorV::SubqueryColumn { subquery, alias: _ } => select_flat_params(
                subquery,
            ),
            _ => Seq::empty(),
        }),
{
    assert(s.take(i + 1).drop_last() =~= s.take(i));
    assert(s.take(i + 1).last() == s[i]);
}

proof fn lemma_subcond_flat_step(s: Seq<SubqueryConditionV>, i: int)
    requires
        0 <= i < s.len(),
    ensures
        subcond_flat_params(s.take(i + 1)) == subcond_flat_params(s.take(i)) + select_flat_params(
            s[i].subquery,
        ),
{
    assert(s.take(i + 1).drop_last() =~= s.take(i));
    assert(s.take(i + 1).last() == s[i]);
}

/// Append every parameter of the query, nested subqueries included, to
/// `out`, in placeholder order.
#[verifier::loop_isolation(false)]
fn collect_flat_params(out: &mut Vec<Value>, b: &SelectBuilderComplete)
    ensures
        param_views(final(out)@) == param_views(old(out)@) + select_flat_params(b@),
    decreases *b,
{
    let ghost sv = selector_views(b.selected_columns@);
    proof {
        selector_views_props(b.selected_columns@);
    }
    let ghost base0 = param_views(out@);
    let mut i: usize = 0;
    while i < b.selected_columns.len()
        invariant
            0 <= i <= b.selected_columns@.len(),
            param_views(out@) =~= base0 + selector_flat_params(sv.take(i as int)),
        decreases b.selected_columns@.len() - i,
    {
        match &b.selected_columns[i] {
            ColumnSelector::SubqueryColumn { subquery, alias: _ } => {
                proof {
                    assert(decreases_to!(*b => (*b).selected_columns));
                    assert(decreases_to!((*b).selected_columns => (*b).selected_columns@));
                    assert(decreases_to!(
                        (*b).selected_columns@ => (*b).selected_columns@[i as int]));
                    assert(decreases_to!(
                        (*b).selected_columns@[i as int] =>
                        (*b).selected_columns@[i as int]->SubqueryColumn_subquery));
                    assert(decreases_to!(
                        (*b).selected_columns@[i as int]->SubqueryColumn_subquery =>
                        (*b).selected_columns@[i as int]->SubqueryColumn_subquery.query));
                }
                collect_flat_params(out, &subquery.query);
            },
            _ => {},
        }
        proof {
            lemma_selector_flat_step(sv, i as int);
            assert(param_views(out@) =~= base0 + selector_flat_params(sv.take(i + 1)));
        }
        i = i + 1;
    }
    proof {
        assert(sv.take(b.selected_columns@.len() as int) =~= sv);
    }
    crate::render::collect_where_params(out, &b.where_conditions);
    let ghost scv = subcond_views(b.subquery_conditions@);
    proof {
        subcond_views_props(b.subquery_conditions@);
    }
    let ghost base1 = param_views(out@);
    let mut k: usize = 0;
    while k < b.subquery_conditions.len()
        invariant
            0 <= k <= b.subquery_conditions@.len(),
            param_views(out@) =~= base1 + subcond_flat_params(scv.take(k as int)),
        decreases b.subquery_conditions@.len() - k,
    {
        let c = &b.subquery_conditions[k];
        proof {
            assert(decreases_to!(*b => (*b).subquery_conditions));
            assert(decreases_to!((*b).subquery_conditions => (*b).subquery_conditions@));
            assert(decreases_to!(
                (*b).subquery_conditions@ => (*b).subquery_conditions@[k as int]));
            assert(decreases_to!(
                (*b).subquery_conditions@[k as int] =>
                (*b).subquery_conditions@[k as int].subquery));
            assert(decreases_to!(
                (*b).subquery_conditions@[k as int].subquery =>
                (*b).subquery_conditions@[k as int].subquery.query));
        }
        collect_flat_params(out, &c.subquery.query);
        proof {
            lemma_subcond_flat_step(scv, k as int);
            assert(param_views(out@) =~= base1 + subcond_flat_params(scv.take(k + 1)));
        }
        k = k + 1;
    }
    proof {
        assert(scv.take(b.subquery_conditions@.len() as int) =~= scv);
    }
    collect_having_params(out, &b.having_conditions);
}

impl Subquery {
    /// Render the nested SELECT, parenthesized.
    pub fn to_sql(&self) -> (r: Result<String, Error>)
        ensures
            select_render(self@) is Ok <==> r is Ok,
            r is Ok ==> r->Ok_0@ == "("@ + select_render(self@)->Ok_0 + ")"@,
            r is Err ==> r->Err_0@ == select_render(self@)->Err_0,
        decreases *self,
    {
        proof {
            assert(decreases_to!(*self => (*self).query));
        }
        match self.query.to_sql() {
            Err(e) => Err(e),
            Ok(t) => {
                let mut s = "(".to_owned();
                s.append(t.as_str());
                s.append(")");
                Ok(s)
            },
        }
    }

    /// The nested builder's own parameters, in its placeholder order.
    pub fn parameters(&self) -> (r: Vec<Value>)
        ensures
            param_views(r@) == select_params(self@),
    {
        self.query.parameters()
    }

    /// Every parameter the nested SQL binds, recursively flattened.
    pub fn flattened_parameters(&self) -> (r: Vec<Value>)
        ensures
            param_views(r@) == select_flat_params(self@),
    {
        self.query.flattened_parameters()
    }
}

/// The error returned when a SELECT without a column list is rendered.
pub open spec fn select_incomplete_error() -> ErrorV {
    ErrorV::InvalidQuery { message: "SELECT requires columns to be specified with .select()"@ }
}

impl QueryBuilder for SelectBuilderInitial {
    /// Rendering a SELECT that has not declared its columns always fails.
    fn to_sql(&self) -> (r: Result<String, Error>)
        ensures
            r is Err && r->Err_0@ == select_incomplete_error(),
    {
        Err(Error::invalid_query("SELECT requires columns to be specified with .select()"))
    }

    fn parameters(&self) -> (r: Vec<Value>)
        ensures
            r@.len() == 0,
    {
        Vec::new()
    }
}

impl QueryBuilder for SelectBuilderComplete {
    fn to_sql(&self) -> (r: Result<String, Error>)
        ensures
            select_render(self@) is Ok <==> r is Ok,
            r is Ok ==> r->Ok_0@ == select_render(self@)->Ok_0,
    {
        SelectBuilderComplete::to_sql(self)
    }

    fn parameters(&self) -> (r: Vec<Value>)
        ensures
            param_views(r@) == select_params(self@),
    {
        SelectBuilderComplete::parameters(self)
    }
}

} // verus!
