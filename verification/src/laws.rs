//! The crossing properties of the library, stated and proved once: order
//! preservation of connectors, determinism of rendering, and the
//! placeholder/parameter alignment of every statement kind.

use vstd::prelude::*;
use crate::common::{connector_token, WhereConditionV};
use crate::delete::{delete_sql, DeleteBuilderCompleteV};
use crate::error::ErrorV;
use crate::insert::{flat_rows, insert_sql, placeholders, value_groups_sql, InsertBuilderCompleteV};
use crate::operator::unknown_op_error;
use crate::render::{
    all_ops_known, comma_join, cond_text, conditions_sql, conds_no_q, count_placeholders,
    first_unknown_token, lemma_conditions_sql_count, lemma_conditions_sql_step, lemma_count_add,
    lemma_count_no_q, lemma_where_clause_count, no_q, where_params,
};
use crate::update::{
    set_clauses_sql, set_params, update_params, update_sql, UpdateBuilderCompleteV,
};

verus! {

/// Order preservation law: in a rendered condition clause, the token
/// standing between the first `i` conditions and the condition at
/// position `i` is exactly that condition's own connector token, so the
/// rendered AND/OR sequence follows the connectors in call order.
pub proof fn law_connector_order(conds: Seq<WhereConditionV>, i: int)
    requires
        1 <= i < conds.len(),
    ensures
        conditions_sql(conds.take(i + 1)) == conditions_sql(conds.take(i)) + connector_token(
            conds[i].connector,
        ) + cond_text(conds[i]),
{
    lemma_conditions_sql_step(conds, i);
}

/// What the contract of `DeleteBuilderComplete::to_sql` admits for a
/// render outcome of shape `v`.
pub open spec fn delete_render_post(v: DeleteBuilderCompleteV, r: Result<Seq<char>, ErrorV>) -> bool {
    &&& r is Ok <==> all_ops_known(v.where_conditions)
    &&& (r is Ok ==> r->Ok_0 == delete_sql(v))
    &&& (r is Err ==> r->Err_0 == unknown_op_error(first_unknown_token(v.where_conditions)))
}

/// Determinism law for DELETE: the render contract pins one outcome, so
/// two renders of one builder agree exactly, text and error alike, and so
/// do two parameter sequences.
pub proof fn law_delete_deterministic(
    v: DeleteBuilderCompleteV,
    r1: Result<Seq<char>, ErrorV>,
    r2: Result<Seq<char>, ErrorV>,
    p1: Seq<crate::value::ValueV>,
    p2: Seq<crate::value::ValueV>,
)
    requires
        delete_render_post(v, r1),
        delete_render_post(v, r2),
        p1 == where_params(v.where_conditions),
        p2 == where_params(v.where_conditions),
    ensures
        r1 == r2,
        p1 == p2,
{
}

/// What the contract of `UpdateBuilderComplete::to_sql` admits for a
/// render outcome of shape `v`.
pub open spec fn update_render_post(v: UpdateBuilderCompleteV, r: Result<Seq<char>, ErrorV>) -> bool {
    &&& r is Ok <==> (v.set_clauses.len() > 0 && all_ops_known(v.where_conditions))
    &&& (r is Ok ==> r->Ok_0 == update_sql(v))
    &&& (r is Err && v.set_clauses.len() == 0 ==> r->Err_0 == crate::update::update_empty_set_error())
    &&& (r is Err && v.set_clauses.len() > 0 ==> r->Err_0 == unknown_op_error(
        first_unknown_token(v.where_conditions),
    ))
}

/// Determinism law for UPDATE.
pub proof fn law_update_deterministic(
    v: UpdateBuilderCompleteV,
    r1: Result<Seq<char>, ErrorV>,
    r2: Result<Seq<char>, ErrorV>,
)
    requires
        update_render_post(v, r1),
        update_render_post(v, r2),
    ensures
        r1 == r2,
{
}

/// What the contract of `InsertBuilderComplete::to_sql` admits for a
/// render outcome of shape `v`.
pub open spec fn insert_render_post(v: InsertBuilderCompleteV, r: Result<Seq<char>, ErrorV>) -> bool {
    &&& r is Ok <==> (v.columns.len() > 0 && v.rows.len() > 0)
    &&& (r is Ok ==> r->Ok_0 == insert_sql(v))
    &&& (r is Err ==> r->Err_0 == crate::insert::insert_empty_error())
}

/// Determinism law for INSERT.
pub proof fn law_insert_deterministic(
    v: InsertBuilderCompleteV,
    r1: Result<Seq<char>, ErrorV>,
    r2: Result<Seq<char>, ErrorV>,
)
    requires
        insert_render_post(v, r1),
        insert_render_post(v, r2),
    ensures
        r1 == r2,
{
}

/// Determinism law for SELECT: `select_render` is a function of the
/// builder's shape, so two renders of one builder agree exactly.
pub proof fn law_select_deterministic(
    v: crate::select::SelectV,
    r1: Result<Seq<char>, ErrorV>,
    r2: Result<Seq<char>, ErrorV>,
)
    requires
        r1 == crate::select::select_render(v),
        r2 == crate::select::select_render(v),
    ensures
        r1 == r2,
{
}

/// Unknown-operator law: a clause whose first unknown operator has token
/// `t` never renders; the outcome is the unknown-operator error naming
/// `t`, exactly. Stated here for DELETE; the SELECT and UPDATE contracts
/// carry the same clause.
pub proof fn law_unknown_operator_rejected(
    v: DeleteBuilderCompleteV,
    r: Result<Seq<char>, ErrorV>,
)
    requires
        delete_render_post(v, r),
        !all_ops_known(v.where_conditions),
    ensures
        r == Err::<Seq<char>, ErrorV>(
            unknown_op_error(first_unknown_token(v.where_conditions)),
        ),
{
}

/// Placeholder alignment law for DELETE: the rendered text holds exactly
/// one `?` per parameter, provided the caller-supplied table name, column
/// names and custom operator tokens hold no `?` of their own.
pub proof fn law_delete_placeholder_alignment(v: DeleteBuilderCompleteV)
    requires
        no_q(v.table_name),
        conds_no_q(v.where_conditions),
    ensures
        count_placeholders(delete_sql(v)) == where_params(v.where_conditions).len(),
{
    broadcast use lemma_count_add;

    assert(no_q("DELETE FROM "@)) by {
        reveal_strlit("DELETE FROM ");
    }
    lemma_count_no_q("DELETE FROM "@);
    lemma_count_no_q(v.table_name);
    lemma_where_clause_count(v.where_conditions);
}

/// Placeholder count of the SET list: one per assignment, provided the
/// column names hold no `?`.
pub proof fn lemma_set_clauses_count(cs: Seq<(Seq<char>, crate::value::ValueV)>)
    requires
        forall|i: int| 0 <= i < cs.len() ==> no_q(#[trigger] cs[i].0),
    ensures
        count_placeholders(set_clauses_sql(cs)) == cs.len(),
    decreases cs,
{
    broadcast use lemma_count_add;

    assert(count_placeholders(" = ?"@) == 1) by {
        reveal_with_fuel(count_placeholders, 5);
        reveal_strlit(" = ?");
    }
    assert(no_q(", "@)) by {
        reveal_strlit(", ");
    }
    if cs.len() == 0 {
    } else if cs.len() == 1 {
        lemma_count_no_q(cs[0].0);
    } else {
        lemma_set_clauses_count(cs.drop_last());
        lemma_count_no_q(cs.last().0);
        lemma_count_no_q(", "@);
    }
}

/// Placeholder alignment law for UPDATE: one `?` per assigned value, then
/// one per condition value, matching `update_params` exactly.
pub proof fn law_update_placeholder_alignment(v: UpdateBuilderCompleteV)
    requires
        no_q(v.table_name),
        forall|i: int| 0 <= i < v.set_clauses.len() ==> no_q(#[trigger] v.set_clauses[i].0),
        conds_no_q(v.where_conditions),
    ensures
        count_placeholders(update_sql(v)) == update_params(v).len(),
{
    broadcast use lemma_count_add;

    assert(no_q("UPDATE "@)) by {
        reveal_strlit("UPDATE ");
    }
    assert(no_q(" SET "@)) by {
        reveal_strlit(" SET ");
    }
    lemma_count_no_q("UPDATE "@);
    lemma_count_no_q(" SET "@);
    lemma_count_no_q(v.table_name);
    lemma_set_clauses_count(v.set_clauses);
    lemma_where_clause_count(v.where_conditions);
    assert(update_params(v).len() == set_params(v.set_clauses).len() + where_params(
        v.where_conditions,
    ).len());
}

/// Placeholder count of one placeholder group: exactly `n`.
pub proof fn lemma_placeholders_count(n: int)
    requires
        n >= 0,
    ensures
        count_placeholders(placeholders(n)) == n,
    decreases n,
{
    broadcast use lemma_count_add;

    assert(count_placeholders("?"@) == 1) by {
        reveal_with_fuel(count_placeholders, 2);
        reveal_strlit("?");
    }
    assert(count_placeholders(", ?"@) == 1) by {
        reveal_with_fuel(count_placeholders, 4);
        reveal_strlit(", ?");
    }
    if n > 1 {
        lemma_placeholders_count(n - 1);
    }
}

/// Placeholder count of the VALUES groups: the total size of all rows.
pub proof fn lemma_value_groups_count(rows: Seq<Seq<crate::value::ValueV>>)
    ensures
        count_placeholders(value_groups_sql(rows)) == flat_rows(rows).len(),
    decreases rows,
{
    broadcast use lemma_count_add;

    assert(no_q("("@)) by {
        reveal_strlit("(");
    }
    assert(no_q(")"@)) by {
        reveal_strlit(")");
    }
    assert(no_q(", ("@)) by {
        reveal_strlit(", (");
    }
    lemma_count_no_q("("@);
    lemma_count_no_q(")"@);
    lemma_count_no_q(", ("@);
    if rows.len() == 0 {
    } else if rows.len() == 1 {
        lemma_placeholders_count(rows[0].len() as int);
        assert(flat_rows(rows.drop_last()).len() == 0) by {
            reveal_with_fuel(flat_rows, 2);
        }
        assert(flat_rows(rows) =~= rows[0]);
    } else {
        lemma_value_groups_count(rows.drop_last());
        lemma_placeholders_count(rows.last().len() as int);
    }
}

/// Placeholder alignment law for INSERT: the rendered text holds exactly
/// one `?` per bound value, row by row, provided the table and column
/// names hold no `?` of their own.
pub proof fn law_insert_placeholder_alignment(v: InsertBuilderCompleteV)
    requires
        no_q(v.table_name),
        forall|i: int| 0 <= i < v.columns.len() ==> no_q(#[trigger] v.columns[i]),
    ensures
        count_placeholders(insert_sql(v)) == flat_rows(v.rows).len(),
{
    broadcast use lemma_count_add;

    assert(no_q("INSERT INTO "@)) by {
        reveal_strlit("INSERT INTO ");
    }
    assert(no_q(" ("@)) by {
        reveal_strlit(" (");
    }
    assert(no_q(") VALUES "@)) by {
        reveal_strlit(") VALUES ");
    }
    lemma_count_no_q("INSERT INTO "@);
    lemma_count_no_q(" ("@);
    lemma_count_no_q(") VALUES "@);
    lemma_count_no_q(v.table_name);
    lemma_comma_join_count(v.columns);
    lemma_value_groups_count(v.rows);
}

/// A comma-joined list of `?`-free names holds no placeholder.
pub proof fn lemma_comma_join_count(items: Seq<Seq<char>>)
    requires
        forall|i: int| 0 <= i < items.len() ==> no_q(#[trigger] items[i]),
    ensures
        count_placeholders(comma_join(items)) == 0,
    decreases items,
{
    broadcast use lemma_count_add;

    assert(no_q(", "@)) by {
        reveal_strlit(", ");
    }
    if items.len() == 0 {
    } else if items.len() == 1 {
        lemma_count_no_q(items[0]);
    } else {
        lemma_comma_join_count(items.drop_last());
        lemma_count_no_q(items.last());
        lemma_count_no_q(", "@);
    }
}

} // verus!
verus! {

/// Concatenation preserves freedom from placeholders.
pub proof fn lemma_no_q_add(a: Seq<char>, b: Seq<char>)
    requires
        no_q(a),
        no_q(b),
    ensures
        no_q(a + b),
{
    assert forall|i: int| 0 <= i < (a + b).len() implies (a + b)[i] != '?' by {
        if i < a.len() {
            assert((a + b)[i] == a[i]);
        } else {
            assert((a + b)[i] == b[i - a.len()]);
        }
    }
}

/// No known operator's token holds a placeholder.
pub proof fn lemma_known_op_text_no_q(o: crate::operator::OpV)
    requires
        !(o is Custom),
        !(o is Unknown),
    ensures
        no_q(crate::operator::op_text(o)),
{
    reveal_strlit("=");
    reveal_strlit("!=");
    reveal_strlit(">");
    reveal_strlit("<");
    reveal_strlit(">=");
    reveal_strlit("<=");
    reveal_strlit("LIKE");
    reveal_strlit("ILIKE");
    reveal_strlit("IN");
    reveal_strlit("NOT IN");
    reveal_strlit("IS NULL");
    reveal_strlit("IS NOT NULL");
    reveal_strlit("EXISTS");
    reveal_strlit("NOT EXISTS");
}

/// Well-formedness for placeholder counting: every caller-supplied name
/// and token in the query, subqueries included, is free of `?`, and
/// HAVING conditions come only with a GROUP BY (a HAVING without GROUP BY
/// binds values that the renderer never emits placeholders for).
pub open spec fn select_placeholder_wf(v: crate::select::SelectV) -> bool
    decreases v,
{
    &&& no_q(v.table_name)
    &&& selectors_placeholder_wf(v.selected_columns)
    &&& conds_no_q(v.where_conditions)
    &&& subconds_placeholder_wf(v.subquery_conditions)
    &&& (forall|i: int|
        0 <= i < v.join_clauses.len() ==> join_no_q(#[trigger] v.join_clauses[i]))
    &&& (v.group_by_clause is Some ==> forall|i: int|
        0 <= i < v.group_by_clause->0.columns.len() ==> no_q(
            #[trigger] v.group_by_clause->0.columns[i],
        ))
    &&& (forall|i: int|
        0 <= i < v.having_conditions.len() ==> having_no_q(#[trigger] v.having_conditions[i]))
    &&& (forall|i: int|
        0 <= i < v.order_by_clauses.len() ==> no_q(#[trigger] v.order_by_clauses[i].column))
    &&& (v.having_conditions.len() > 0 ==> v.group_by_clause is Some)
}

pub open spec fn alias_no_q(a: Option<Seq<char>>) -> bool {
    a is Some ==> no_q(a->0)
}

pub open spec fn selector_placeholder_wf(c: crate::select::ColumnSelectorV) -> bool
    decreases c,
{
    match c {
        crate::select::ColumnSelectorV::Column(name) => no_q(name),
        crate::select::ColumnSelectorV::Aggregate { function: _, column, alias } => no_q(column)
            && alias_no_q(alias),
        crate::select::ColumnSelectorV::CountAll { alias } => alias_no_q(alias),
        crate::select::ColumnSelectorV::SubqueryColumn { subquery, alias } => select_placeholder_wf(
            subquery,
        ) && alias_no_q(alias),
    }
}

pub open spec fn selectors_placeholder_wf(s: Seq<crate::select::ColumnSelectorV>) -> bool
    decreases s,
{
    if s.len() == 0 {
        true
    } else {
        selectors_placeholder_wf(s.drop_last()) && selector_placeholder_wf(s.last())
    }
}

pub open spec fn subcond_placeholder_wf(c: crate::select::SubqueryConditionV) -> bool
    decreases c,
{
    no_q(c.column) && no_q(crate::operator::op_text(c.operator)) && select_placeholder_wf(
        c.subquery,
    )
}

pub open spec fn subconds_placeholder_wf(s: Seq<crate::select::SubqueryConditionV>) -> bool
    decreases s,
{
    if s.len() == 0 {
        true
    } else {
        subconds_placeholder_wf(s.drop_last()) && subcond_placeholder_wf(s.last())
    }
}

pub open spec fn join_no_q(j: crate::common::JoinClauseV) -> bool {
    no_q(j.table) && forall|k: int|
        0 <= k < j.on_conditions.len() ==> (no_q(#[trigger] j.on_conditions[k].left_column)
            && no_q(j.on_conditions[k].right_column) && no_q(
            crate::operator::op_text(j.on_conditions[k].operator),
        ))
}

pub open spec fn having_no_q(h: crate::common::HavingConditionV) -> bool {
    no_q(h.column_or_function) && no_q(crate::operator::op_text(h.operator))
}

proof fn lemma_join_type_no_q(t: crate::common::JoinType)
    ensures
        no_q(crate::common::join_type_text(t)),
{
    reveal_strlit("INNER");
    reveal_strlit("LEFT");
    reveal_strlit("RIGHT");
    reveal_strlit("FULL OUTER");
    reveal_strlit("CROSS");
}

proof fn lemma_join_conds_sql_count(cs: Seq<crate::common::JoinConditionV>)
    requires
        forall|k: int|
            0 <= k < cs.len() ==> (no_q(#[trigger] cs[k].left_column) && no_q(
                cs[k].right_column,
            ) && no_q(crate::operator::op_text(cs[k].operator))),
    ensures
        count_placeholders(crate::select::join_conds_sql(cs)) == 0,
    decreases cs,
{
    broadcast use lemma_count_add;

    assert(no_q(" "@)) by {
        reveal_strlit(" ");
    }
    assert(no_q(" AND "@)) by {
        reveal_strlit(" AND ");
    }
    assert(no_q(" OR "@)) by {
        reveal_strlit(" OR ");
    }
    if cs.len() == 0 {
    } else {
        lemma_join_conds_sql_count(cs.drop_last());
        lemma_count_no_q(cs.last().left_column);
        lemma_count_no_q(cs.last().right_column);
        lemma_count_no_q(crate::operator::op_text(cs.last().operator));
        lemma_count_no_q(" "@);
        lemma_count_no_q(" AND "@);
        lemma_count_no_q(" OR "@);
    }
}

proof fn lemma_joins_sql_count(js: Seq<crate::common::JoinClauseV>)
    requires
        forall|i: int| 0 <= i < js.len() ==> join_no_q(#[trigger] js[i]),
    ensures
        count_placeholders(crate::select::joins_sql(js)) == 0,
    decreases js,
{
    broadcast use lemma_count_add;

    if js.len() > 0 {
        lemma_joins_sql_count(js.drop_last());
        let j = js.last();
        lemma_join_type_no_q(j.join_type);
        lemma_count_no_q(crate::common::join_type_text(j.join_type));
        lemma_count_no_q(j.table);
        assert(no_q(" "@)) by {
            reveal_strlit(" ");
        }
        assert(no_q(" JOIN "@)) by {
            reveal_strlit(" JOIN ");
        }
        assert(no_q(" ON "@)) by {
            reveal_strlit(" ON ");
        }
        lemma_count_no_q(" "@);
        lemma_count_no_q(" JOIN "@);
        lemma_count_no_q(" ON "@);
        lemma_join_conds_sql_count(j.on_conditions);
    }
}

proof fn lemma_having_sql_count(hs: Seq<crate::common::HavingConditionV>)
    requires
        forall|i: int| 0 <= i < hs.len() ==> having_no_q(#[trigger] hs[i]),
    ensures
        count_placeholders(crate::select::having_sql(hs)) == hs.len(),
    decreases hs,
{
    broadcast use lemma_count_add;

    assert(count_placeholders(" ?"@) == 1) by {
        reveal_with_fuel(count_placeholders, 3);
        reveal_strlit(" ?");
    }
    assert(no_q(" "@)) by {
        reveal_strlit(" ");
    }
    assert(no_q(" AND "@)) by {
        reveal_strlit(" AND ");
    }
    assert(no_q(" OR "@)) by {
        reveal_strlit(" OR ");
    }
    if hs.len() == 0 {
    } else {
        lemma_having_sql_count(hs.drop_last());
        lemma_count_no_q(hs.last().column_or_function);
        lemma_count_no_q(crate::operator::op_text(hs.last().operator));
        lemma_count_no_q(" "@);
        lemma_count_no_q(" AND "@);
        lemma_count_no_q(" OR "@);
    }
}

proof fn lemma_dec_text_count(n: int)
    requires
        n >= 0,
    ensures
        count_placeholders(crate::select::dec_text(n)) == 0,
    decreases n,
{
    assert(crate::select::dec_digit(n % 10) != '?') by {
        assert(('?' as u32) == 63);
    }
    if n < 10 {
        assert(crate::select::dec_text(n) == seq![crate::select::dec_digit(n)]);
        assert(count_placeholders(seq![crate::select::dec_digit(n)]) == 0) by {
            reveal_with_fuel(count_placeholders, 2);
            assert(crate::select::dec_digit(n) != '?') by {
                assert(('?' as u32) == 63);
            }
        }
    } else {
        lemma_dec_text_count(n / 10);
        let s = crate::select::dec_text(n / 10);
        assert(crate::select::dec_text(n) == s.push(crate::select::dec_digit(n % 10)));
        assert(s.push(crate::select::dec_digit(n % 10)).drop_last() =~= s);
    }
}

proof fn lemma_order_by_count(os: Seq<crate::common::OrderByClauseV>)
    requires
        forall|i: int| 0 <= i < os.len() ==> no_q(#[trigger] os[i].column),
    ensures
        count_placeholders(crate::select::order_by_sql(os)) == 0,
{
    broadcast use lemma_count_add;

    if os.len() > 0 {
        assert(no_q(" ORDER BY "@)) by {
            reveal_strlit(" ORDER BY ");
        }
        lemma_count_no_q(" ORDER BY "@);
        let items = os.map_values(
            |o: crate::common::OrderByClauseV| o.column + " "@ + crate::common::sort_direction_text(
                o.direction,
            ),
        );
        assert forall|i: int| 0 <= i < items.len() implies no_q(#[trigger] items[i]) by {
            assert(no_q(" "@)) by {
                reveal_strlit(" ");
            }
            assert(no_q(crate::common::sort_direction_text(os[i].direction))) by {
                reveal_strlit("ASC");
                reveal_strlit("DESC");
            }
            lemma_no_q_add(os[i].column, " "@);
            lemma_no_q_add(
                os[i].column + " "@,
                crate::common::sort_direction_text(os[i].direction),
            );
        }
        lemma_comma_join_count(items);
    }
}

proof fn lemma_with_alias_count(t: Seq<char>, a: Option<Seq<char>>)
    requires
        alias_no_q(a),
    ensures
        count_placeholders(crate::select::with_alias(t, a)) == count_placeholders(t),
{
    broadcast use lemma_count_add;

    match a {
        None => {},
        Some(s) => {
            assert(no_q(" AS "@)) by {
                reveal_strlit(" AS ");
            }
            lemma_count_no_q(" AS "@);
            lemma_count_no_q(s);
        },
    }
}

proof fn lemma_agg_text_no_q(f: crate::common::AggregateFunction)
    ensures
        no_q(crate::common::agg_text(f)),
{
    reveal_strlit("COUNT");
    reveal_strlit("COUNT(DISTINCT");
    reveal_strlit("SUM");
    reveal_strlit("AVG");
    reveal_strlit("MIN");
    reveal_strlit("MAX");
}

proof fn lemma_selector_render_count(c: crate::select::ColumnSelectorV)
    requires
        crate::select::selector_render(c) is Ok,
        selector_placeholder_wf(c),
    ensures
        count_placeholders(crate::select::selector_render(c)->Ok_0)
            == selector_flat_count(c),
    decreases c,
{
    broadcast use lemma_count_add;

    assert(no_q("("@)) by {
        reveal_strlit("(");
    }
    assert(no_q(")"@)) by {
        reveal_strlit(")");
    }
    assert(no_q("))"@)) by {
        reveal_strlit("))");
    }
    match c {
        crate::select::ColumnSelectorV::Column(name) => {
            lemma_count_no_q(name);
        },
        crate::select::ColumnSelectorV::Aggregate { function, column, alias } => {
            lemma_agg_text_no_q(function);
            lemma_count_no_q(crate::common::agg_text(function));
            lemma_count_no_q(column);
            lemma_count_no_q("("@);
            lemma_count_no_q(")"@);
            lemma_count_no_q("))"@);
            lemma_with_alias_count(crate::select::agg_selector_text(function, column), alias);
        },
        crate::select::ColumnSelectorV::CountAll { alias } => {
            assert(no_q("COUNT(*)"@)) by {
                reveal_strlit("COUNT(*)");
            }
            lemma_count_no_q("COUNT(*)"@);
            lemma_with_alias_count("COUNT(*)"@, alias);
        },
        crate::select::ColumnSelectorV::SubqueryColumn { subquery, alias } => {
            law_select_placeholder_alignment(subquery);
            lemma_count_no_q("("@);
            lemma_count_no_q(")"@);
            lemma_with_alias_count(
                "("@ + crate::select::select_render(subquery)->Ok_0 + ")"@,
                alias,
            );
        },
    }
}

/// The flattened parameter count one selector contributes.
pub open spec fn selector_flat_count(c: crate::select::ColumnSelectorV) -> int {
    match c {
        crate::select::ColumnSelectorV::SubqueryColumn { subquery, alias: _ } =>
            crate::select::select_flat_params(subquery).len() as int,
        _ => 0,
    }
}

proof fn lemma_selectors_render_count(s: Seq<crate::select::ColumnSelectorV>)
    requires
        crate::select::selectors_render(s) is Ok,
        selectors_placeholder_wf(s),
    ensures
        count_placeholders(crate::select::selectors_render(s)->Ok_0)
            == crate::select::selector_flat_params(s).len(),
    decreases s,
{
    broadcast use lemma_count_add;

    assert(no_q(", "@)) by {
        reveal_strlit(", ");
    }
    if s.len() == 0 {
    } else if s.len() == 1 {
        lemma_selector_render_count(s[0]);
        assert(crate::select::selector_flat_params(s.drop_last()).len() == 0) by {
            reveal_with_fuel(crate::select::selector_flat_params, 2);
        }
    } else {
        lemma_selectors_render_count(s.drop_last());
        lemma_selector_render_count(s.last());
        lemma_count_no_q(", "@);
    }
}

/// The two pieces a nonempty subquery-condition render is made of, both
/// of which must have succeeded when the whole render did.
spec fn subconds_render_parts_ok(s: Seq<crate::select::SubqueryConditionV>, hp: bool) -> bool
    recommends
        s.len() > 0,
{
    crate::select::subconds_render(s.drop_last(), hp) is Ok && crate::select::select_render(
        s.last().subquery,
    ) is Ok
}

proof fn lemma_subconds_render_count(s: Seq<crate::select::SubqueryConditionV>, hp: bool)
    requires
        crate::select::subconds_render(s, hp) is Ok,
        subconds_placeholder_wf(s),
    ensures
        count_placeholders(crate::select::subconds_render(s, hp)->Ok_0)
            == crate::select::subcond_flat_params(s).len(),
    decreases s,
{
    broadcast use lemma_count_add;

    if s.len() > 0 {
        let c = s.last();
        assert(subconds_render_parts_ok(s, hp)) by {
            assert(crate::select::subconds_render(s, hp) is Ok);
        }
        assert(crate::select::subconds_render(s.drop_last(), hp) is Ok);
        assert(crate::select::select_render(c.subquery) is Ok);
        assert(subcond_placeholder_wf(c));
        lemma_subconds_render_count(s.drop_last(), hp);
        law_select_placeholder_alignment(c.subquery);
        assert(no_q("("@)) by {
            reveal_strlit("(");
        }
        assert(no_q(")"@)) by {
            reveal_strlit(")");
        }
        assert(no_q(" "@)) by {
            reveal_strlit(" ");
        }
        assert(no_q(" AND "@)) by {
            reveal_strlit(" AND ");
        }
        assert(no_q(" OR "@)) by {
            reveal_strlit(" OR ");
        }
        lemma_count_no_q("("@);
        lemma_count_no_q(")"@);
        lemma_count_no_q(" "@);
        lemma_count_no_q(" AND "@);
        lemma_count_no_q(" OR "@);
        lemma_count_no_q(c.column);
        lemma_count_no_q(crate::operator::op_text(c.operator));
    }
}

/// Placeholder alignment law for SELECT, the most safety-critical
/// property of the library: when a query renders, the text holds exactly
/// one `?` for each entry of the fully flattened parameter sequence,
/// nested subqueries included.
pub proof fn law_select_placeholder_alignment(v: crate::select::SelectV)
    requires
        crate::select::select_render(v) is Ok,
        select_placeholder_wf(v),
    ensures
        count_placeholders(crate::select::select_render(v)->Ok_0)
            == crate::select::select_flat_params(v).len(),
    decreases v,
{
    broadcast use lemma_count_add;

    reveal_strlit("SELECT ");
    reveal_strlit("DISTINCT ");
    reveal_strlit(" FROM ");
    reveal_strlit(" WHERE ");
    reveal_strlit(" GROUP BY ");
    reveal_strlit(" HAVING ");
    reveal_strlit(" LIMIT ");
    reveal_strlit(" OFFSET ");
    reveal_strlit("*");
    lemma_count_no_q("SELECT "@);
    lemma_count_no_q("DISTINCT "@);
    lemma_count_no_q(" FROM "@);
    lemma_count_no_q(" WHERE "@);
    lemma_count_no_q(" GROUP BY "@);
    lemma_count_no_q(" HAVING "@);
    lemma_count_no_q(" LIMIT "@);
    lemma_count_no_q(" OFFSET "@);
    lemma_count_no_q("*"@);
    lemma_count_no_q(v.table_name);
    if v.selected_columns.len() > 0 {
        lemma_selectors_render_count(v.selected_columns);
    } else {
        assert(crate::select::selector_flat_params(v.selected_columns).len() == 0) by {
            reveal_with_fuel(crate::select::selector_flat_params, 1);
        }
    }
    lemma_joins_sql_count(v.join_clauses);
    lemma_conditions_sql_count(v.where_conditions);
    lemma_subconds_render_count(v.subquery_conditions, v.where_conditions.len() > 0);
    if v.subquery_conditions.len() == 0 {
        assert(crate::select::subcond_flat_params(v.subquery_conditions).len() == 0) by {
            reveal_with_fuel(crate::select::subcond_flat_params, 1);
        }
    }
    match v.group_by_clause {
        Some(g) => {
            lemma_comma_join_count(g.columns);
            lemma_having_sql_count(v.having_conditions);
        },
        None => {},
    }
    lemma_order_by_count(v.order_by_clauses);
    match v.limit_value {
        Some(n) => {
            lemma_dec_text_count(n as int);
        },
        None => {},
    }
    match v.offset_value {
        Some(n) => {
            lemma_dec_text_count(n as int);
        },
        None => {},
    }
}

} // verus!
