//! Shared rendering machinery: the specification of how condition lists
//! serialize to SQL text, and the executable helpers that every statement
//! kind builds its `WHERE` section and parameter list with.

use vstd::prelude::*;
use crate::common::{connector_token, WhereCondition, WhereConditionV};
use crate::error::Error;
use crate::operator::{op_is_known, op_text, unknown_op_error};
use crate::value::{Value, ValueV};

verus! {

/// The shapes of a sequence of WHERE conditions, in order.
pub open spec fn cond_views(conds: Seq<WhereCondition>) -> Seq<WhereConditionV> {
    conds.map_values(|c: WhereCondition| c@)
}

/// The text of one condition: column, space, operator token, space,
/// placeholder. An array-valued condition still binds a single `?`.
pub open spec fn cond_text(c: WhereConditionV) -> Seq<char> {
    c.column + " "@ + op_text(c.operator) + " ?"@
}

/// The conditions of one clause joined in order: no connector before the
/// first, each later condition preceded by its own connector token.
pub open spec fn conditions_sql(conds: Seq<WhereConditionV>) -> Seq<char>
    decreases conds,
{
    if conds.len() == 0 {
        Seq::empty()
    } else if conds.len() == 1 {
        cond_text(conds[0])
    } else {
        conditions_sql(conds.drop_last()) + connector_token(conds.last().connector)
            + cond_text(conds.last())
    }
}

/// The full `WHERE` section: empty when there are no conditions.
pub open spec fn where_clause_sql(conds: Seq<WhereConditionV>) -> Seq<char> {
    if conds.len() == 0 {
        Seq::empty()
    } else {
        " WHERE "@ + conditions_sql(conds)
    }
}

/// Whether every operator in the list is known.
pub open spec fn all_ops_known(conds: Seq<WhereConditionV>) -> bool {
    forall|i: int| 0 <= i < conds.len() ==> op_is_known(#[trigger] conds[i].operator)
}

/// The token of the first unknown operator in the list (meaningful only
/// when some operator is unknown).
pub open spec fn first_unknown_token(conds: Seq<WhereConditionV>) -> Seq<char>
    decreases conds,
{
    if conds.len() == 0 {
        Seq::empty()
    } else if conds[0].operator is Unknown {
        conds[0].operator->Unknown_0
    } else {
        first_unknown_token(conds.drop_first())
    }
}

/// The bound values of the conditions, in clause order.
pub open spec fn where_params(conds: Seq<WhereConditionV>) -> Seq<ValueV> {
    conds.map_values(|c: WhereConditionV| c.value)
}

/// The shapes of a parameter vector.
pub open spec fn param_views(params: Seq<Value>) -> Seq<ValueV> {
    params.map_values(|v: Value| v@)
}

/// Text items joined by `, `.
pub open spec fn comma_join(items: Seq<Seq<char>>) -> Seq<char>
    decreases items,
{
    if items.len() == 0 {
        Seq::empty()
    } else if items.len() == 1 {
        items[0]
    } else {
        comma_join(items.drop_last()) + ", "@ + items.last()
    }
}

pub proof fn lemma_first_unknown_at(conds: Seq<WhereConditionV>, i: int)
    requires
        0 <= i < conds.len(),
        conds[i].operator is Unknown,
        forall|j: int| 0 <= j < i ==> op_is_known(#[trigger] conds[j].operator),
    ensures
        first_unknown_token(conds) == conds[i].operator->Unknown_0,
    decreases conds,
{
    if i > 0 {
        lemma_first_unknown_at(conds.drop_first(), i - 1);
    }
}

/// Validate every operator of the clause before any text is assembled:
/// success exactly when all operators are known, and the error names the
/// first unknown token in clause order.
#[verifier::loop_isolation(false)]
pub fn validate_conditions(conds: &Vec<WhereCondition>) -> (r: Result<(), Error>)
    ensures
        r is Ok <==> all_ops_known(cond_views(conds@)),
        r is Err ==> r->Err_0@ == unknown_op_error(first_unknown_token(cond_views(conds@))),
{
    let ghost cv = cond_views(conds@);
    let mut i: usize = 0;
    while i < conds.len()
        invariant
            0 <= i <= conds@.len(),
            forall|j: int| 0 <= j < i ==> op_is_known(#[trigger] cv[j].operator),
        decreases conds@.len() - i,
    {
        match conds[i].operator.validate() {
            Ok(()) => {},
            Err(e) => {
                proof {
                    lemma_first_unknown_at(cv, i as int);
                }
                return Err(e);
            },
        }
        i = i + 1;
    }
    Ok(())
}

pub proof fn lemma_conditions_sql_step(cv: Seq<WhereConditionV>, i: int)
    requires
        0 <= i < cv.len(),
    ensures
        conditions_sql(cv.take(i + 1)) == if i == 0 {
            cond_text(cv[0])
        } else {
            conditions_sql(cv.take(i)) + connector_token(cv[i].connector) + cond_text(cv[i])
        },
{
    assert(cv.take(i + 1).drop_last() =~= cv.take(i));
    assert(cv.take(i + 1).last() == cv[i]);
    if i == 0 {
        assert(cv.take(1).len() == 1);
        assert(cv.take(1)[0] == cv[0]);
    }
}

/// Append the rendered conditions of one clause to `sql`, connectors
/// interleaved in call order.
#[verifier::loop_isolation(false)]
pub fn append_conditions(sql: &mut String, conds: &Vec<WhereCondition>)
    ensures
        final(sql)@ == old(sql)@ + conditions_sql(cond_views(conds@)),
{
    let ghost cv = cond_views(conds@);
    let ghost base = sql@;
    let mut i: usize = 0;
    while i < conds.len()
        invariant
            0 <= i <= conds@.len(),
            sql@ == base + conditions_sql(cv.take(i as int)),
        decreases conds@.len() - i,
    {
        let c = &conds[i];
        if i > 0 {
            match c.connector {
                crate::common::WhereConnector::And => sql.append(" AND "),
                crate::common::WhereConnector::Or => sql.append(" OR "),
            }
        }
        sql.append(c.column.as_str());
        sql.append(" ");
        sql.append(c.operator.as_str());
        sql.append(" ?");
        proof {
            lemma_conditions_sql_step(cv, i as int);
            assert(sql@ == base + conditions_sql(cv.take(i + 1)));
        }
        i = i + 1;
    }
    proof {
        assert(cv.take(conds@.len() as int) =~= cv);
    }
}

/// Append a clone of each condition's bound value to `out`, in clause
/// order.
#[verifier::loop_isolation(false)]
pub fn collect_where_params(out: &mut Vec<Value>, conds: &Vec<WhereCondition>)
    ensures
        param_views(final(out)@) == param_views(old(out)@) + where_params(cond_views(conds@)),
{
    let ghost cv = cond_views(conds@);
    let ghost base = param_views(out@);
    let mut i: usize = 0;
    while i < conds.len()
        invariant
            0 <= i <= conds@.len(),
            param_views(out@) =~= base + where_params(cv.take(i as int)),
        decreases conds@.len() - i,
    {
        let v = conds[i].value.clone();
        proof {
            assert(cv[i as int] == conds@[i as int]@);
            assert(v@ == cv[i as int].value);
        }
        let ghost prev = out@;
        let ghost vv = v@;
        out.push(v);
        proof {
            assert(out@ == prev.push(v));
            assert(param_views(out@) =~= param_views(prev).push(vv));
            assert(where_params(cv.take(i + 1)) =~= where_params(cv.take(i as int)).push(
                cv[i as int].value));
            assert(param_views(prev).push(vv) =~= base + where_params(cv.take(i + 1)));
            assert(param_views(out@) =~= base + where_params(cv.take(i + 1)));
        }
        i = i + 1;
    }
    proof {
        assert(cv.take(conds@.len() as int) =~= cv);
        assert(param_views(out@) =~= base + where_params(cv));
    }
}

pub proof fn lemma_comma_join_step(items: Seq<Seq<char>>, i: int)
    requires
        0 <= i < items.len(),
    ensures
        comma_join(items.take(i + 1)) == if i == 0 {
            items[0]
        } else {
            comma_join(items.take(i)) + ", "@ + items[i]
        },
{
    assert(items.take(i + 1).drop_last() =~= items.take(i));
    assert(items.take(i + 1).last() == items[i]);
    if i == 0 {
        assert(items.take(1).len() == 1);
        assert(items.take(1)[0] == items[0]);
    }
}

/// Append the given names joined by `, ` to `sql`.
#[verifier::loop_isolation(false)]
pub fn append_comma_join(sql: &mut String, items: &Vec<String>)
    ensures
        final(sql)@ == old(sql)@ + comma_join(items@.map_values(|s: String| s@)),
{
    let ghost iv = items@.map_values(|s: String| s@);
    let ghost base = sql@;
    let mut i: usize = 0;
    while i < items.len()
        invariant
            0 <= i <= items@.len(),
            sql@ == base + comma_join(iv.take(i as int)),
        decreases items@.len() - i,
    {
        if i > 0 {
            sql.append(", ");
        }
        sql.append(items[i].as_str());
        proof {
            lemma_comma_join_step(iv, i as int);
            assert(sql@ == base + comma_join(iv.take(i + 1)));
        }
        i = i + 1;
    }
    proof {
        assert(iv.take(items@.len() as int) =~= iv);
    }
}

/// Relies on `String::push`: appends exactly the given character.
#[verifier::external_body]
pub(crate) fn push_char(s: &mut String, c: char)
    ensures
        final(s)@ == old(s)@.push(c),
{
    s.push(c);
}

/// How many placeholders a piece of SQL text holds.
pub open spec fn count_placeholders(s: Seq<char>) -> int
    decreases s,
{
    if s.len() == 0 {
        0
    } else {
        count_placeholders(s.drop_last()) + if s.last() == '?' {
            1int
        } else {
            0int
        }
    }
}

/// Whether a piece of text holds no placeholder of its own; identifiers a
/// caller supplies must satisfy this for placeholder counting to mean
/// anything.
pub open spec fn no_q(s: Seq<char>) -> bool {
    forall|i: int| 0 <= i < s.len() ==> s[i] != '?'
}

pub broadcast proof fn lemma_count_add(a: Seq<char>, b: Seq<char>)
    ensures
        #[trigger] count_placeholders(a + b) == count_placeholders(a) + count_placeholders(b),
    decreases b,
{
    if b.len() == 0 {
        assert(a + b =~= a);
    } else {
        lemma_count_add(a, b.drop_last());
        assert((a + b).drop_last() =~= a + b.drop_last());
        assert((a + b).last() == b.last());
    }
}

pub proof fn lemma_count_no_q(s: Seq<char>)
    requires
        no_q(s),
    ensures
        count_placeholders(s) == 0,
    decreases s,
{
    if s.len() > 0 {
        lemma_count_no_q(s.drop_last());
    }
}

/// Placeholder count of a condition clause: one per condition, provided
/// the caller-supplied column names and custom operator tokens hold no
/// `?` of their own.
pub open spec fn cond_no_q(c: WhereConditionV) -> bool {
    no_q(c.column) && no_q(op_text(c.operator))
}

pub open spec fn conds_no_q(conds: Seq<WhereConditionV>) -> bool {
    forall|i: int| 0 <= i < conds.len() ==> cond_no_q(#[trigger] conds[i])
}

pub proof fn lemma_cond_text_count(c: WhereConditionV)
    requires
        cond_no_q(c),
    ensures
        count_placeholders(cond_text(c)) == 1,
{
    broadcast use lemma_count_add;

    lemma_count_no_q(c.column);
    lemma_count_no_q(op_text(c.operator));
    assert(no_q(" "@)) by {
        reveal_strlit(" ");
    }
    lemma_count_no_q(" "@);
    assert(count_placeholders(" ?"@) == 1) by {
        reveal_with_fuel(count_placeholders, 3);
        reveal_strlit(" ?");
        assert(" ?"@.len() == 2);
        assert(" ?"@.last() == '?');
        assert(" ?"@.drop_last().len() == 1);
        assert(" ?"@.drop_last().last() == ' ');
        assert(" ?"@.drop_last().drop_last().len() == 0);
    }
}

pub proof fn lemma_connector_token_count(c: crate::common::WhereConnector)
    ensures
        count_placeholders(connector_token(c)) == 0,
{
    assert(no_q(" AND "@)) by {
        reveal_strlit(" AND ");
    }
    assert(no_q(" OR "@)) by {
        reveal_strlit(" OR ");
    }
    lemma_count_no_q(" AND "@);
    lemma_count_no_q(" OR "@);
}

/// One `?` for every condition of a clause, in its rendered text.
pub proof fn lemma_conditions_sql_count(conds: Seq<WhereConditionV>)
    requires
        conds_no_q(conds),
    ensures
        count_placeholders(conditions_sql(conds)) == conds.len(),
    decreases conds,
{
    broadcast use lemma_count_add;

    if conds.len() == 0 {
    } else if conds.len() == 1 {
        lemma_cond_text_count(conds[0]);
    } else {
        lemma_conditions_sql_count(conds.drop_last());
        lemma_cond_text_count(conds.last());
        lemma_connector_token_count(conds.last().connector);
    }
}

/// The WHERE section binds one `?` per condition.
pub proof fn lemma_where_clause_count(conds: Seq<WhereConditionV>)
    requires
        conds_no_q(conds),
    ensures
        count_placeholders(where_clause_sql(conds)) == conds.len(),
{
    broadcast use lemma_count_add;

    if conds.len() == 0 {
    } else {
        lemma_conditions_sql_count(conds);
        assert(no_q(" WHERE "@)) by {
            reveal_strlit(" WHERE ");
        }
        lemma_count_no_q(" WHERE "@);
    }
}

} // verus!
