//! INSERT query builder.
//!
//! An INSERT starts in an initial state that cannot render; supplying one
//! or more rows of values moves it to the complete state. The renderer
//! still re-checks that columns and rows are present before emitting text.

use vstd::prelude::*;
use crate::common::QueryBuilder;
use crate::error::{Error, ErrorV};
use crate::render::{append_comma_join, comma_join, param_views};
use crate::value::{Value, ValueV};

verus! {

/// The shapes of the stored rows: each row a sequence of value shapes.
pub open spec fn row_views(rows: Seq<Vec<Value>>) -> Seq<Seq<ValueV>> {
    rows.map_values(|r: Vec<Value>| param_views(r@))
}

/// `n` placeholders joined by `, `.
pub open spec fn placeholders(n: int) -> Seq<char>
    decreases n,
{
    if n <= 0 {
        Seq::empty()
    } else if n == 1 {
        "?"@
    } else {
        placeholders(n - 1) + ", ?"@
    }
}

/// The rendered `VALUES` groups: one parenthesized placeholder group per
/// row, joined by `, `.
pub open spec fn value_groups_sql(rows: Seq<Seq<ValueV>>) -> Seq<char>
    decreases rows,
{
    if rows.len() == 0 {
        Seq::empty()
    } else if rows.len() == 1 {
        "("@ + placeholders(rows[0].len() as int) + ")"@
    } else {
        value_groups_sql(rows.drop_last()) + ", ("@ + placeholders(rows.last().len() as int)
            + ")"@
    }
}

/// The bound values of all rows, row by row, left to right.
pub open spec fn flat_rows(rows: Seq<Seq<ValueV>>) -> Seq<ValueV>
    decreases rows,
{
    if rows.len() == 0 {
        Seq::empty()
    } else {
        flat_rows(rows.drop_last()) + rows.last()
    }
}

/// Trait for types that can be converted to INSERT data.
pub trait IntoInsertData: Sized {
    /// Whether `cols` and `vals` are a column list and aligned value list
    /// this data source can produce.
    spec fn describes_insert(self, cols: Seq<Seq<char>>, vals: Seq<ValueV>) -> bool;

    fn into_insert_data(self) -> (r: (Vec<String>, Vec<Value>))
        ensures
            self.describes_insert(r.0@.map_values(|s: String| s@), param_views(r.1@)),
    ;
}

/// Relies on `HashMap::into_iter`: yields each entry of the map exactly
/// once, in arbitrary order; the keys of a map are distinct.
#[verifier::external_body]
fn hash_map_insert_entries(m: std::collections::HashMap<String, Value>) -> (r: (
    Vec<String>,
    Vec<Value>,
))
    ensures
        r.0@.len() == r.1@.len(),
        forall|i: int, j: int|
            0 <= i < j < r.0@.len() ==> #[trigger] r.0@[i]@ != #[trigger] r.0@[j]@,
{
    let mut columns: Vec<String> = Vec::new();
    let mut values: Vec<Value> = Vec::new();
    for (k, v) in m.into_iter() {
        columns.push(k);
        values.push(v);
    }
    (columns, values)
}

impl IntoInsertData for std::collections::HashMap<String, Value> {
    /// Distinct columns, one value per column; which entries come, and in
    /// which order, is not modeled, because hash map iteration is
    /// unordered.
    open spec fn describes_insert(self, cols: Seq<Seq<char>>, vals: Seq<ValueV>) -> bool {
        &&& cols.len() == vals.len()
        &&& forall|i: int, j: int| 0 <= i < j < cols.len() ==> cols[i] != cols[j]
    }

    fn into_insert_data(self) -> (r: (Vec<String>, Vec<Value>)) {
        hash_map_insert_entries(self)
    }
}

impl IntoInsertData for Vec<(String, Value)> {
    /// An explicit entry list is kept exactly, in order.
    open spec fn describes_insert(self, cols: Seq<Seq<char>>, vals: Seq<ValueV>) -> bool {
        &&& cols == self@.map_values(|p: (String, Value)| p.0@)
        &&& vals == self@.map_values(|p: (String, Value)| p.1@)
    }

    #[verifier::loop_isolation(false)]
    fn into_insert_data(self) -> (r: (Vec<String>, Vec<Value>)) {
        let mut items = self;
        let ghost all = items@;
        let n0 = items.len();
        proof {
            assert(all.len() == n0);
        }
        let mut columns: Vec<String> = Vec::new();
        let mut values: Vec<Value> = Vec::new();
        let mut i: usize = 0;
        while items.len() > 0
            invariant
                i + items@.len() == all.len(),
                items@ =~= all.skip(i as int),
                columns@.len() == i,
                values@.len() == i,
                forall|j: int| 0 <= j < i ==> columns@[j]@ == #[trigger] all[j].0@,
                forall|j: int| 0 <= j < i ==> values@[j]@ == #[trigger] all[j].1@,
            decreases items@.len(),
        {
            let (k, v) = items.remove(0);
            columns.push(k);
            values.push(v);
            i = i + 1;
        }
        proof {
            assert(columns@.map_values(|s: String| s@) =~= all.map_values(
                |p: (String, Value)| p.0@,
            ));
            assert(param_views(values@) =~= all.map_values(|p: (String, Value)| p.1@));
        }
        (columns, values)
    }
}

/// INSERT query builder in initial state (before `values` is called).
#[derive(Debug, Clone)]
pub struct InsertBuilderInitial {
    table_name: String,
}

/// The shape of an [`InsertBuilderInitial`].
pub struct InsertBuilderInitialV {
    pub table_name: Seq<char>,
}

impl View for InsertBuilderInitial {
    type V = InsertBuilderInitialV;

    closed spec fn view(&self) -> InsertBuilderInitialV {
        InsertBuilderInitialV { table_name: self.table_name@ }
    }
}

/// INSERT query builder in complete state (after `values` is called).
#[derive(Debug, Clone)]
pub struct InsertBuilderComplete {
    table_name: String,
    columns: Vec<String>,
    values: Vec<Vec<Value>>,
}

/// The shape of an [`InsertBuilderComplete`].
pub struct InsertBuilderCompleteV {
    pub table_name: Seq<char>,
    pub columns: Seq<Seq<char>>,
    pub rows: Seq<Seq<ValueV>>,
}

impl View for InsertBuilderComplete {
    type V = InsertBuilderCompleteV;

    closed spec fn view(&self) -> InsertBuilderCompleteV {
        InsertBuilderCompleteV {
            table_name: self.table_name@,
            columns: self.columns@.map_values(|s: String| s@),
            rows: row_views(self.values@),
        }
    }
}

/// The SQL text a complete INSERT renders to.
pub open spec fn insert_sql(v: InsertBuilderCompleteV) -> Seq<char> {
    "INSERT INTO "@ + v.table_name + " ("@ + comma_join(v.columns) + ") VALUES "@
        + value_groups_sql(v.rows)
}

/// The error returned when an INSERT without values is rendered.
pub open spec fn insert_incomplete_error() -> ErrorV {
    ErrorV::InvalidQuery { message: "INSERT requires values to be specified with .values()"@ }
}

/// The defensive error returned when a complete INSERT carries no columns
/// or no rows.
pub open spec fn insert_empty_error() -> ErrorV {
    ErrorV::InvalidQuery { message: "INSERT requires columns and values"@ }
}

impl InsertBuilderInitial {
    /// Create a new INSERT query builder in initial state.
    pub fn new(table: &str) -> (r: Self)
        ensures
            r@.table_name == table@,
    {
        Self { table_name: table.to_owned() }
    }

    /// Add values for a single record, transitioning to
    /// [`InsertBuilderComplete`].
    pub fn values<T: IntoInsertData>(self, data: T) -> (r: InsertBuilderComplete)
        ensures
            r@.table_name == self@.table_name,
            r@.rows.len() == 1,
            data.describes_insert(r@.columns, r@.rows[0]),
    {
        let (columns, row) = data.into_insert_data();
        let mut values: Vec<Vec<Value>> = Vec::new();
        values.push(row);
        proof {
            assert(row_views(values@) =~= seq![param_views(values@[0]@)]);
        }
        InsertBuilderComplete { table_name: self.table_name, columns, values }
    }

    /// Add values for multiple records, transitioning to
    /// [`InsertBuilderComplete`]. The column list comes from the first
    /// record; every record contributes one row of values.
    #[verifier::loop_isolation(false)]
    pub fn values_many<T: IntoInsertData>(self, data: Vec<T>) -> (r: InsertBuilderComplete)
        ensures
            r@.table_name == self@.table_name,
            data@.len() == 0 ==> r@.columns.len() == 0 && r@.rows.len() == 0,
            data@.len() > 0 ==> r@.rows.len() == data@.len() && data@[0].describes_insert(
                r@.columns,
                r@.rows[0],
            ),
    {
        let mut items = data;
        let ghost all = items@;
        let n0 = items.len();
        proof {
            assert(all.len() == n0);
        }
        let mut columns: Vec<String> = Vec::new();
        let mut values: Vec<Vec<Value>> = Vec::new();
        let mut i: usize = 0;
        while items.len() > 0
            invariant
                i + items@.len() == all.len(),
                items@ =~= all.skip(i as int),
                values@.len() == i,
                i == 0 ==> columns@.len() == 0,
                all.len() > 0 && i > 0 ==> all[0].describes_insert(
                    columns@.map_values(|s: String| s@),
                    row_views(values@)[0],
                ),
            decreases items@.len(),
        {
            proof {
                assert(items@[0] == all[i as int]);
            }
            let item = items.remove(0);
            let ghost gitem = item;
            let (cols, vals) = item.into_insert_data();
            let ghost cvs = cols@.map_values(|s: String| s@);
            if i == 0 {
                columns = cols;
            }
            let ghost prev = values@;
            let ghost pv = param_views(vals@);
            values.push(vals);
            proof {
                assert(values@ == prev.push(vals));
                assert(row_views(values@) =~= row_views(prev).push(pv));
                assert(row_views(values@)[i as int] == pv);
                assert(gitem == all[i as int]);
                assert(gitem.describes_insert(cvs, pv));
                if i > 0 {
                    assert(row_views(values@)[0] == row_views(prev)[0]);
                }
            }
            i = i + 1;
        }
        InsertBuilderComplete { table_name: self.table_name, columns, values }
    }
}

impl InsertBuilderComplete {
    /// Render this INSERT. A complete INSERT with no columns or no rows
    /// fails the defensive re-check; otherwise the text is
    /// `INSERT INTO <table> (<columns>) VALUES (<placeholders>), ...`
    /// exactly, one placeholder per value of each row.
    pub fn to_sql(&self) -> (r: Result<String, Error>)
        ensures
            r is Ok <==> (self@.columns.len() > 0 && self@.rows.len() > 0),
            r is Ok ==> r->Ok_0@ == insert_sql(self@),
            r is Err ==> r->Err_0@ == insert_empty_error(),
    {
        if self.columns.len() == 0 || self.values.len() == 0 {
            return Err(Error::invalid_query("INSERT requires columns and values"));
        }
        let mut sql = "INSERT INTO ".to_owned();
        sql.append(self.table_name.as_str());
        sql.append(" (");
        append_comma_join(&mut sql, &self.columns);
        sql.append(") VALUES ");
        append_value_groups(&mut sql, &self.values);
        Ok(sql)
    }

    /// The bound parameters: every row's values, row by row, matching the
    /// order of `?` placeholders in the rendered SQL.
    pub fn parameters(&self) -> (r: Vec<Value>)
        ensures
            param_views(r@) == flat_rows(self@.rows),
    {
        let mut out: Vec<Value> = Vec::new();
        collect_row_params(&mut out, &self.values);
        out
    }
}

pub proof fn lemma_value_groups_sql_step(rows: Seq<Seq<ValueV>>, i: int)
    requires
        0 <= i < rows.len(),
    ensures
        value_groups_sql(rows.take(i + 1)) == if i == 0 {
            "("@ + placeholders(rows[0].len() as int) + ")"@
        } else {
            value_groups_sql(rows.take(i)) + ", ("@ + placeholders(rows[i].len() as int) + ")"@
        },
{
    assert(rows.take(i + 1).drop_last() =~= rows.take(i));
    assert(rows.take(i + 1).last() == rows[i]);
    if i == 0 {
        assert(rows.take(1).len() == 1);
        assert(rows.take(1)[0] == rows[0]);
    }
}

pub proof fn lemma_flat_rows_step(rows: Seq<Seq<ValueV>>, i: int)
    requires
        0 <= i < rows.len(),
    ensures
        flat_rows(rows.take(i + 1)) == flat_rows(rows.take(i)) + rows[i],
{
    assert(rows.take(i + 1).drop_last() =~= rows.take(i));
    assert(rows.take(i + 1).last() == rows[i]);
}

/// Append one row's placeholders, `?, ?, ...`, to `sql`.
#[verifier::loop_isolation(false)]
fn append_placeholders(sql: &mut String, row: &Vec<Value>)
    ensures
        final(sql)@ == old(sql)@ + placeholders(row@.len() as int),
{
    let ghost base = sql@;
    let mut j: usize = 0;
    while j < row.len()
        invariant
            0 <= j <= row@.len(),
            sql@ == base + placeholders(j as int),
        decreases row@.len() - j,
    {
        if j > 0 {
            sql.append(", ?");
        } else {
            sql.append("?");
        }
        j = j + 1;
    }
}

/// Append the rendered `VALUES` groups to `sql`.
#[verifier::loop_isolation(false)]
fn append_value_groups(sql: &mut String, rows: &Vec<Vec<Value>>)
    ensures
        final(sql)@ == old(sql)@ + value_groups_sql(row_views(rows@)),
{
    let ghost rv = row_views(rows@);
    let ghost base = sql@;
    let mut i: usize = 0;
    while i < rows.len()
        invariant
            0 <= i <= rows@.len(),
            sql@ == base + value_groups_sql(rv.take(i as int)),
        decreases rows@.len() - i,
    {
        if i > 0 {
            sql.append(", (");
        } else {
            sql.append("(");
        }
        append_placeholders(sql, &rows[i]);
        sql.append(")");
        proof {
            lemma_value_groups_sql_step(rv, i as int);
            assert(rv[i as int].len() == rows@[i as int]@.len());
            assert(sql@ == base + value_groups_sql(rv.take(i + 1)));
        }
        i = i + 1;
    }
    proof {
        assert(rv.take(rows@.len() as int) =~= rv);
    }
}

/// Append a clone of every value of every row to `out`, row by row.
#[verifier::loop_isolation(false)]
fn collect_row_params(out: &mut Vec<Value>, rows: &Vec<Vec<Value>>)
    ensures
        param_views(final(out)@) == param_views(old(out)@) + flat_rows(row_views(rows@)),
{
    let ghost rv = row_views(rows@);
    let ghost base = param_views(out@);
    let mut i: usize = 0;
    while i < rows.len()
        invariant
            0 <= i <= rows@.len(),
            param_views(out@) =~= base + flat_rows(rv.take(i as int)),
        decreases rows@.len() - i,
    {
        let row = &rows[i];
        let ghost rbase = param_views(out@);
        let mut j: usize = 0;
        while j < row.len()
            invariant
                0 <= j <= row@.len(),
                param_views(out@) =~= rbase + param_views(row@).take(j as int),
            decreases row@.len() - j,
        {
            let v = row[j].clone();
            let ghost prev = out@;
            let ghost vv = v@;
            out.push(v);
            proof {
                assert(out@ == prev.push(v));
                assert(param_views(out@) =~= param_views(prev).push(vv));
                assert(param_views(row@).take(j + 1) =~= param_views(row@).take(
                    j as int,
                ).push(param_views(row@)[j as int]));
                assert(param_views(out@) =~= rbase + param_views(row@).take(j + 1));
            }
            j = j + 1;
        }
        proof {
            lemma_flat_rows_step(rv, i as int);
            assert(param_views(row@).take(row@.len() as int) =~= param_views(row@));
            assert(rv[i as int] == param_views(rows@[i as int]@));
            assert(param_views(out@) =~= base + flat_rows(rv.take(i + 1)));
        }
        i = i + 1;
    }
    proof {
        assert(rv.take(rows@.len() as int) =~= rv);
        assert(param_views(out@) =~= base + flat_rows(rv));
    }
}

impl QueryBuilder for InsertBuilderInitial {
    /// Rendering an INSERT without values always fails.
    fn to_sql(&self) -> (r: Result<String, Error>)
        ensures
            r is Err && r->Err_0@ == insert_incomplete_error(),
    {
        Err(Error::invalid_query("INSERT requires values to be specified with .values()"))
    }

    fn parameters(&self) -> (r: Vec<Value>)
        ensures
            r@.len() == 0,
    {
        Vec::new()
    }
}

impl QueryBuilder for InsertBuilderComplete {
    fn to_sql(&self) -> (r: Result<String, Error>)
        ensures
            r is Ok <==> (self@.columns.len() > 0 && self@.rows.len() > 0),
            r is Ok ==> r->Ok_0@ == insert_sql(self@),
    {
        InsertBuilderComplete::to_sql(self)
    }

    fn parameters(&self) -> (r: Vec<Value>)
        ensures
            param_views(r@) == flat_rows(self@.rows),
    {
        InsertBuilderComplete::parameters(self)
    }
}

} // verus!
