//! The calls into `rusqlite` that the audit log makes, each behind a trusted
//! item. Which rows SQLite holds and returns depends on the database, so none
//! promises success or particular rows; the listing statement promises only
//! what SQL's semantics give for whatever rows it returns.

use vstd::prelude::*;

use crate::store::{
    effective_limit, list_binds, list_sql, since_fits, stored_matches, stored_newest_first,
    SqlValue, StoredRow,
};
use crate::types::McpAuditListParams;

verus! {

/// `rusqlite::Connection`, an open database.
#[verifier::external_type_specification]
#[verifier::external_body]
pub struct ExConnection(rusqlite::Connection);

/// `rusqlite::Row`, one row of a query's result.
#[verifier::external_type_specification]
#[verifier::external_body]
pub struct ExRow<'stmt>(rusqlite::Row<'stmt>);

/// `rusqlite::Error`, carried through to the caller.
#[verifier::external_type_specification]
#[verifier::external_body]
pub struct ExSqliteError(rusqlite::Error);

/// `rusqlite::types::Value`, one value bound to a statement.
#[verifier::external_type_specification]
#[verifier::external_body]
pub struct ExSqliteValue(rusqlite::types::Value);

/// A statement's text together with the values for its placeholders, in order.
/// A statement handed back by `run_statement` is marked as run: only a
/// successful execution sets the mark.
#[derive(Clone)]
pub struct SqlQuery {
    pub sql: String,
    pub binds: Vec<SqlValue>,
    ran: Ghost<bool>,
}

impl SqlQuery {
    /// The text of this statement.
    pub closed spec fn text(self) -> Seq<char> {
        self.sql@
    }

    /// The values of its placeholders, in order.
    pub closed spec fn values(self) -> Seq<SqlValue> {
        self.binds@
    }

    /// This statement was handed to SQLite by `run_statement`, which accepted it.
    pub closed spec fn has_run(self) -> bool {
        self.ran@
    }

    /// A statement not run yet.
    pub fn new(sql: String, binds: Vec<SqlValue>) -> (q: SqlQuery)
        ensures
            q.text() == sql@,
            q.values() == binds@,
            !q.has_run(),
    {
        SqlQuery { sql, binds, ran: Ghost(false) }
    }
}

/// Runs `q` once through `connection_execute`; where SQLite accepts it, hands
/// the same statement back marked as run.
pub(crate) fn run_statement(conn: &rusqlite::Connection, q: SqlQuery) -> (r: Result<
    SqlQuery,
    rusqlite::Error,
>)
    ensures
        r matches Ok(ran) ==> ran.text() == q.text() && ran.values() == q.values() && ran.has_run(),
{
    match connection_execute(conn, q.sql.as_str(), &q.binds) {
        Ok(_) => Ok(SqlQuery { sql: q.sql, binds: q.binds, ran: Ghost(true) }),
        Err(e) => Err(e),
    }
}

/// Builds the `rusqlite::types::Value`s to bind, one for one (`Null`,
/// `Integer`, `Text`). Claims only that as many come out as went in.
#[verifier::external_body]
fn to_sqlite_values(values: &Vec<SqlValue>) -> (r: Vec<rusqlite::types::Value>)
    ensures
        r@.len() == values@.len(),
{
    values.iter().map(|v| match v {
        SqlValue::Null => rusqlite::types::Value::Null,
        SqlValue::Integer(i) => rusqlite::types::Value::Integer(*i),
        SqlValue::Text(s) => rusqlite::types::Value::Text(s.clone()),
    }).collect()
}

/// `rusqlite::Connection::execute`: runs `sql` once with `values` bound to its
/// positional placeholders and returns the number of rows changed. Nothing is
/// claimed of the outcome, which depends on the database.
#[verifier::external_body]
fn connection_execute(
    conn: &rusqlite::Connection,
    sql: &str,
    values: &Vec<SqlValue>,
) -> Result<usize, rusqlite::Error> {
    conn.execute(sql, rusqlite::params_from_iter(to_sqlite_values(values)))
}

/// `rusqlite::Row::get`, once per column: reads the eight columns of a listing
/// row in the order `select_prefix` names them (`id`, `timestamp_ms`,
/// `client_info`, `tool_name`, `args_summary`, `resulting_chunk_id`,
/// `success`, `error_message`), the integers as `i64`, the texts as `String`,
/// the nullable texts as `Option<String>`. Nothing is claimed of the values.
#[verifier::external_body]
fn row_columns(row: &rusqlite::Row) -> Result<StoredRow, rusqlite::Error> {
    Ok(StoredRow {
        id: row.get(0)?,
        timestamp_ms: row.get(1)?,
        client_info: row.get(2)?,
        tool_name: row.get(3)?,
        args_summary: row.get(4)?,
        resulting_chunk_id: row.get(5)?,
        success: row.get(6)?,
        error_message: row.get(7)?,
    })
}

/// `rusqlite::Connection::prepare` of the listing statement followed by
/// `rusqlite::Statement::query_map`, drained: runs `q`, which must be the
/// listing query `list_query` builds for `query` and its own page (its clamped
/// `limit` and its `offset`), and
/// reads each row it yields with `row_columns`, stopping at the first error.
///
/// Which rows come back depends on the database and is not claimed. What is
/// claimed is what SQLite's semantics of the statement give for any rows that
/// do come back and read as the expected types: each meets every `WHERE` filter
/// that is set (an integer `timestamp_ms >= since`, a text column byte for byte
/// equal to the filter text, forced by `COLLATE BINARY` whatever collation the
/// table declares, an integer `success` equal to the bound flag), they come in
/// descending `timestamp_ms` order (`ORDER BY timestamp_ms DESC`), and there are
/// at most `limit` of them (`LIMIT ?`).
#[verifier::external_body]
pub(crate) fn query_listing(
    conn: &rusqlite::Connection,
    q: &SqlQuery,
    query: &McpAuditListParams,
    limit: u32,
    offset: u32,
) -> (r: Result<Vec<StoredRow>, rusqlite::Error>)
    requires
        since_fits(*query),
        limit == effective_limit(query.limit),
        offset == query.offset,
        q.text() == list_sql(*query),
        q.values() == list_binds(*query, limit, offset),
    ensures
        r matches Ok(rows) ==> {
            &&& rows@.len() <= limit
            &&& stored_newest_first(rows@)
            &&& forall|i: int| 0 <= i < rows@.len() ==> #[trigger] stored_matches(rows@[i], *query)
        },
{
    let mut stmt = conn.prepare(q.sql.as_str())?;
    let rows = stmt.query_map(rusqlite::params_from_iter(to_sqlite_values(&q.binds)), row_columns)?;
    let collected = rows.collect();
    collected
}

} // verus!
