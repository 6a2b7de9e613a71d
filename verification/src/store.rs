//! The `mcp_writes` table: how a write is stored, how a listing request becomes
//! one SQL query, and how a stored row reads back as a record.

use vstd::prelude::*;
use vstd::string::*;

use crate::error::AuditError;
pub use crate::sqlite::SqlQuery;
use crate::sqlite::{query_listing, run_statement};
use crate::types::{McpAuditListParams, McpWriteRecord, DEFAULT_LIST_LIMIT};

verus! {

/// The largest page a listing returns.
pub const MAX_LIST_LIMIT: u32 = 500;

/// A row to insert; SQLite assigns its `id`.
#[derive(Clone, Debug)]
pub struct NewMcpWriteRecord {
    pub timestamp_ms: i64,
    pub client_info: String,
    pub tool_name: String,
    pub args_summary: Option<String>,
    pub resulting_chunk_id: Option<String>,
    pub success: bool,
    pub error_message: Option<String>,
}

/// A value bound to one positional `?` placeholder of a statement.
#[derive(Clone, Debug)]
pub enum SqlValue {
    Null,
    Integer(i64),
    Text(String),
}

/// The columns of one `mcp_writes` row as SQLite stores them: `success` is an
/// integer flag.
#[derive(Clone, Debug)]
pub struct StoredRow {
    pub id: i64,
    pub timestamp_ms: i64,
    pub client_info: String,
    pub tool_name: String,
    pub args_summary: Option<String>,
    pub resulting_chunk_id: Option<String>,
    pub success: i64,
    pub error_message: Option<String>,
}

// ---------------------------------------------------------------------------
// Specification

/// The page size actually used for a requested `limit`.
pub open spec fn effective_limit(requested: u32) -> u32 {
    if requested == 0 {
        DEFAULT_LIST_LIMIT
    } else if requested < MAX_LIST_LIMIT {
        requested
    } else {
        MAX_LIST_LIMIT
    }
}

/// An optional text as a bound value: `NULL` when absent.
pub open spec fn opt_text(s: Option<String>) -> SqlValue {
    match s {
        Some(t) => SqlValue::Text(t),
        None => SqlValue::Null,
    }
}

/// How a boolean is stored: 1 for true, 0 for false.
pub open spec fn bool_flag(b: bool) -> i64 {
    if b {
        1
    } else {
        0
    }
}

/// The text of the insert statement.
pub open spec fn insert_sql() -> Seq<char> {
    "INSERT INTO mcp_writes (timestamp_ms, client_info, tool_name, args_summary, resulting_chunk_id, success, error_message) VALUES (?1, ?2, ?3, ?4, ?5, ?6, ?7)"@
}

/// The values bound to the insert statement, one per column after `id`.
pub open spec fn insert_binds(r: NewMcpWriteRecord) -> Seq<SqlValue> {
    seq![
        SqlValue::Integer(r.timestamp_ms),
        SqlValue::Text(r.client_info),
        SqlValue::Text(r.tool_name),
        opt_text(r.args_summary),
        opt_text(r.resulting_chunk_id),
        SqlValue::Integer(bool_flag(r.success)),
        opt_text(r.error_message),
    ]
}

/// The columns a listing reads, in the order the rows are read.
pub open spec fn select_prefix() -> Seq<char> {
    "SELECT id, timestamp_ms, client_info, tool_name, args_summary, resulting_chunk_id, success, error_message FROM mcp_writes WHERE 1=1"@
}

/// A filter clause, present when its parameter is set.
pub open spec fn clause_if(present: bool, clause: Seq<char>) -> Seq<char> {
    if present {
        clause
    } else {
        Seq::empty()
    }
}

/// The text of the listing query for `q`: one `AND` clause per filter that is
/// set (the text filters compare bytes, whatever collation the table declares),
/// newest rows first, then the page.
pub open spec fn list_sql(q: McpAuditListParams) -> Seq<char> {
    select_prefix()
        + clause_if(q.since_ms is Some, " AND timestamp_ms >= ?"@)
        + clause_if(q.client_filter is Some, " AND client_info = ? COLLATE BINARY"@)
        + clause_if(q.tool_filter is Some, " AND tool_name = ? COLLATE BINARY"@)
        + clause_if(q.success_only is Some, " AND success = ?"@)
        + " ORDER BY timestamp_ms DESC LIMIT ? OFFSET ?"@
}

/// The values of the listing query's placeholders, in the order of its clauses.
pub open spec fn list_binds(q: McpAuditListParams, limit: u32, offset: u32) -> Seq<SqlValue> {
    (match q.since_ms {
        Some(since) => seq![SqlValue::Integer(since as i64)],
        None => Seq::empty(),
    }) + (match q.client_filter {
        Some(c) => seq![SqlValue::Text(c)],
        None => Seq::empty(),
    }) + (match q.tool_filter {
        Some(t) => seq![SqlValue::Text(t)],
        None => Seq::empty(),
    }) + (match q.success_only {
        Some(b) => seq![SqlValue::Integer(bool_flag(b))],
        None => Seq::empty(),
    }) + seq![SqlValue::Integer(limit as i64), SqlValue::Integer(offset as i64)]
}

/// The `since_ms` filter of `q`, if set, is a timestamp a stored (`i64`) row
/// can reach.
pub open spec fn since_fits(q: McpAuditListParams) -> bool {
    q.since_ms matches Some(s) ==> s <= i64::MAX
}

/// The `since_ms` filter of `q` lies beyond every timestamp a row can hold, so
/// no row is at or after it.
pub open spec fn since_unreachable(q: McpAuditListParams) -> bool {
    q.since_ms matches Some(s) && s > i64::MAX
}

/// A stored row meets every filter of `q` that is set.
pub open spec fn stored_matches(row: StoredRow, q: McpAuditListParams) -> bool {
    &&& (q.since_ms matches Some(s) ==> row.timestamp_ms >= s)
    &&& (q.client_filter matches Some(c) ==> row.client_info@ == c@)
    &&& (q.tool_filter matches Some(t) ==> row.tool_name@ == t@)
    &&& (q.success_only matches Some(b) ==> row.success == bool_flag(b))
}

/// Stored rows in descending `timestamp_ms` order.
pub open spec fn stored_newest_first(rows: Seq<StoredRow>) -> bool {
    forall|i: int, j: int|
        0 <= i < j < rows.len() ==> #[trigger] rows[i].timestamp_ms >= #[trigger] rows[j].timestamp_ms
}

/// A record meets every filter of `q` that is set: at or after `since_ms`, from
/// the client `client_filter`, of the tool `tool_filter`, and a success or a
/// failure as `success_only` asks.
pub open spec fn record_matches(rec: McpWriteRecord, q: McpAuditListParams) -> bool {
    &&& (q.since_ms matches Some(s) ==> rec.timestamp_ms >= s)
    &&& (q.client_filter matches Some(c) ==> rec.client_info@ == c@)
    &&& (q.tool_filter matches Some(t) ==> rec.tool_name@ == t@)
    &&& (q.success_only matches Some(b) ==> rec.success == b)
}

/// Records newest first: in descending `timestamp_ms` order.
pub open spec fn newest_first(rows: Seq<McpWriteRecord>) -> bool {
    forall|i: int, j: int|
        0 <= i < j < rows.len() ==> #[trigger] rows[i].timestamp_ms >= #[trigger] rows[j].timestamp_ms
}

/// What a page of a listing for `q` holds, whichever rows the database has: at
/// most `limit` records, newest first, each meeting every filter of `q`.
pub open spec fn listing_page(rows: Seq<McpWriteRecord>, q: McpAuditListParams, limit: u32) -> bool {
    &&& rows.len() <= limit
    &&& newest_first(rows)
    &&& forall|i: int| 0 <= i < rows.len() ==> #[trigger] record_matches(rows[i], q)
}

/// The record a stored row reads back as: any nonzero flag is a success.
pub open spec fn decode_row(row: StoredRow) -> McpWriteRecord {
    McpWriteRecord {
        id: row.id,
        timestamp_ms: row.timestamp_ms,
        client_info: row.client_info,
        tool_name: row.tool_name,
        args_summary: row.args_summary,
        resulting_chunk_id: row.resulting_chunk_id,
        success: row.success != 0,
        error_message: row.error_message,
    }
}

/// The columns after `id` of a stored row, as the values they hold.
pub open spec fn stored_values(row: StoredRow) -> Seq<SqlValue> {
    seq![
        SqlValue::Integer(row.timestamp_ms),
        SqlValue::Text(row.client_info),
        SqlValue::Text(row.tool_name),
        opt_text(row.args_summary),
        opt_text(row.resulting_chunk_id),
        SqlValue::Integer(row.success),
        opt_text(row.error_message),
    ]
}

/// The record that an insert of `r` reads back as, once SQLite gave it `id`.
pub open spec fn inserted_record(r: NewMcpWriteRecord, id: i64) -> McpWriteRecord {
    McpWriteRecord {
        id,
        timestamp_ms: r.timestamp_ms,
        client_info: r.client_info,
        tool_name: r.tool_name,
        args_summary: r.args_summary,
        resulting_chunk_id: r.resulting_chunk_id,
        success: r.success,
        error_message: r.error_message,
    }
}

/// How many of the four filters of `q` are set.
pub open spec fn filter_count(q: McpAuditListParams) -> nat {
    (if q.since_ms is Some { 1nat } else { 0nat }) + (if q.client_filter is Some { 1nat } else { 0nat })
        + (if q.tool_filter is Some { 1nat } else { 0nat }) + (if q.success_only is Some { 1nat } else { 0nat })
}

// ---------------------------------------------------------------------------
// Laws

/// What an insert writes reads back unchanged: a row whose columns hold exactly
/// the values bound by the insert of `r` decodes to `r`, with the row's `id`.
pub proof fn lemma_stored_write_reads_back(r: NewMcpWriteRecord, row: StoredRow)
    requires
        stored_values(row) == insert_binds(r),
    ensures
        decode_row(row) == inserted_record(r, row.id),
{
    assert(stored_values(row)[0] == insert_binds(r)[0]);
    assert(stored_values(row)[1] == insert_binds(r)[1]);
    assert(stored_values(row)[2] == insert_binds(r)[2]);
    assert(stored_values(row)[3] == insert_binds(r)[3]);
    assert(stored_values(row)[4] == insert_binds(r)[4]);
    assert(stored_values(row)[5] == insert_binds(r)[5]);
    assert(stored_values(row)[6] == insert_binds(r)[6]);
}

/// What a page-size request gets: 0 asks for the default of 50, any size from
/// 1 to `MAX_LIST_LIMIT` is used as asked, anything larger is cut to
/// `MAX_LIST_LIMIT`; and a larger request never gets a smaller page, except
/// that 0 stands for the default.
pub proof fn lemma_effective_limit_cases(requested: u32, other: u32)
    ensures
        requested == 0 ==> effective_limit(requested) == 50,
        1 <= requested <= 500 ==> effective_limit(requested) == requested,
        requested > 500 ==> effective_limit(requested) == 500,
        1 <= requested <= other ==> effective_limit(requested) <= effective_limit(other),
{
}

/// Clamping is idempotent: a limit that was already clamped passes through
/// unchanged, so clamping again before the query changes nothing.
pub proof fn lemma_clamp_idempotent(requested: u32)
    ensures
        effective_limit(effective_limit(requested)) == effective_limit(requested),
        1 <= effective_limit(requested) <= MAX_LIST_LIMIT,
{
}

/// A listing asks SQLite for one page of at most `MAX_LIST_LIMIT` rows: the
/// values of the query for a request are one per filter that is set, then the
/// clamped page size, then the offset as requested.
pub proof fn lemma_listing_page_bounded(q: McpAuditListParams)
    ensures
        ({
            let b = list_binds(q, effective_limit(q.limit), q.offset);
            &&& b.len() == filter_count(q) + 2
            &&& b[b.len() - 2] == SqlValue::Integer(effective_limit(q.limit) as i64)
            &&& b[b.len() - 1] == SqlValue::Integer(q.offset as i64)
            &&& 1 <= effective_limit(q.limit) <= MAX_LIST_LIMIT
        }),
{
}

/// Paging moves only the window: two listing requests that differ only in
/// their `offset` run the same statement text, bind the same filters and page
/// size, and differ only in the last value, which is each request's own offset,
/// whatever filters are set.
pub proof fn lemma_offset_moves_only_the_window(q1: McpAuditListParams, q2: McpAuditListParams)
    requires
        q2 == (McpAuditListParams { offset: q2.offset, ..q1 }),
    ensures
        list_sql(q1) == list_sql(q2),
        ({
            let b1 = list_binds(q1, effective_limit(q1.limit), q1.offset);
            let b2 = list_binds(q2, effective_limit(q2.limit), q2.offset);
            &&& b1.len() == b2.len()
            &&& b1.drop_last() == b2.drop_last()
            &&& b1.last() == SqlValue::Integer(q1.offset as i64)
            &&& b2.last() == SqlValue::Integer(q2.offset as i64)
        }),
{
    let b1 = list_binds(q1, effective_limit(q1.limit), q1.offset);
    let b2 = list_binds(q2, effective_limit(q2.limit), q2.offset);
    assert(b1.drop_last() =~= b2.drop_last());
}

// ---------------------------------------------------------------------------
// Code

/// Creates the `mcp_writes` table, with the columns `select_prefix` reads, if
/// the database has none. SQLite's answer decides the outcome.
pub fn create_mcp_writes_table(conn: &rusqlite::Connection) -> Result<(), AuditError> {
    let sql = "CREATE TABLE IF NOT EXISTS mcp_writes (id INTEGER PRIMARY KEY AUTOINCREMENT, timestamp_ms INTEGER NOT NULL, client_info TEXT NOT NULL, tool_name TEXT NOT NULL, args_summary TEXT, resulting_chunk_id TEXT, success INTEGER NOT NULL, error_message TEXT)".to_owned();
    let no_values: Vec<SqlValue> = Vec::new();
    match run_statement(conn, SqlQuery::new(sql, no_values)) {
        Ok(_) => Ok(()),
        Err(e) => Err(AuditError::Sqlite(e)),
    }
}

/// Maps a requested page size to the one used: 0 asks for the default,
/// anything above the maximum is cut to it.
pub fn clamp_list_limit(requested: u32) -> (r: u32)
    ensures
        r == effective_limit(requested),
        1 <= r <= MAX_LIST_LIMIT,
        requested == 0 ==> r == DEFAULT_LIST_LIMIT,
        1 <= requested <= MAX_LIST_LIMIT ==> r == requested,
        requested > MAX_LIST_LIMIT ==> r == MAX_LIST_LIMIT,
{
    if requested == 0 {
        DEFAULT_LIST_LIMIT
    } else {
        requested.min(MAX_LIST_LIMIT)
    }
}

fn opt_text_value(s: &Option<String>) -> (v: SqlValue)
    ensures
        v == opt_text(*s),
{
    match s {
        Some(t) => SqlValue::Text(t.clone()),
        None => SqlValue::Null,
    }
}

/// The insert statement for `record` and the values of its placeholders.
pub fn insert_query(record: &NewMcpWriteRecord) -> (q: SqlQuery)
    ensures
        q.text() == insert_sql(),
        q.values() == insert_binds(*record),
{
    let sql = "INSERT INTO mcp_writes (timestamp_ms, client_info, tool_name, args_summary, resulting_chunk_id, success, error_message) VALUES (?1, ?2, ?3, ?4, ?5, ?6, ?7)".to_owned();
    let flag: i64 = if record.success {
        1
    } else {
        0
    };
    let mut binds: Vec<SqlValue> = Vec::new();
    binds.push(SqlValue::Integer(record.timestamp_ms));
    binds.push(SqlValue::Text(record.client_info.clone()));
    binds.push(SqlValue::Text(record.tool_name.clone()));
    binds.push(opt_text_value(&record.args_summary));
    binds.push(opt_text_value(&record.resulting_chunk_id));
    binds.push(SqlValue::Integer(flag));
    binds.push(opt_text_value(&record.error_message));
    SqlQuery::new(sql, binds)
}

/// The listing query for `query` with the page given by `limit` and `offset`.
/// A `since_ms` beyond `i64::MAX` has no query: no row can meet it.
pub fn list_query(query: &McpAuditListParams, limit: u32, offset: u32) -> (q: SqlQuery)
    requires
        since_fits(*query),
    ensures
        q.text() == list_sql(*query),
        q.values() == list_binds(*query, limit, offset),
{
    let mut sql = "SELECT id, timestamp_ms, client_info, tool_name, args_summary, resulting_chunk_id, success, error_message FROM mcp_writes WHERE 1=1".to_owned();
    let mut binds: Vec<SqlValue> = Vec::new();
    if let Some(since) = query.since_ms {
        sql.append(" AND timestamp_ms >= ?");
        binds.push(SqlValue::Integer(since as i64));
    }
    if let Some(client) = &query.client_filter {
        sql.append(" AND client_info = ? COLLATE BINARY");
        binds.push(SqlValue::Text(client.clone()));
    }
    if let Some(tool) = &query.tool_filter {
        sql.append(" AND tool_name = ? COLLATE BINARY");
        binds.push(SqlValue::Text(tool.clone()));
    }
    if let Some(success_only) = query.success_only {
        sql.append(" AND success = ?");
        let flag: i64 = if success_only {
            1
        } else {
            0
        };
        binds.push(SqlValue::Integer(flag));
    }
    sql.append(" ORDER BY timestamp_ms DESC LIMIT ? OFFSET ?");
    binds.push(SqlValue::Integer(limit as i64));
    binds.push(SqlValue::Integer(offset as i64));
    assert(sql@ =~= list_sql(*query));
    assert(binds@ =~= list_binds(*query, limit, offset));
    SqlQuery::new(sql, binds)
}

/// The record a stored row reads back as.
pub fn record_from_row(row: StoredRow) -> (rec: McpWriteRecord)
    ensures
        rec == decode_row(row),
{
    McpWriteRecord {
        id: row.id,
        timestamp_ms: row.timestamp_ms,
        client_info: row.client_info,
        tool_name: row.tool_name,
        args_summary: row.args_summary,
        resulting_chunk_id: row.resulting_chunk_id,
        success: row.success != 0,
        error_message: row.error_message,
    }
}

fn clone_opt_text(s: &Option<String>) -> (r: Option<String>)
    ensures
        r == *s,
{
    match s {
        Some(t) => Some(t.clone()),
        None => None,
    }
}

/// The record a stored row reads back as, the row left in place.
fn decode_stored(row: &StoredRow) -> (rec: McpWriteRecord)
    ensures
        rec == decode_row(*row),
{
    record_from_row(
        StoredRow {
            id: row.id,
            timestamp_ms: row.timestamp_ms,
            client_info: row.client_info.clone(),
            tool_name: row.tool_name.clone(),
            args_summary: clone_opt_text(&row.args_summary),
            resulting_chunk_id: clone_opt_text(&row.resulting_chunk_id),
            success: row.success,
            error_message: clone_opt_text(&row.error_message),
        },
    )
}

/// Stored rows read back as records, in the same order.
fn decode_rows(rows: &Vec<StoredRow>) -> (recs: Vec<McpWriteRecord>)
    ensures
        recs@.len() == rows@.len(),
        forall|i: int| 0 <= i < rows@.len() ==> #[trigger] recs@[i] == decode_row(rows@[i]),
{
    let mut recs: Vec<McpWriteRecord> = Vec::new();
    let mut i: usize = 0;
    while i < rows.len()
        invariant
            i <= rows@.len(),
            recs@.len() == i,
            forall|k: int| 0 <= k < i ==> #[trigger] recs@[k] == decode_row(rows@[k]),
        decreases rows@.len() - i,
    {
        recs.push(decode_stored(&rows[i]));
        i = i + 1;
    }
    recs
}

/// A page of stored rows that meets the listing's filters and order decodes
/// to a page of records that does.
proof fn lemma_decoded_page(
    rows: Seq<StoredRow>,
    recs: Seq<McpWriteRecord>,
    q: McpAuditListParams,
    limit: u32,
)
    requires
        recs.len() == rows.len(),
        forall|i: int| 0 <= i < rows.len() ==> #[trigger] recs[i] == decode_row(rows[i]),
        rows.len() <= limit,
        stored_newest_first(rows),
        forall|i: int| 0 <= i < rows.len() ==> #[trigger] stored_matches(rows[i], q),
    ensures
        listing_page(recs, q, limit),
{
    assert forall|i: int, j: int| 0 <= i < j < recs.len() implies #[trigger] recs[i].timestamp_ms
        >= #[trigger] recs[j].timestamp_ms by {
        assert(recs[i] == decode_row(rows[i]));
        assert(recs[j] == decode_row(rows[j]));
        assert(rows[i].timestamp_ms >= rows[j].timestamp_ms);
    }
    assert forall|i: int| 0 <= i < recs.len() implies #[trigger] record_matches(recs[i], q) by {
        assert(recs[i] == decode_row(rows[i]));
        assert(stored_matches(rows[i], q));
    }
}

/// Appends one audit row and hands back the statement it ran: the insert
/// statement with the record's values, as `insert_query` builds them, marked as
/// the one SQLite executed. Whether SQLite accepts it depends on the database.
pub fn insert_mcp_write(
    conn: &rusqlite::Connection,
    record: &NewMcpWriteRecord,
) -> (r: Result<SqlQuery, AuditError>)
    ensures
        r matches Ok(q) ==> q.has_run() && q.text() == insert_sql() && q.values() == insert_binds(
            *record,
        ),
{
    match run_statement(conn, insert_query(record)) {
        Ok(ran) => Ok(ran),
        Err(e) => Err(AuditError::Sqlite(e)),
    }
}

/// Lists audit rows for `query` with its own page: the clamped `limit` and the
/// requested `offset`, whatever filters are set. A `since_ms` beyond
/// every `i64` timestamp gives an empty page without asking the database;
/// otherwise the rows are SQLite's answer to `list_query`: at most `limit` of
/// them, newest first, each meeting the filters of `query`.
fn list_mcp_writes_conn(
    conn: &rusqlite::Connection,
    query: &McpAuditListParams,
    limit: u32,
    offset: u32,
) -> (r: Result<Vec<McpWriteRecord>, AuditError>)
    requires
        limit == effective_limit(query.limit),
        offset == query.offset,
    ensures
        since_unreachable(*query) ==> (r matches Ok(rows) && rows@.len() == 0),
        r matches Ok(rows) ==> listing_page(rows@, *query, limit),
{
    if let Some(since) = query.since_ms {
        if since > i64::MAX as u64 {
            return Ok(Vec::new());
        }
    }
    let q = list_query(query, limit, offset);
    match query_listing(conn, &q, query, limit, offset) {
        Ok(rows) => {
            let recs = decode_rows(&rows);
            proof {
                lemma_decoded_page(rows@, recs@, *query, limit);
            }
            Ok(recs)
        },
        Err(e) => Err(AuditError::Sqlite(e)),
    }
}

/// Lists audit rows for `query`: its `limit` clamped, its `offset` as given.
/// A page holds at most `effective_limit(query.limit)` (so at most
/// `MAX_LIST_LIMIT`) records, newest first, each meeting the filters of
/// `query`; a `since_ms` beyond every `i64` timestamp gives an empty page.
pub fn list_mcp_writes(
    conn: &rusqlite::Connection,
    query: &McpAuditListParams,
) -> (r: Result<Vec<McpWriteRecord>, AuditError>)
    ensures
        since_unreachable(*query) ==> (r matches Ok(rows) && rows@.len() == 0),
        r matches Ok(rows) ==> listing_page(rows@, *query, effective_limit(query.limit)),
        r matches Ok(rows) ==> rows@.len() <= MAX_LIST_LIMIT,
{
    let limit = clamp_list_limit(query.limit);
    let offset = query.offset;
    list_mcp_writes_conn(conn, query, limit, offset)
}

} // verus!
