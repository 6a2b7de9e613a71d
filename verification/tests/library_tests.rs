use mcp_audit::json::{JsonMap, JsonNumber, JsonValue};
use mcp_audit::schemas::{all_controller_schemas, schemas, ControllerHandler, TypeSchema};
use mcp_audit::store::{
    clamp_list_limit, create_mcp_writes_table, insert_mcp_write, insert_query, list_mcp_writes,
    list_query, record_from_row, NewMcpWriteRecord, SqlValue, StoredRow, MAX_LIST_LIMIT,
};
use mcp_audit::summary::{classify_tool, summarize_write_args, write_summary_value, WriteTool};
use mcp_audit::types::{default_limit, McpAuditListParams, DEFAULT_LIST_LIMIT};
use rusqlite::Connection;

fn db() -> Connection {
    let conn = Connection::open_in_memory().expect("open db");
    create_mcp_writes_table(&conn).expect("schema");
    conn
}

fn new_record(ts: i64, client: &str, tool: &str, success: bool) -> NewMcpWriteRecord {
    NewMcpWriteRecord {
        timestamp_ms: ts,
        client_info: client.to_string(),
        tool_name: tool.to_string(),
        args_summary: None,
        resulting_chunk_id: None,
        success,
        error_message: None,
    }
}

fn text(s: &str) -> JsonValue {
    JsonValue::String(s.to_string())
}

fn obj(members: Vec<(&str, JsonValue)>) -> JsonMap {
    let mut m = JsonMap::new();
    for (k, v) in members {
        m.insert(k.to_string(), v);
    }
    m
}

fn int_of(v: &SqlValue) -> i64 {
    match v {
        SqlValue::Integer(i) => *i,
        other => panic!("not an integer: {other:?}"),
    }
}

fn text_of(v: &SqlValue) -> String {
    match v {
        SqlValue::Text(s) => s.clone(),
        other => panic!("not a text: {other:?}"),
    }
}

#[test]
fn clamp_list_limit_values() {
    assert_eq!(clamp_list_limit(0), 50);
    assert_eq!(clamp_list_limit(1), 1);
    assert_eq!(clamp_list_limit(50), 50);
    assert_eq!(clamp_list_limit(499), 499);
    assert_eq!(clamp_list_limit(500), 500);
    assert_eq!(clamp_list_limit(501), 500);
    assert_eq!(clamp_list_limit(u32::MAX), MAX_LIST_LIMIT);
}

#[test]
fn clamp_list_limit_is_idempotent() {
    for l in [0u32, 1, 2, 50, 499, 500, 501, 10_000, u32::MAX] {
        let once = clamp_list_limit(l);
        assert_eq!(clamp_list_limit(once), once);
        assert!((1..=500).contains(&once));
    }
}

#[test]
fn default_params_list_first_page_unfiltered() {
    let p = McpAuditListParams::default();
    assert_eq!(default_limit(), 50);
    assert_eq!(p.limit, DEFAULT_LIST_LIMIT);
    assert_eq!(p.offset, 0);
    assert!(p.since_ms.is_none());
    assert!(p.client_filter.is_none());
    assert!(p.tool_filter.is_none());
    assert!(p.success_only.is_none());
}

#[test]
fn list_query_without_filters() {
    let q = list_query(&McpAuditListParams::default(), 50, 0);
    assert_eq!(
        q.sql,
        "SELECT id, timestamp_ms, client_info, tool_name, args_summary, resulting_chunk_id, success, error_message FROM mcp_writes WHERE 1=1 ORDER BY timestamp_ms DESC LIMIT ? OFFSET ?"
    );
    assert_eq!(q.binds.len(), 2);
    assert_eq!(int_of(&q.binds[0]), 50);
    assert_eq!(int_of(&q.binds[1]), 0);
}

#[test]
fn list_query_with_every_filter() {
    let p = McpAuditListParams {
        limit: 7,
        offset: 3,
        since_ms: Some(150),
        client_filter: Some("mcp:b".to_string()),
        tool_filter: Some("tree.tag".to_string()),
        success_only: Some(false),
    };
    let q = list_query(&p, 7, 3);
    assert!(q.sql.ends_with(
        "WHERE 1=1 AND timestamp_ms >= ? AND client_info = ? COLLATE BINARY AND tool_name = ? COLLATE BINARY AND success = ? ORDER BY timestamp_ms DESC LIMIT ? OFFSET ?"
    ));
    assert_eq!(q.sql.matches('?').count(), q.binds.len());
    assert_eq!(q.binds.len(), 6);
    assert_eq!(int_of(&q.binds[0]), 150);
    assert_eq!(text_of(&q.binds[1]), "mcp:b");
    assert_eq!(text_of(&q.binds[2]), "tree.tag");
    assert_eq!(int_of(&q.binds[3]), 0);
    assert_eq!(int_of(&q.binds[4]), 7);
    assert_eq!(int_of(&q.binds[5]), 3);
}

#[test]
fn since_beyond_every_timestamp_lists_nothing() {
    let conn = db();
    insert_mcp_write(&conn, &new_record(i64::MAX, "mcp", "memory.store", true)).expect("insert");
    insert_mcp_write(&conn, &new_record(-5, "mcp", "memory.store", true)).expect("insert");
    let beyond = list_mcp_writes(
        &conn,
        &McpAuditListParams { since_ms: Some(u64::MAX), ..Default::default() },
    )
    .expect("beyond");
    assert!(beyond.is_empty());
    let just_above = list_mcp_writes(
        &conn,
        &McpAuditListParams { since_ms: Some(i64::MAX as u64 + 1), ..Default::default() },
    )
    .expect("just above");
    assert!(just_above.is_empty());
    let at_max = list_mcp_writes(
        &conn,
        &McpAuditListParams { since_ms: Some(i64::MAX as u64), ..Default::default() },
    )
    .expect("at max");
    assert_eq!(at_max.len(), 1);
    assert_eq!(at_max[0].timestamp_ms, i64::MAX);
}

#[test]
fn listed_records_compare_equal_to_what_was_written() {
    let conn = db();
    insert_mcp_write(&conn, &new_record(10, "c", "tree.tag", false)).expect("insert");
    let rows = list_mcp_writes(&conn, &McpAuditListParams::default()).expect("list");
    let again = list_mcp_writes(&conn, &McpAuditListParams::default()).expect("list again");
    assert_eq!(rows, again);
    assert!(!rows[0].success);
}

#[test]
fn insert_query_binds_columns_in_order() {
    let r = NewMcpWriteRecord {
        timestamp_ms: 42,
        client_info: "mcp:x".to_string(),
        tool_name: "memory.store".to_string(),
        args_summary: Some("{}".to_string()),
        resulting_chunk_id: None,
        success: true,
        error_message: None,
    };
    let q = insert_query(&r);
    assert!(q.sql.starts_with("INSERT INTO mcp_writes (timestamp_ms, client_info"));
    assert_eq!(q.binds.len(), 7);
    assert_eq!(int_of(&q.binds[0]), 42);
    assert_eq!(text_of(&q.binds[1]), "mcp:x");
    assert_eq!(text_of(&q.binds[2]), "memory.store");
    assert_eq!(text_of(&q.binds[3]), "{}");
    assert!(matches!(q.binds[4], SqlValue::Null));
    assert_eq!(int_of(&q.binds[5]), 1);
    assert!(matches!(q.binds[6], SqlValue::Null));
    let failed = insert_query(&NewMcpWriteRecord { success: false, ..r });
    assert_eq!(int_of(&failed.binds[5]), 0);
}

#[test]
fn record_from_row_reads_any_nonzero_flag_as_success() {
    let row = |flag: i64| StoredRow {
        id: 9,
        timestamp_ms: 5,
        client_info: "c".to_string(),
        tool_name: "t".to_string(),
        args_summary: None,
        resulting_chunk_id: Some("k".to_string()),
        success: flag,
        error_message: Some("e".to_string()),
    };
    assert!(!record_from_row(row(0)).success);
    assert!(record_from_row(row(1)).success);
    assert!(record_from_row(row(2)).success);
    assert!(record_from_row(row(-1)).success);
    let r = record_from_row(row(1));
    assert_eq!(r.id, 9);
    assert_eq!(r.timestamp_ms, 5);
    assert_eq!(r.resulting_chunk_id.as_deref(), Some("k"));
    assert_eq!(r.error_message.as_deref(), Some("e"));
}

#[test]
fn written_row_reads_back_unchanged() {
    let conn = db();
    let r = NewMcpWriteRecord {
        timestamp_ms: 77,
        client_info: "mcp:zed".to_string(),
        tool_name: "tree.tag".to_string(),
        args_summary: Some("{\"chunk_id\":\"c\"}".to_string()),
        resulting_chunk_id: Some("c".to_string()),
        success: false,
        error_message: Some("denied".to_string()),
    };
    insert_mcp_write(&conn, &r).expect("insert");
    let rows = list_mcp_writes(&conn, &McpAuditListParams::default()).expect("list");
    assert_eq!(rows.len(), 1);
    let got = &rows[0];
    assert_eq!(got.timestamp_ms, r.timestamp_ms);
    assert_eq!(got.client_info, r.client_info);
    assert_eq!(got.tool_name, r.tool_name);
    assert_eq!(got.args_summary, r.args_summary);
    assert_eq!(got.resulting_chunk_id, r.resulting_chunk_id);
    assert_eq!(got.success, r.success);
    assert_eq!(got.error_message, r.error_message);
}

#[test]
fn listing_is_newest_first_and_since_is_inclusive() {
    let conn = db();
    for ts in [300, 100, 200] {
        insert_mcp_write(&conn, &new_record(ts, "mcp", "memory.store", true)).expect("insert");
    }
    let rows = list_mcp_writes(&conn, &McpAuditListParams::default()).expect("list");
    let stamps: Vec<i64> = rows.iter().map(|r| r.timestamp_ms).collect();
    assert_eq!(stamps, vec![300, 200, 100]);
    let since = list_mcp_writes(
        &conn,
        &McpAuditListParams { since_ms: Some(200), ..Default::default() },
    )
    .expect("since");
    assert_eq!(since.len(), 2);
}

#[test]
fn success_only_false_lists_failures() {
    let conn = db();
    insert_mcp_write(&conn, &new_record(1, "a", "memory.note", true)).expect("insert");
    insert_mcp_write(&conn, &new_record(2, "a", "memory.note", false)).expect("insert");
    let failures = list_mcp_writes(
        &conn,
        &McpAuditListParams { success_only: Some(false), ..Default::default() },
    )
    .expect("failures");
    assert_eq!(failures.len(), 1);
    assert!(!failures[0].success);
}

#[test]
fn zero_limit_lists_default_page_and_large_limit_is_capped() {
    let conn = db();
    for ts in 0..60 {
        insert_mcp_write(&conn, &new_record(ts, "mcp", "memory.store", true)).expect("insert");
    }
    let zero = list_mcp_writes(&conn, &McpAuditListParams { limit: 0, ..Default::default() })
        .expect("zero");
    assert_eq!(zero.len(), 50);
    let big = list_mcp_writes(&conn, &McpAuditListParams { limit: 10_000, ..Default::default() })
        .expect("big");
    assert_eq!(big.len(), 60);
}

#[test]
fn database_without_table_is_an_error() {
    let conn = Connection::open_in_memory().expect("open");
    assert!(list_mcp_writes(&conn, &McpAuditListParams::default()).is_err());
    assert!(insert_mcp_write(&conn, &new_record(1, "a", "b", true)).is_err());
}

#[test]
fn store_summary_exact_text() {
    let params = obj(vec![
        ("title", text("Hello")),
        ("content", text("secret body")),
        ("namespace", text("work")),
        ("tags", JsonValue::Array(vec![text("a"), text("b")])),
    ]);
    assert_eq!(
        summarize_write_args("memory.store", &params).as_deref(),
        Some(r#"{"namespace":"work","tag_count":2,"title":"Hello"}"#)
    );
}

#[test]
fn store_summary_defaults_when_members_missing_or_mistyped() {
    let params = obj(vec![("title", JsonValue::Bool(true)), ("tags", text("x"))]);
    assert_eq!(
        summarize_write_args("memory.store", &params).as_deref(),
        Some(r#"{"namespace":"mcp","tag_count":0,"title":""}"#)
    );
}

#[test]
fn store_summary_cuts_title_to_128_characters() {
    let long: String = "é".repeat(200);
    let params = obj(vec![("title", JsonValue::String(long))]);
    let v = write_summary_value("memory.store", &params).expect("summary");
    let JsonValue::Object(m) = v else { panic!("not an object") };
    match m.get("title") {
        Some(JsonValue::String(t)) => {
            assert_eq!(t.chars().count(), 128);
            assert_eq!(t.as_str(), "é".repeat(128));
        }
        _ => panic!("no title"),
    }
}

#[test]
fn note_summary_counts_utf8_bytes_of_content() {
    let params = obj(vec![
        ("metadata", JsonValue::Object(obj(vec![("annotates_chunk_id", text("chunk-9"))]))),
        ("content", text("héllo")),
    ]);
    assert_eq!(
        summarize_write_args("memory.note", &params).as_deref(),
        Some(r#"{"chunk_id":"chunk-9","note_text_length":6}"#)
    );
    assert_eq!(
        summarize_write_args("memory.note", &JsonMap::new()).as_deref(),
        Some(r#"{"chunk_id":"","note_text_length":0}"#)
    );
}

#[test]
fn tag_summary_copies_tags_and_defaults_to_empty() {
    let params = obj(vec![
        ("metadata", JsonValue::Object(obj(vec![("tags_for_chunk_id", text("c-2"))]))),
        (
            "tags",
            JsonValue::Array(vec![
                text("urgent"),
                JsonValue::Number(JsonNumber::PosInt(3)),
                JsonValue::Null,
            ]),
        ),
    ]);
    assert_eq!(
        summarize_write_args("tree.tag", &params).as_deref(),
        Some(r#"{"chunk_id":"c-2","tags":["urgent",3,null]}"#)
    );
    assert_eq!(
        summarize_write_args("tree.tag", &JsonMap::new()).as_deref(),
        Some(r#"{"chunk_id":"","tags":[]}"#)
    );
}

#[test]
fn summary_depends_on_content_only_through_its_length() {
    let a = obj(vec![("content", text("first secret")), ("metadata", JsonValue::Null)]);
    let b = obj(vec![("content", text("other secret")), ("metadata", JsonValue::Null)]);
    for tool in ["memory.store", "memory.note", "tree.tag"] {
        let sa = summarize_write_args(tool, &a).expect("a");
        let sb = summarize_write_args(tool, &b).expect("b");
        assert_eq!(sa, sb);
        assert!(!sa.contains("secret"));
    }
}

#[test]
fn other_tools_get_no_summary() {
    assert_eq!(classify_tool("memory.store"), Some(WriteTool::MemoryStore));
    assert_eq!(classify_tool("memory.note"), Some(WriteTool::MemoryNote));
    assert_eq!(classify_tool("tree.tag"), Some(WriteTool::TreeTag));
    assert_eq!(classify_tool("memory.search"), None);
    assert!(summarize_write_args("memory.search", &JsonMap::new()).is_none());
    assert!(summarize_write_args("", &JsonMap::new()).is_none());
}

#[test]
fn json_map_insert_replaces_and_get_reads_back() {
    let mut m = JsonMap::new();
    assert!(m.insert("k".to_string(), text("one")).is_none());
    assert!(m.insert("j".to_string(), JsonValue::Bool(false)).is_none());
    match m.insert("k".to_string(), text("two")) {
        Some(JsonValue::String(old)) => assert_eq!(old, "one"),
        _ => panic!("old value"),
    }
    assert_eq!(m.entries.len(), 2);
    assert!(matches!(m.get("k"), Some(JsonValue::String(s)) if s == "two"));
    assert!(matches!(m.get("j"), Some(JsonValue::Bool(false))));
    assert!(m.get("missing").is_none());
}

#[test]
fn summary_text_escapes_strings() {
    let params = obj(vec![
        ("metadata", JsonValue::Object(obj(vec![("tags_for_chunk_id", text("q\"uote"))]))),
        (
            "tags",
            JsonValue::Array(vec![
                text("a\"b\\c\n"),
                JsonValue::Number(JsonNumber::NegInt(-4)),
                JsonValue::Bool(true),
            ]),
        ),
    ]);
    assert_eq!(
        summarize_write_args("tree.tag", &params).as_deref(),
        Some(r#"{"chunk_id":"q\"uote","tags":["a\"b\\c\n",-4,true]}"#)
    );
}

#[test]
fn duplicate_keeps_every_member() {
    let tags = JsonValue::Array(vec![
        text("y"),
        JsonValue::Object(obj(vec![("z", JsonValue::Array(vec![JsonValue::Null]))])),
    ]);
    let original = obj(vec![("tags", tags.duplicate())]);
    let copied = obj(vec![("tags", tags)]);
    let a = summarize_write_args("tree.tag", &original).expect("original");
    let b = summarize_write_args("tree.tag", &copied).expect("copy");
    assert_eq!(a, b);
    assert_eq!(a, r#"{"chunk_id":"","tags":["y",{"z":[null]}]}"#);
}

#[test]
fn audit_list_schema_fields() {
    let all = all_controller_schemas();
    assert_eq!(all.len(), 1);
    let s = schemas("audit_list");
    assert_eq!(s.namespace, "mcp_audit");
    assert_eq!(s.function, "audit_list");
    let names: Vec<&str> = s.inputs.iter().map(|f| f.name).collect();
    assert_eq!(names, vec!["limit", "offset", "since_ms", "client_filter", "tool_filter", "success_only"]);
    assert!(s.inputs.iter().all(|f| !f.required));
    assert_eq!(s.outputs.len(), 1);
    assert_eq!(s.outputs[0].name, "writes");
    assert!(s.outputs[0].required);
    assert!(matches!(&s.outputs[0].ty, TypeSchema::Array(inner) if matches!(**inner, TypeSchema::Ref("McpWriteRecord"))));
    let regs = mcp_audit::schemas::all_registered_controllers();
    assert_eq!(regs[0].handler, ControllerHandler::AuditList);
    assert_eq!(regs[0].schema.function, all[0].function);
}

#[test]
fn text_filters_compare_bytes_whatever_the_table_collation() {
    let conn = Connection::open_in_memory().expect("open");
    conn.execute(
        "CREATE TABLE mcp_writes (id INTEGER PRIMARY KEY AUTOINCREMENT, timestamp_ms INTEGER NOT NULL, client_info TEXT COLLATE NOCASE NOT NULL, tool_name TEXT COLLATE NOCASE NOT NULL, args_summary TEXT, resulting_chunk_id TEXT, success INTEGER NOT NULL, error_message TEXT)",
        [],
    )
    .expect("nocase table");
    create_mcp_writes_table(&conn).expect("table kept");
    insert_mcp_write(&conn, &new_record(1, "mcp:b", "tree.tag", true)).expect("insert");
    let upper = list_mcp_writes(
        &conn,
        &McpAuditListParams { client_filter: Some("MCP:B".to_string()), ..Default::default() },
    )
    .expect("upper");
    assert!(upper.is_empty());
    let tool_upper = list_mcp_writes(
        &conn,
        &McpAuditListParams { tool_filter: Some("TREE.TAG".to_string()), ..Default::default() },
    )
    .expect("tool upper");
    assert!(tool_upper.is_empty());
    let exact = list_mcp_writes(
        &conn,
        &McpAuditListParams { client_filter: Some("mcp:b".to_string()), ..Default::default() },
    )
    .expect("exact");
    assert_eq!(exact.len(), 1);
}

#[test]
fn insert_hands_back_the_statement_it_ran() {
    let conn = db();
    let r = new_record(3, "c", "memory.note", true);
    let q = insert_mcp_write(&conn, &r).expect("insert");
    assert_eq!(q.sql, insert_query(&r).sql);
    assert_eq!(q.binds.len(), 7);
    assert_eq!(int_of(&q.binds[0]), 3);
    assert_eq!(text_of(&q.binds[1]), "c");
}

#[test]
fn module_root_reexports() {
    let schemas = mcp_audit::all_mcp_audit_controller_schemas();
    let regs = mcp_audit::all_mcp_audit_registered_controllers();
    assert_eq!(schemas.len(), regs.len());
    assert_eq!(schemas[0].function, regs[0].schema.function);
    let p = mcp_audit::McpAuditListParams::default();
    assert_eq!(p.limit, 50);
}
