# mcp_audit

Audit log of MCP write-tool calls (`memory.store`, `memory.note`, `tree.tag`),
kept in the `mcp_writes` table of a SQLite database.

Layout:

- `src/` — the verified library.
  - `types.rs`: the audit row, the listing parameters (with their defaults) and
    the listing response.
  - `store.rs`: page-size clamping, the insert and listing statements with their
    bound values, the decoding of stored rows, and the insert / list operations.
  - `sqlite.rs`: the `rusqlite` calls, each behind a trusted item.
  - `json.rs`: JSON values and objects, and `serde_json` text output behind a
    trusted item.
  - `summary.rs`: the slim argument summary stored with each row.
  - `schemas.rs`: the controller schema of `mcp_audit.audit_list`.
- `app/` — ordinary Rust around it: the database file of a workspace, the async
  RPC handler, serde forms of the wire types, `serde_json` conversions.
- `tests/` — the tests, run against an in-memory SQLite database.
