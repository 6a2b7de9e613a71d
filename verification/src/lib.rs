//! Audit log of MCP write-tool invocations (`memory.store`, `memory.note`,
//! `tree.tag`): the rows kept in the `mcp_writes` table, the listing query with
//! its filters and paging, the slim argument summaries stored with each row,
//! and the controller schema of the `mcp_audit.audit_list` RPC.

pub mod error;
pub mod json;
pub mod schemas;
pub mod sqlite;
pub mod store;
pub mod summary;
pub mod types;

pub use schemas::{
    all_controller_schemas as all_mcp_audit_controller_schemas,
    all_registered_controllers as all_mcp_audit_registered_controllers,
};
pub use store::{insert_mcp_write, NewMcpWriteRecord};
pub use summary::summarize_write_args;
pub use types::{McpAuditListParams, McpAuditListResponse, McpWriteRecord};
