use vstd::prelude::*;

use crate::schemas::TypeSchema;

verus! {

/// One persisted MCP write-tool audit row.
#[derive(Clone, Debug, PartialEq, Eq)]
pub struct McpWriteRecord {
    pub id: i64,
    pub timestamp_ms: i64,
    pub client_info: String,
    pub tool_name: String,
    pub args_summary: Option<String>,
    pub resulting_chunk_id: Option<String>,
    pub success: bool,
    pub error_message: Option<String>,
}

/// Query parameters for the audit listing.
#[derive(Clone, Debug)]
pub struct McpAuditListParams {
    pub limit: u32,
    pub offset: u32,
    pub since_ms: Option<u64>,
    pub client_filter: Option<String>,
    pub tool_filter: Option<String>,
    pub success_only: Option<bool>,
}

/// Response envelope of the audit listing.
#[derive(Clone, Debug)]
pub struct McpAuditListResponse {
    pub writes: Vec<McpWriteRecord>,
}

/// The page size used when a request names none.
pub const DEFAULT_LIST_LIMIT: u32 = 50;

/// The page size a request gets when it leaves `limit` out.
pub fn default_limit() -> (r: u32)
    ensures
        r == DEFAULT_LIST_LIMIT,
{
    DEFAULT_LIST_LIMIT
}

impl McpAuditListParams {
    /// The parameters of an unfiltered listing of the first page.
    pub open spec fn is_default(self) -> bool {
        &&& self.limit == DEFAULT_LIST_LIMIT
        &&& self.offset == 0
        &&& self.since_ms is None
        &&& self.client_filter is None
        &&& self.tool_filter is None
        &&& self.success_only is None
    }
}

impl McpAuditListParams {
    /// The wire type of the parameter field `name`, from its Rust type: the
    /// `u32` fields are unsigned integers, and each `Option` field is optional
    /// over its inner type (`u64` an unsigned integer, `String` a string,
    /// `bool` a boolean). `None` for a name that is no field.
    pub open spec fn field_type(name: Seq<char>) -> Option<TypeSchema> {
        if name == "limit"@ || name == "offset"@ {
            Some(TypeSchema::U64)
        } else if name == "since_ms"@ {
            Some(TypeSchema::Option(Box::new(TypeSchema::U64)))
        } else if name == "client_filter"@ || name == "tool_filter"@ {
            Some(TypeSchema::Option(Box::new(TypeSchema::String)))
        } else if name == "success_only"@ {
            Some(TypeSchema::Option(Box::new(TypeSchema::Bool)))
        } else {
            None
        }
    }
}

impl McpAuditListResponse {
    /// The wire type of the response field `name`, from its Rust type:
    /// `writes` is a list of `McpWriteRecord`s.
    pub open spec fn field_type(name: Seq<char>) -> Option<TypeSchema> {
        if name == "writes"@ {
            Some(TypeSchema::Array(Box::new(TypeSchema::Ref("McpWriteRecord"))))
        } else {
            None
        }
    }
}

impl Default for McpAuditListParams {
    fn default() -> (r: Self)
        ensures
            r.is_default(),
    {
        McpAuditListParams {
            limit: default_limit(),
            offset: 0,
            since_ms: None,
            client_filter: None,
            tool_filter: None,
            success_only: None,
        }
    }
}

} // verus!
