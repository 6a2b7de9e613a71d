//! Controller-registry schema of the `mcp_audit.audit_list` RPC.

use vstd::prelude::*;

use crate::types::{McpAuditListParams, McpAuditListResponse};

verus! {

/// The type of one input or output field of a controller.
#[derive(Debug)]
pub enum TypeSchema {
    U64,
    String,
    Bool,
    Option(Box<TypeSchema>),
    Array(Box<TypeSchema>),
    Ref(&'static str),
}

/// One named input or output field of a controller.
#[derive(Debug)]
pub struct FieldSchema {
    pub name: &'static str,
    pub ty: TypeSchema,
    pub comment: &'static str,
    pub required: bool,
}

/// What a controller is called, what it takes and what it returns.
#[derive(Debug)]
pub struct ControllerSchema {
    pub namespace: &'static str,
    pub function: &'static str,
    pub description: &'static str,
    pub inputs: Vec<FieldSchema>,
    pub outputs: Vec<FieldSchema>,
}

/// The handler a registered controller dispatches to.
#[derive(Clone, Copy, Debug, PartialEq, Eq)]
pub enum ControllerHandler {
    /// Lists the audit history with `McpAuditListParams`.
    AuditList,
}

/// A controller schema together with its handler.
#[derive(Debug)]
pub struct RegisteredController {
    pub schema: ControllerSchema,
    pub handler: ControllerHandler,
}

/// `f` is the field `name` of type `ty`, documented by `comment`.
pub open spec fn field_is(
    f: FieldSchema,
    name: &str,
    ty: TypeSchema,
    comment: &str,
    required: bool,
) -> bool {
    &&& f.name@ == name@
    &&& f.ty == ty
    &&& f.comment@ == comment@
    &&& f.required == required
}

/// `s` is the schema of `mcp_audit.audit_list`: six optional inputs (paging and
/// the four filters) and one required output, the rows.
pub open spec fn is_audit_list_schema(s: ControllerSchema) -> bool {
    &&& s.namespace@ == "mcp_audit"@
    &&& s.function@ == "audit_list"@
    &&& s.description@ == "List MCP write-tool audit history (memory.store, memory.note, tree.tag). Metadata only — not exposed to MCP clients."@
    &&& s.inputs@.len() == 6
    &&& field_is(s.inputs@[0], "limit", TypeSchema::U64, "Max rows (default 50, max 500).", false)
    &&& field_is(s.inputs@[1], "offset", TypeSchema::U64, "Pagination offset (default 0).", false)
    &&& field_is(
        s.inputs@[2],
        "since_ms",
        TypeSchema::Option(Box::new(TypeSchema::U64)),
        "Only rows at or after this Unix timestamp (ms).",
        false,
    )
    &&& field_is(
        s.inputs@[3],
        "client_filter",
        TypeSchema::Option(Box::new(TypeSchema::String)),
        "Filter by client_info (e.g. mcp:cursor).",
        false,
    )
    &&& field_is(
        s.inputs@[4],
        "tool_filter",
        TypeSchema::Option(Box::new(TypeSchema::String)),
        "Filter by tool_name (memory.store, memory.note, tree.tag).",
        false,
    )
    &&& field_is(
        s.inputs@[5],
        "success_only",
        TypeSchema::Option(Box::new(TypeSchema::Bool)),
        "When set, filter to successes (true) or failures (false).",
        false,
    )
    &&& s.outputs@.len() == 1
    &&& field_is(
        s.outputs@[0],
        "writes",
        TypeSchema::Array(Box::new(TypeSchema::Ref("McpWriteRecord"))),
        "Audit rows, newest first.",
        true,
    )
}

/// Every field of `s` carries the type of the field of the same name of the
/// parameters (inputs) or of the response (outputs), and each field of those
/// types is listed once.
pub open spec fn fields_typed_by_wire_types(s: ControllerSchema) -> bool {
    &&& forall|i: int|
        0 <= i < s.inputs@.len() ==> McpAuditListParams::field_type(#[trigger] s.inputs@[i].name@)
            == Some(s.inputs@[i].ty)
    &&& forall|i: int|
        0 <= i < s.outputs@.len() ==> McpAuditListResponse::field_type(
            #[trigger] s.outputs@[i].name@,
        ) == Some(s.outputs@[i].ty)
    &&& forall|i: int, j: int|
        0 <= i < j < s.inputs@.len() ==> #[trigger] s.inputs@[i].name@ != #[trigger] s.inputs@[j].name@
    &&& forall|n: Seq<char>|
        McpAuditListParams::field_type(n) is Some ==> exists|i: int|
            0 <= i < s.inputs@.len() && #[trigger] s.inputs@[i].name@ == n
}

/// The schema of `audit_list` describes the wire types as they are: each input
/// has the type of the parameter field of its name, each output the type of
/// the response field of its name, and every parameter field is an input,
/// once.
pub proof fn lemma_schema_matches_wire_types(s: ControllerSchema)
    requires
        is_audit_list_schema(s),
    ensures
        fields_typed_by_wire_types(s),
{
    reveal_strlit("limit");
    reveal_strlit("offset");
    reveal_strlit("since_ms");
    reveal_strlit("client_filter");
    reveal_strlit("tool_filter");
    reveal_strlit("success_only");
    reveal_strlit("writes");
    assert("limit"@.len() == 5);
    assert("offset"@.len() == 6);
    assert("since_ms"@.len() == 8);
    assert("client_filter"@.len() == 13);
    assert("tool_filter"@.len() == 11);
    assert("success_only"@.len() == 12);
    assert("offset"@[0] == 'o');
    assert("limit"@[0] == 'l');
    assert forall|i: int|
        0 <= i < s.inputs@.len() implies McpAuditListParams::field_type(
        #[trigger] s.inputs@[i].name@,
    ) == Some(s.inputs@[i].ty) by {
        assert(i == 0 || i == 1 || i == 2 || i == 3 || i == 4 || i == 5);
    }
    assert forall|i: int, j: int|
        0 <= i < j < s.inputs@.len() implies #[trigger] s.inputs@[i].name@
        != #[trigger] s.inputs@[j].name@ by {
        assert(i == 0 || i == 1 || i == 2 || i == 3 || i == 4 || i == 5);
        assert(j == 0 || j == 1 || j == 2 || j == 3 || j == 4 || j == 5);
    }
    assert forall|n: Seq<char>|
        McpAuditListParams::field_type(n) is Some implies exists|i: int|
            0 <= i < s.inputs@.len() && #[trigger] s.inputs@[i].name@ == n by {
        if n == "limit"@ {
            assert(s.inputs@[0].name@ == n);
        } else if n == "offset"@ {
            assert(s.inputs@[1].name@ == n);
        } else if n == "since_ms"@ {
            assert(s.inputs@[2].name@ == n);
        } else if n == "client_filter"@ {
            assert(s.inputs@[3].name@ == n);
        } else if n == "tool_filter"@ {
            assert(s.inputs@[4].name@ == n);
        } else {
            assert(s.inputs@[5].name@ == n);
        }
    }
}

/// The schema of the controller `function` of this namespace; `audit_list` is
/// the only one.
pub fn schemas(function: &str) -> (s: ControllerSchema)
    requires
        function@ == "audit_list"@,
    ensures
        is_audit_list_schema(s),
        fields_typed_by_wire_types(s),
{
    let mut inputs: Vec<FieldSchema> = Vec::new();
    inputs.push(
        FieldSchema {
            name: "limit",
            ty: TypeSchema::U64,
            comment: "Max rows (default 50, max 500).",
            required: false,
        },
    );
    inputs.push(
        FieldSchema {
            name: "offset",
            ty: TypeSchema::U64,
            comment: "Pagination offset (default 0).",
            required: false,
        },
    );
    inputs.push(
        FieldSchema {
            name: "since_ms",
            ty: TypeSchema::Option(Box::new(TypeSchema::U64)),
            comment: "Only rows at or after this Unix timestamp (ms).",
            required: false,
        },
    );
    inputs.push(
        FieldSchema {
            name: "client_filter",
            ty: TypeSchema::Option(Box::new(TypeSchema::String)),
            comment: "Filter by client_info (e.g. mcp:cursor).",
            required: false,
        },
    );
    inputs.push(
        FieldSchema {
            name: "tool_filter",
            ty: TypeSchema::Option(Box::new(TypeSchema::String)),
            comment: "Filter by tool_name (memory.store, memory.note, tree.tag).",
            required: false,
        },
    );
    inputs.push(
        FieldSchema {
            name: "success_only",
            ty: TypeSchema::Option(Box::new(TypeSchema::Bool)),
            comment: "When set, filter to successes (true) or failures (false).",
            required: false,
        },
    );
    let mut outputs: Vec<FieldSchema> = Vec::new();
    outputs.push(
        FieldSchema {
            name: "writes",
            ty: TypeSchema::Array(Box::new(TypeSchema::Ref("McpWriteRecord"))),
            comment: "Audit rows, newest first.",
            required: true,
        },
    );
    let s = ControllerSchema {
        namespace: "mcp_audit",
        function: "audit_list",
        description: "List MCP write-tool audit history (memory.store, memory.note, tree.tag). Metadata only — not exposed to MCP clients.",
        inputs,
        outputs,
    };
    proof {
        lemma_schema_matches_wire_types(s);
    }
    s
}

/// What `all_controller_schemas` gives: the schema of `audit_list` alone.
pub open spec fn lists_controller_schemas(v: Seq<ControllerSchema>) -> bool {
    &&& v.len() == 1
    &&& is_audit_list_schema(v[0])
}

/// What `all_registered_controllers` gives: `audit_list` alone, with its schema
/// and dispatching to the audit listing.
pub open spec fn registers_controllers(v: Seq<RegisteredController>) -> bool {
    &&& v.len() == 1
    &&& is_audit_list_schema(v[0].schema)
    &&& v[0].handler == ControllerHandler::AuditList
}

/// The schemas of every controller of this namespace: `audit_list` alone.
pub fn all_controller_schemas() -> (v: Vec<ControllerSchema>)
    ensures
        lists_controller_schemas(v@),
{
    let mut v: Vec<ControllerSchema> = Vec::new();
    v.push(schemas("audit_list"));
    v
}

/// Every controller of this namespace with its handler: `audit_list` alone,
/// dispatching to the audit listing.
pub fn all_registered_controllers() -> (v: Vec<RegisteredController>)
    ensures
        registers_controllers(v@),
{
    let mut v: Vec<RegisteredController> = Vec::new();
    v.push(RegisteredController { schema: schemas("audit_list"), handler: ControllerHandler::AuditList });
    v
}

/// Registration and the schema list agree: whatever `all_controller_schemas`
/// and `all_registered_controllers` give, there are as many registered
/// controllers as listed schemas, and each registered controller carries, at
/// the same position, a schema with the same namespace, function, description,
/// inputs and outputs as the listed one.
pub proof fn lemma_registered_schemas_match(
    schemas_listed: Seq<ControllerSchema>,
    registered: Seq<RegisteredController>,
)
    requires
        lists_controller_schemas(schemas_listed),
        registers_controllers(registered),
    ensures
        registered.len() == schemas_listed.len(),
        forall|i: int|
            0 <= i < registered.len() ==> {
                &&& #[trigger] registered[i].schema.namespace@ == schemas_listed[i].namespace@
                &&& registered[i].schema.function@ == schemas_listed[i].function@
                &&& registered[i].schema.description@ == schemas_listed[i].description@
                &&& registered[i].schema.inputs@.len() == schemas_listed[i].inputs@.len()
                &&& forall|k: int|
                    0 <= k < registered[i].schema.inputs@.len() ==> {
                        &&& #[trigger] registered[i].schema.inputs@[k].name@
                            == schemas_listed[i].inputs@[k].name@
                        &&& registered[i].schema.inputs@[k].ty == schemas_listed[i].inputs@[k].ty
                        &&& registered[i].schema.inputs@[k].comment@
                            == schemas_listed[i].inputs@[k].comment@
                        &&& registered[i].schema.inputs@[k].required
                            == schemas_listed[i].inputs@[k].required
                    }
                &&& registered[i].schema.outputs@.len() == schemas_listed[i].outputs@.len()
                &&& registered[i].schema.outputs@[0].name@ == schemas_listed[i].outputs@[0].name@
                &&& registered[i].schema.outputs@[0].ty == schemas_listed[i].outputs@[0].ty
            },
{
    assert forall|i: int| 0 <= i < registered.len() implies {
        &&& registered[i].schema.inputs@.len() == schemas_listed[i].inputs@.len()
        &&& forall|k: int|
            0 <= k < registered[i].schema.inputs@.len() ==> {
                &&& #[trigger] registered[i].schema.inputs@[k].name@
                    == schemas_listed[i].inputs@[k].name@
                &&& registered[i].schema.inputs@[k].ty == schemas_listed[i].inputs@[k].ty
                &&& registered[i].schema.inputs@[k].comment@ == schemas_listed[i].inputs@[k].comment@
                &&& registered[i].schema.inputs@[k].required == schemas_listed[i].inputs@[k].required
            }
    } by {
        assert(i == 0);
        assert forall|k: int| 0 <= k < 6 implies {
            &&& #[trigger] registered[0].schema.inputs@[k].name@ == schemas_listed[0].inputs@[k].name@
            &&& registered[0].schema.inputs@[k].ty == schemas_listed[0].inputs@[k].ty
            &&& registered[0].schema.inputs@[k].comment@ == schemas_listed[0].inputs@[k].comment@
            &&& registered[0].schema.inputs@[k].required == schemas_listed[0].inputs@[k].required
        } by {
            assert(k == 0 || k == 1 || k == 2 || k == 3 || k == 4 || k == 5);
        }
    }
}

} // verus!
