//! SSH AWX Inventory Groups Tool Handler
//!
//! Lists groups in an AWX inventory via REST API relayed through SSH.
use crate::awx::{
    call_command, endpoint_with_id, id_endpoint, id_refusal, page_size_or, page_size_text,
    ApiRequest, AwxTool,
};
use crate::builders::awx::{param_texts, AwxCommandBuilder, HttpMethod};
use crate::config::AwxConfig;
use crate::error::{BridgeError, Refusal};
use crate::tool::{Annotation, OutputKind, ToolHandler};
use vstd::prelude::*;

verus! {

/// Arguments for `ssh_awx_inventory_groups` tool.
#[derive(Debug)]
pub struct SshAwxInventoryGroupsArgs {
    pub inventory_id: u64,
    pub page_size: Option<u32>,
    pub timeout_seconds: Option<u64>,
}

/// Handler for the `ssh_awx_inventory_groups` tool.
pub struct SshAwxInventoryGroupsHandler;

impl Default for SshAwxInventoryGroupsHandler {
    fn default() -> (r: Self)
        ensures
            r == SshAwxInventoryGroupsHandler,
    {
        Self::new()
    }
}

impl SshAwxInventoryGroupsHandler {
    /// Create a new handler instance.
    #[must_use]
    pub fn new() -> (r: Self)
        ensures
            r == SshAwxInventoryGroupsHandler,
    {
        SshAwxInventoryGroupsHandler
    }
}

/// What the tool is for, in words for its clients.
pub const DESCRIPTION: &'static str =
    "List groups in an AWX inventory. Returns group names, IDs, and variables. \
    jq_filter='.results[] | {id,name}' output_format=tsv.";

/// The JSON schema of the tool's arguments.
pub const SCHEMA: &'static str = r#"{
        "type": "object",
        "properties": {
            "inventory_id": {
                "type": "integer",
                "description": "AWX inventory ID",
                "minimum": 1
            },
            "page_size": {
                "type": "integer",
                "description": "Number of results per page (default: 50)",
                "minimum": 1,
                "maximum": 200
            },
            "timeout_seconds": {
                "type": "integer",
                "description": "Optional timeout in seconds (default: from config)",
                "minimum": 1,
                "maximum": 3600
            }
        },
        "required": ["inventory_id"]
    }"#;

impl ToolHandler for SshAwxInventoryGroupsHandler {
    const TOOL_NAME: &'static str = "ssh_awx_inventory_groups";

    const TOOL_DESCRIPTION: &'static str = DESCRIPTION;

    const INPUT_SCHEMA: &'static str = SCHEMA;

    const TOOL_GROUP: &'static str = "awx";

    const EFFECT: Annotation = Annotation::ReadOnly;

    const KIND: OutputKind = OutputKind::Json;
}

impl AwxTool for SshAwxInventoryGroupsHandler {
    type Args = SshAwxInventoryGroupsArgs;

    const CHECKED: bool = true;

    open spec fn refusal(args: SshAwxInventoryGroupsArgs) -> Option<Refusal> {
        id_refusal(args.inventory_id)
    }

    open spec fn request(args: SshAwxInventoryGroupsArgs) -> Result<ApiRequest, Refusal> {
        Ok(
            ApiRequest {
                method: HttpMethod::Get,
                endpoint: endpoint_with_id("/api/v2/inventories/", args.inventory_id, "/groups/"),
                params: seq![("page_size"@, page_size_or(args.page_size, 50))],
                body: None,
                timeout: args.timeout_seconds,
            },
        )
    }

    fn validate(args: &SshAwxInventoryGroupsArgs) -> (r: Result<(), BridgeError>) {
        AwxCommandBuilder::validate_id(args.inventory_id)
    }

    fn build_command(
        args: &SshAwxInventoryGroupsArgs,
        awx: &AwxConfig,
    ) -> (r: Result<String, BridgeError>) {
        let endpoint: String = id_endpoint("/api/v2/inventories/", args.inventory_id, "/groups/");
        let page_size: String = page_size_text(args.page_size, 50);
        let params: [(&str, &str); 1] = [("page_size", page_size.as_str())];
        assert(param_texts(params@) =~= seq![("page_size"@, page_size_or(args.page_size, 50))]);
        Ok(
            call_command(
                awx,
                HttpMethod::Get,
                endpoint.as_str(),
                &params,
                None,
                args.timeout_seconds,
                true,
            ),
        )
    }
}

/// What clients are told of the tool.
pub proof fn presents_itself()
    ensures
        <SshAwxInventoryGroupsHandler as ToolHandler>::TOOL_NAME@ == "ssh_awx_inventory_groups"@,
        <SshAwxInventoryGroupsHandler as ToolHandler>::TOOL_DESCRIPTION@ == DESCRIPTION@,
        <SshAwxInventoryGroupsHandler as ToolHandler>::INPUT_SCHEMA@ == SCHEMA@,
        <SshAwxInventoryGroupsHandler as ToolHandler>::TOOL_GROUP@ == "awx"@,
        <SshAwxInventoryGroupsHandler as ToolHandler>::EFFECT == Annotation::ReadOnly,
        <SshAwxInventoryGroupsHandler as ToolHandler>::KIND == OutputKind::Json,
        <SshAwxInventoryGroupsHandler as AwxTool>::CHECKED,
{
}

} // verus!
