//! SSH AWX Project Update Status Tool Handler
//!
//! Polls the status of an AWX project update (SCM sync) via REST API relayed
//! through SSH.
use crate::awx::{call_command, endpoint_with_id, id_endpoint, id_refusal, ApiRequest, AwxTool};
use crate::builders::awx::{AwxCommandBuilder, HttpMethod};
use crate::config::AwxConfig;
use crate::error::{BridgeError, Refusal};
use crate::tool::{Annotation, OutputKind, ToolHandler};
use vstd::prelude::*;

verus! {

/// Arguments for `ssh_awx_project_update_status` tool.
#[derive(Debug)]
pub struct SshAwxProjectUpdateStatusArgs {
    pub project_update_id: u64,
    pub timeout_seconds: Option<u64>,
}

/// Handler for the `ssh_awx_project_update_status` tool.
pub struct SshAwxProjectUpdateStatusHandler;

impl Default for SshAwxProjectUpdateStatusHandler {
    fn default() -> (r: Self)
        ensures
            r == SshAwxProjectUpdateStatusHandler,
    {
        Self::new()
    }
}

impl SshAwxProjectUpdateStatusHandler {
    /// Create a new handler instance.
    #[must_use]
    pub fn new() -> (r: Self)
        ensures
            r == SshAwxProjectUpdateStatusHandler,
    {
        SshAwxProjectUpdateStatusHandler
    }
}

/// What the tool is for, in words for its clients.
pub const DESCRIPTION: &'static str =
    "Poll the status of an AWX project update (SCM sync) by its ID. Use ssh_awx_project_sync \
    to trigger a sync and discover the project update ID, then poll this until completion. \
    jq_filter='{id,status,failed,elapsed,finished}'.";

/// The JSON schema of the tool's arguments.
pub const SCHEMA: &'static str = r#"{
        "type": "object",
        "properties": {
            "project_update_id": {
                "type": "integer",
                "description": "AWX project update ID",
                "minimum": 1
            },
            "timeout_seconds": {
                "type": "integer",
                "description": "Optional timeout in seconds (default: from config)",
                "minimum": 1,
                "maximum": 3600
            }
        },
        "required": ["project_update_id"]
    }"#;

impl ToolHandler for SshAwxProjectUpdateStatusHandler {
    const TOOL_NAME: &'static str = "ssh_awx_project_update_status";

    const TOOL_DESCRIPTION: &'static str = DESCRIPTION;

    const INPUT_SCHEMA: &'static str = SCHEMA;

    const TOOL_GROUP: &'static str = "awx";

    const EFFECT: Annotation = Annotation::ReadOnly;

    const KIND: OutputKind = OutputKind::Json;
}

impl AwxTool for SshAwxProjectUpdateStatusHandler {
    type Args = SshAwxProjectUpdateStatusArgs;

    const CHECKED: bool = true;

    open spec fn refusal(args: SshAwxProjectUpdateStatusArgs) -> Option<Refusal> {
        id_refusal(args.project_update_id)
    }

    open spec fn request(args: SshAwxProjectUpdateStatusArgs) -> Result<ApiRequest, Refusal> {
        Ok(
            ApiRequest {
                method: HttpMethod::Get,
                endpoint: endpoint_with_id("/api/v2/project_updates/", args.project_update_id, "/"),
                params: seq![],
                body: None,
                timeout: args.timeout_seconds,
            },
        )
    }

    fn validate(args: &SshAwxProjectUpdateStatusArgs) -> (r: Result<(), BridgeError>) {
        AwxCommandBuilder::validate_id(args.project_update_id)
    }

    fn build_command(
        args: &SshAwxProjectUpdateStatusArgs,
        awx: &AwxConfig,
    ) -> (r: Result<String, BridgeError>) {
        let endpoint: String = id_endpoint("/api/v2/project_updates/", args.project_update_id, "/");
        Ok(
            call_command(
                awx,
                HttpMethod::Get,
                endpoint.as_str(),
                &[],
                None,
                args.timeout_seconds,
                true,
            ),
        )
    }
}

/// What clients are told of the tool.
pub proof fn presents_itself()
    ensures
        <SshAwxProjectUpdateStatusHandler as ToolHandler>::TOOL_NAME@ == "ssh_awx_project_update_status"@,
        <SshAwxProjectUpdateStatusHandler as ToolHandler>::TOOL_DESCRIPTION@ == DESCRIPTION@,
        <SshAwxProjectUpdateStatusHandler as ToolHandler>::INPUT_SCHEMA@ == SCHEMA@,
        <SshAwxProjectUpdateStatusHandler as ToolHandler>::TOOL_GROUP@ == "awx"@,
        <SshAwxProjectUpdateStatusHandler as ToolHandler>::EFFECT == Annotation::ReadOnly,
        <SshAwxProjectUpdateStatusHandler as ToolHandler>::KIND == OutputKind::Json,
        <SshAwxProjectUpdateStatusHandler as AwxTool>::CHECKED,
{
}

} // verus!
