//! SSH AWX Workflow Approvals Tool Handler
//!
//! Lists the approval nodes a given workflow run is blocked on, via the AWX
//! REST API relayed through SSH.
use crate::awx::{call_command, id_refusal, page_size_or, page_size_text, ApiRequest, AwxTool};
use crate::builders::awx::{param_texts, AwxCommandBuilder, HttpMethod};
use crate::config::AwxConfig;
use crate::error::{BridgeError, Refusal};
use crate::text::{decimal, decimal_text};
use crate::tool::{Annotation, OutputKind, ToolHandler};
use vstd::prelude::*;

verus! {

/// Arguments for `ssh_awx_workflow_approvals` tool.
#[derive(Debug)]
pub struct SshAwxWorkflowApprovalsArgs {
    pub workflow_job_id: u64,
    pub status: Option<String>,
    pub page_size: Option<u32>,
    pub timeout_seconds: Option<u64>,
}

/// The status to filter by, pending unless the caller names another.
pub open spec fn status_or_pending(status: Option<String>) -> Seq<char> {
    match status {
        Some(s) => s@,
        None => "pending"@,
    }
}

/// Handler for the `ssh_awx_workflow_approvals` tool.
pub struct SshAwxWorkflowApprovalsHandler;

impl Default for SshAwxWorkflowApprovalsHandler {
    fn default() -> (r: Self)
        ensures
            r == SshAwxWorkflowApprovalsHandler,
    {
        Self::new()
    }
}

impl SshAwxWorkflowApprovalsHandler {
    /// Create a new handler instance.
    #[must_use]
    pub fn new() -> (r: Self)
        ensures
            r == SshAwxWorkflowApprovalsHandler,
    {
        SshAwxWorkflowApprovalsHandler
    }
}

/// What the tool is for, in words for its clients.
pub const DESCRIPTION: &'static str =
    "Approvals a given workflow run is blocked on. jq_filter='.results[] | {id,name,status}'.";

/// The JSON schema of the tool's arguments.
pub const SCHEMA: &'static str = r#"{
        "type": "object",
        "properties": {
            "workflow_job_id": {
                "type": "integer",
                "description": "ID of the workflow job whose pending approvals to list",
                "minimum": 1
            },
            "status": {
                "type": "string",
                "description": "Approval status filter (default: pending)"
            },
            "page_size": {
                "type": "integer",
                "description": "Number of results per page (default: 50)",
                "minimum": 1,
                "maximum": 200
            },
            "timeout_seconds": {
                "type": "integer",
                "description": "Optional timeout in seconds (default: from config)",
                "minimum": 1,
                "maximum": 3600
            }
        },
        "required": ["workflow_job_id"]
    }"#;

impl ToolHandler for SshAwxWorkflowApprovalsHandler {
    const TOOL_NAME: &'static str = "ssh_awx_workflow_approvals";

    const TOOL_DESCRIPTION: &'static str = DESCRIPTION;

    const INPUT_SCHEMA: &'static str = SCHEMA;

    const TOOL_GROUP: &'static str = "awx";

    const EFFECT: Annotation = Annotation::ReadOnly;

    const KIND: OutputKind = OutputKind::Json;
}

impl AwxTool for SshAwxWorkflowApprovalsHandler {
    type Args = SshAwxWorkflowApprovalsArgs;

    const CHECKED: bool = true;

    open spec fn refusal(args: SshAwxWorkflowApprovalsArgs) -> Option<Refusal> {
        id_refusal(args.workflow_job_id)
    }

    open spec fn request(args: SshAwxWorkflowApprovalsArgs) -> Result<ApiRequest, Refusal> {
        Ok(
            ApiRequest {
                method: HttpMethod::Get,
                endpoint: "/api/v2/workflow_approvals/"@,
                params: seq![
                    ("unified_job_node__workflow_job"@, decimal(args.workflow_job_id as nat)),
                    ("status"@, status_or_pending(args.status)),
                    ("page_size"@, page_size_or(args.page_size, 50)),
                ],
                body: None,
                timeout: args.timeout_seconds,
            },
        )
    }

    fn validate(args: &SshAwxWorkflowApprovalsArgs) -> (r: Result<(), BridgeError>) {
        AwxCommandBuilder::validate_id(args.workflow_job_id)
    }

    fn build_command(
        args: &SshAwxWorkflowApprovalsArgs,
        awx: &AwxConfig,
    ) -> (r: Result<String, BridgeError>) {
        let id: String = decimal_text(args.workflow_job_id);
        let status: &str = match &args.status {
            Some(s) => s.as_str(),
            None => "pending",
        };
        let page_size: String = page_size_text(args.page_size, 50);
        // `source_workflow_job` is only a summary field, not a column that can be filtered by. The
        // relation from an approval to its run is `unified_job_node__workflow_job`.
        let params: [(&str, &str); 3] = [
            ("unified_job_node__workflow_job", id.as_str()),
            ("status", status),
            ("page_size", page_size.as_str()),
        ];
        assert(param_texts(params@) =~= seq![
            ("unified_job_node__workflow_job"@, decimal(args.workflow_job_id as nat)),
            ("status"@, status_or_pending(args.status)),
            ("page_size"@, page_size_or(args.page_size, 50)),
        ]);
        Ok(
            call_command(
                awx,
                HttpMethod::Get,
                "/api/v2/workflow_approvals/",
                &params,
                None,
                args.timeout_seconds,
                true,
            ),
        )
    }
}

/// What clients are told of the tool.
pub proof fn presents_itself()
    ensures
        <SshAwxWorkflowApprovalsHandler as ToolHandler>::TOOL_NAME@ == "ssh_awx_workflow_approvals"@,
        <SshAwxWorkflowApprovalsHandler as ToolHandler>::TOOL_DESCRIPTION@ == DESCRIPTION@,
        <SshAwxWorkflowApprovalsHandler as ToolHandler>::INPUT_SCHEMA@ == SCHEMA@,
        <SshAwxWorkflowApprovalsHandler as ToolHandler>::TOOL_GROUP@ == "awx"@,
        <SshAwxWorkflowApprovalsHandler as ToolHandler>::EFFECT == Annotation::ReadOnly,
        <SshAwxWorkflowApprovalsHandler as ToolHandler>::KIND == OutputKind::Json,
        <SshAwxWorkflowApprovalsHandler as AwxTool>::CHECKED,
{
}

} // verus!
