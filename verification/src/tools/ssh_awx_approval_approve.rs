//! SSH AWX Approval Approve Tool Handler
//!
//! Approves a pending AWX workflow approval via REST API relayed through SSH.
use crate::awx::{call_command, endpoint_with_id, id_endpoint, id_refusal, ApiRequest, AwxTool};
use crate::builders::awx::{AwxCommandBuilder, HttpMethod};
use crate::config::AwxConfig;
use crate::error::{BridgeError, Refusal};
use crate::tool::{Annotation, OutputKind, ToolHandler};
use vstd::prelude::*;

verus! {

/// Arguments for the `ssh_awx_approval_approve` tool.
#[derive(Debug)]
pub struct SshAwxApprovalApproveArgs {
    /// AWX workflow approval ID to approve.
    pub approval_id: u64,
}

/// Handler for the `ssh_awx_approval_approve` tool.
pub struct SshAwxApprovalApproveHandler;

impl Default for SshAwxApprovalApproveHandler {
    fn default() -> (r: Self)
        ensures
            r == SshAwxApprovalApproveHandler,
    {
        Self::new()
    }
}

impl SshAwxApprovalApproveHandler {
    /// Create a new handler instance.
    #[must_use]
    pub fn new() -> (r: Self)
        ensures
            r == SshAwxApprovalApproveHandler,
    {
        SshAwxApprovalApproveHandler
    }
}

/// What the tool is for, in words for its clients.
pub const DESCRIPTION: &'static str =
    "Approve a pending AWX workflow approval, allowing its workflow to proceed. Find the ID with ssh_awx_approvals.";

/// The JSON schema of the tool's arguments.
pub const SCHEMA: &'static str = r#"{
    "type": "object",
    "properties": {
        "approval_id": {
            "type": "integer",
            "description": "AWX workflow approval ID to approve",
            "minimum": 1
        }
    },
    "required": ["approval_id"]
}"#;

impl ToolHandler for SshAwxApprovalApproveHandler {
    const TOOL_NAME: &'static str = "ssh_awx_approval_approve";

    const TOOL_DESCRIPTION: &'static str = DESCRIPTION;

    const INPUT_SCHEMA: &'static str = SCHEMA;

    const TOOL_GROUP: &'static str = "awx";

    const EFFECT: Annotation = Annotation::Mutating;

    const KIND: OutputKind = OutputKind::Json;
}

impl AwxTool for SshAwxApprovalApproveHandler {
    type Args = SshAwxApprovalApproveArgs;

    const CHECKED: bool = false;

    open spec fn refusal(args: SshAwxApprovalApproveArgs) -> Option<Refusal> {
        id_refusal(args.approval_id)
    }

    open spec fn request(args: SshAwxApprovalApproveArgs) -> Result<ApiRequest, Refusal> {
        Ok(
            ApiRequest {
                method: HttpMethod::Post,
                endpoint: endpoint_with_id("/api/v2/workflow_approvals/", args.approval_id, "/approve/"),
                params: seq![],
                body: None,
                timeout: None,
            },
        )
    }

    fn validate(args: &SshAwxApprovalApproveArgs) -> (r: Result<(), BridgeError>) {
        AwxCommandBuilder::validate_id(args.approval_id)
    }

    fn build_command(
        args: &SshAwxApprovalApproveArgs,
        awx: &AwxConfig,
    ) -> (r: Result<String, BridgeError>) {
        let endpoint: String = id_endpoint("/api/v2/workflow_approvals/", args.approval_id, "/approve/");
        Ok(call_command(awx, HttpMethod::Post, endpoint.as_str(), &[], None, None, false))
    }
}

/// What clients are told of the tool.
pub proof fn presents_itself()
    ensures
        <SshAwxApprovalApproveHandler as ToolHandler>::TOOL_NAME@ == "ssh_awx_approval_approve"@,
        <SshAwxApprovalApproveHandler as ToolHandler>::TOOL_DESCRIPTION@ == DESCRIPTION@,
        <SshAwxApprovalApproveHandler as ToolHandler>::INPUT_SCHEMA@ == SCHEMA@,
        <SshAwxApprovalApproveHandler as ToolHandler>::TOOL_GROUP@ == "awx"@,
        <SshAwxApprovalApproveHandler as ToolHandler>::EFFECT == Annotation::Mutating,
        <SshAwxApprovalApproveHandler as ToolHandler>::KIND == OutputKind::Json,
        !<SshAwxApprovalApproveHandler as AwxTool>::CHECKED,
{
}

} // verus!
