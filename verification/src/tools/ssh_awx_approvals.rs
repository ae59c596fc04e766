//! SSH AWX Approvals Tool Handler
//!
//! Lists AWX workflow approval nodes via REST API relayed through SSH.
use crate::awx::{call_command, page_size_or, page_size_text, ApiRequest, AwxTool};
use crate::builders::awx::{param_texts, HttpMethod};
use crate::config::AwxConfig;
use crate::error::{BridgeError, Refusal};
use crate::text::same_text;
use crate::tool::{Annotation, OutputKind, ToolHandler};
use vstd::prelude::*;

verus! {

/// Approval status filter.
#[derive(Debug)]
pub enum ApprovalStatus {
    /// Awaiting an approve/deny decision.
    Pending,
    /// Already approved.
    Successful,
    /// Already denied or timed out.
    Failed,
}

/// Arguments for the `ssh_awx_approvals` tool.
#[derive(Debug)]
pub struct SshAwxApprovalsArgs {
    /// Filter by approval status (default: pending).
    pub status: ApprovalStatus,
    pub page_size: Option<u32>,
    pub timeout_seconds: Option<u64>,
}

impl ApprovalStatus {
    /// AWX query-string value for this status.
    pub open spec fn text(self) -> &'static str {
        match self {
            ApprovalStatus::Pending => "pending",
            ApprovalStatus::Successful => "successful",
            ApprovalStatus::Failed => "failed",
        }
    }

    /// AWX query-string value for this status.
    pub fn as_str(&self) -> (r: &'static str)
        ensures
            r@ == self.text()@,
    {
        match self {
            ApprovalStatus::Pending => "pending",
            ApprovalStatus::Successful => "successful",
            ApprovalStatus::Failed => "failed",
        }
    }

    /// The status that a text stands for.
    pub open spec fn read(text: Seq<char>) -> Option<ApprovalStatus> {
        if text == "pending"@ {
            Some(ApprovalStatus::Pending)
        } else if text == "successful"@ {
            Some(ApprovalStatus::Successful)
        } else if text == "failed"@ {
            Some(ApprovalStatus::Failed)
        } else {
            None
        }
    }

    /// The status that a text stands for.
    pub fn from_text(text: &str) -> (r: Option<Self>)
        ensures
            r == Self::read(text@),
    {
        if same_text(text, "pending") {
            Some(ApprovalStatus::Pending)
        } else if same_text(text, "successful") {
            Some(ApprovalStatus::Successful)
        } else if same_text(text, "failed") {
            Some(ApprovalStatus::Failed)
        } else {
            None
        }
    }
}

/// Every status reads back from its text, and no other text is read as a status.
pub proof fn statuses_read_back(v: ApprovalStatus, t: Seq<char>)
    ensures
        ApprovalStatus::read(v.text()@) == Some(v),
        ApprovalStatus::read(t) is None ==> v.text()@ != t,
        ApprovalStatus::read(t) == Some(v) ==> v.text()@ == t,
{
    reveal_strlit("pending");
    reveal_strlit("successful");
    reveal_strlit("failed");
    assert("pending"@.len() == 7);
    assert("successful"@.len() == 10);
    assert("failed"@.len() == 6);
}

impl Default for ApprovalStatus {
    fn default() -> (r: Self)
        ensures
            r == ApprovalStatus::Pending,
    {
        ApprovalStatus::Pending
    }
}

/// Handler for the `ssh_awx_approvals` tool.
pub struct SshAwxApprovalsHandler;

impl Default for SshAwxApprovalsHandler {
    fn default() -> (r: Self)
        ensures
            r == SshAwxApprovalsHandler,
    {
        Self::new()
    }
}

impl SshAwxApprovalsHandler {
    /// Create a new handler instance.
    #[must_use]
    pub fn new() -> (r: Self)
        ensures
            r == SshAwxApprovalsHandler,
    {
        SshAwxApprovalsHandler
    }
}

/// What the tool is for, in words for its clients.
pub const DESCRIPTION: &'static str =
    "List AWX workflow approval nodes (default: pending). Each pending approval blocks its \
    workflow until resolved with ssh_awx_approval_approve or ssh_awx_approval_deny. Use \
    jq_filter (e.g. '.results[] | {id, name, workflow_job: \
    .summary_fields.source_workflow_job.id}').";

/// The JSON schema of the tool's arguments.
pub const SCHEMA: &'static str = r#"{
        "type": "object",
        "properties": {
            "status": {
                "type": "string",
                "description": "Filter by approval status (default: pending)",
                "enum": ["pending", "successful", "failed"]
            },
            "page_size": {
                "type": "integer",
                "description": "Number of results per page (default: 50)",
                "minimum": 1,
                "maximum": 200
            },
            "timeout_seconds": {
                "type": "integer",
                "description": "Optional timeout in seconds (default: from config)",
                "minimum": 1,
                "maximum": 3600
            }
        },
        "required": []
    }"#;

impl ToolHandler for SshAwxApprovalsHandler {
    const TOOL_NAME: &'static str = "ssh_awx_approvals";

    const TOOL_DESCRIPTION: &'static str = DESCRIPTION;

    const INPUT_SCHEMA: &'static str = SCHEMA;

    const TOOL_GROUP: &'static str = "awx";

    const EFFECT: Annotation = Annotation::ReadOnly;

    const KIND: OutputKind = OutputKind::Json;
}

impl AwxTool for SshAwxApprovalsHandler {
    type Args = SshAwxApprovalsArgs;

    const CHECKED: bool = true;

    open spec fn refusal(args: SshAwxApprovalsArgs) -> Option<Refusal> {
        None
    }

    open spec fn request(args: SshAwxApprovalsArgs) -> Result<ApiRequest, Refusal> {
        Ok(
            ApiRequest {
                method: HttpMethod::Get,
                endpoint: "/api/v2/workflow_approvals/"@,
                params: seq![
                    ("page_size"@, page_size_or(args.page_size, 50)),
                    ("status"@, args.status.text()@),
                ],
                body: None,
                timeout: args.timeout_seconds,
            },
        )
    }

    fn validate(args: &SshAwxApprovalsArgs) -> (r: Result<(), BridgeError>) {
        Ok(())
    }

    fn build_command(
        args: &SshAwxApprovalsArgs,
        awx: &AwxConfig,
    ) -> (r: Result<String, BridgeError>) {
        let page_size: String = page_size_text(args.page_size, 50);
        let params: [(&str, &str); 2] = [
            ("page_size", page_size.as_str()),
            ("status", args.status.as_str()),
        ];
        assert(param_texts(params@) =~= seq![
            ("page_size"@, page_size_or(args.page_size, 50)),
            ("status"@, args.status.text()@),
        ]);
        let command: String = call_command(
            awx,
            HttpMethod::Get,
            "/api/v2/workflow_approvals/",
            &params,
            None,
            args.timeout_seconds,
            true,
        );
        Ok(command)
    }
}

/// What clients are told of the tool.
pub proof fn presents_itself()
    ensures
        <SshAwxApprovalsHandler as ToolHandler>::TOOL_NAME@ == "ssh_awx_approvals"@,
        <SshAwxApprovalsHandler as ToolHandler>::TOOL_DESCRIPTION@ == DESCRIPTION@,
        <SshAwxApprovalsHandler as ToolHandler>::INPUT_SCHEMA@ == SCHEMA@,
        <SshAwxApprovalsHandler as ToolHandler>::TOOL_GROUP@ == "awx"@,
        <SshAwxApprovalsHandler as ToolHandler>::EFFECT == Annotation::ReadOnly,
        <SshAwxApprovalsHandler as ToolHandler>::KIND == OutputKind::Json,
        <SshAwxApprovalsHandler as AwxTool>::CHECKED,
{
}

} // verus!
