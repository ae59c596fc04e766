//! Handler for the `ssh_awx_project_update_stdout` tool.
//!
//! Retrieves the full stdout of an AWX project update (SCM sync) by
//! building a `curl` GET command and relaying it via SSH to the
//! configured AWX host.
use crate::awx::{call_command, endpoint_with_id, id_endpoint, id_refusal, ApiRequest, AwxTool};
use crate::builders::awx::{param_texts, AwxCommandBuilder, HttpMethod};
use crate::config::AwxConfig;
use crate::error::{BridgeError, Refusal};
use crate::tool::{Annotation, OutputKind, ToolHandler};
use vstd::prelude::*;

verus! {

/// Arguments for the `ssh_awx_project_update_stdout` tool.
#[derive(Debug)]
pub struct SshAwxProjectUpdateStdoutArgs {
    /// AWX project update ID.
    pub project_update_id: u64,
}

/// Handler for retrieving the full stdout of an AWX project update.
pub struct SshAwxProjectUpdateStdoutHandler;

impl Default for SshAwxProjectUpdateStdoutHandler {
    fn default() -> (r: Self)
        ensures
            r == SshAwxProjectUpdateStdoutHandler,
    {
        Self::new()
    }
}

impl SshAwxProjectUpdateStdoutHandler {
    /// Create a new handler instance.
    #[must_use]
    pub fn new() -> (r: Self)
        ensures
            r == SshAwxProjectUpdateStdoutHandler,
    {
        SshAwxProjectUpdateStdoutHandler
    }
}

/// What the tool is for, in words for its clients.
pub const DESCRIPTION: &'static str =
    "Get the full stdout (SCM sync log) of an AWX project update. Warning: can be \
    very large. Use ssh_awx_project_update_status for token-efficient polling.";

/// The JSON schema of the tool's arguments.
pub const SCHEMA: &'static str = r#"{
    "type": "object",
    "properties": {
        "project_update_id": {
            "type": "integer",
            "description": "AWX project update ID",
            "minimum": 1
        }
    },
    "required": ["project_update_id"]
}"#;

impl ToolHandler for SshAwxProjectUpdateStdoutHandler {
    const TOOL_NAME: &'static str = "ssh_awx_project_update_stdout";

    const TOOL_DESCRIPTION: &'static str = DESCRIPTION;

    const INPUT_SCHEMA: &'static str = SCHEMA;

    const TOOL_GROUP: &'static str = "awx";

    const EFFECT: Annotation = Annotation::ReadOnly;

    const KIND: OutputKind = OutputKind::RawText;
}

impl AwxTool for SshAwxProjectUpdateStdoutHandler {
    type Args = SshAwxProjectUpdateStdoutArgs;

    const CHECKED: bool = true;

    open spec fn refusal(args: SshAwxProjectUpdateStdoutArgs) -> Option<Refusal> {
        id_refusal(args.project_update_id)
    }

    open spec fn request(args: SshAwxProjectUpdateStdoutArgs) -> Result<ApiRequest, Refusal> {
        Ok(
            ApiRequest {
                method: HttpMethod::Get,
                endpoint: endpoint_with_id(
                    "/api/v2/project_updates/",
                    args.project_update_id,
                    "/stdout/",
                ),
                params: seq![("format"@, "txt"@)],
                body: None,
                timeout: None,
            },
        )
    }

    fn validate(args: &SshAwxProjectUpdateStdoutArgs) -> (r: Result<(), BridgeError>) {
        AwxCommandBuilder::validate_id(args.project_update_id)
    }

    fn build_command(
        args: &SshAwxProjectUpdateStdoutArgs,
        awx: &AwxConfig,
    ) -> (r: Result<String, BridgeError>) {
        let endpoint: String = id_endpoint(
            "/api/v2/project_updates/",
            args.project_update_id,
            "/stdout/",
        );
        let params: [(&str, &str); 1] = [("format", "txt")];
        assert(param_texts(params@) =~= seq![("format"@, "txt"@)]);
        Ok(call_command(awx, HttpMethod::Get, endpoint.as_str(), &params, None, None, true))
    }
}

/// What clients are told of the tool.
pub proof fn presents_itself()
    ensures
        <SshAwxProjectUpdateStdoutHandler as ToolHandler>::TOOL_NAME@ == "ssh_awx_project_update_stdout"@,
        <SshAwxProjectUpdateStdoutHandler as ToolHandler>::TOOL_DESCRIPTION@ == DESCRIPTION@,
        <SshAwxProjectUpdateStdoutHandler as ToolHandler>::INPUT_SCHEMA@ == SCHEMA@,
        <SshAwxProjectUpdateStdoutHandler as ToolHandler>::TOOL_GROUP@ == "awx"@,
        <SshAwxProjectUpdateStdoutHandler as ToolHandler>::EFFECT == Annotation::ReadOnly,
        <SshAwxProjectUpdateStdoutHandler as ToolHandler>::KIND == OutputKind::RawText,
        <SshAwxProjectUpdateStdoutHandler as AwxTool>::CHECKED,
{
}

} // verus!
