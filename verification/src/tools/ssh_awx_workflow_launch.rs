//! SSH AWX Workflow Launch Tool Handler
//!
//! Launches an AWX workflow job from a workflow job template via REST API relayed through SSH.
use crate::awx::{
    call_command, endpoint_with_id, id_endpoint, id_refusal, opt_json_number, opt_json_text,
    set_number, set_text, with_field, ApiRequest, AwxTool,
};
use crate::builders::awx::{AwxCommandBuilder, HttpMethod};
use crate::config::AwxConfig;
use crate::error::{BridgeError, Refusal};
use crate::json::{
    contents, has_no_fields, json_text, new_object, no_fields, object_value, set_field, text_value,
    value_text, Json,
};
use crate::shell::opt_text;
use crate::tool::{Annotation, OutputKind, ToolHandler};
use vstd::prelude::*;

verus! {

/// Arguments for the `ssh_awx_workflow_launch` tool.
#[derive(Debug)]
pub struct SshAwxWorkflowLaunchArgs {
    /// Workflow job template ID to launch.
    pub workflow_template_id: u64,
    /// Extra variables to pass to the workflow (JSON object).
    pub extra_vars: Option<serde_json::Value>,
    /// Limit pattern (host subset) applied to the workflow's jobs.
    pub limit: Option<String>,
    /// Inventory ID to use instead of the workflow default.
    pub inventory: Option<u64>,
}

/// The extra variables, sent as the JSON text of their value.
pub open spec fn vars_field(extra_vars: Option<serde_json::Value>) -> Option<Json> {
    match extra_vars {
        Some(v) => Some(Json::Text(json_text(contents(v)))),
        None => None,
    }
}

/// The fields of the request body: those that are present.
pub open spec fn launch_fields(args: SshAwxWorkflowLaunchArgs) -> Map<Seq<char>, Json> {
    let vars = with_field(no_fields(), "extra_vars", vars_field(args.extra_vars));
    let limited = with_field(vars, "limit", opt_json_text(args.limit));
    with_field(limited, "inventory", opt_json_number(args.inventory))
}

/// The request body, which is left out where no field is present.
pub open spec fn launch_body(args: SshAwxWorkflowLaunchArgs) -> Option<Seq<char>> {
    if launch_fields(args) == no_fields() {
        None
    } else {
        Some(json_text(Json::Object(launch_fields(args))))
    }
}

/// Builds the request body.
pub fn build_launch_body(args: &SshAwxWorkflowLaunchArgs) -> (r: Option<String>)
    ensures
        opt_text(r) == launch_body(*args),
{
    let mut body = new_object();
    if let Some(v) = &args.extra_vars {
        set_field(&mut body, "extra_vars", text_value(value_text(v)));
    }
    set_text(&mut body, "limit", &args.limit);
    set_number(&mut body, "inventory", args.inventory);
    if has_no_fields(&body) {
        None
    } else {
        Some(value_text(&object_value(body)))
    }
}

/// Handler for the `ssh_awx_workflow_launch` tool.
pub struct SshAwxWorkflowLaunchHandler;

impl Default for SshAwxWorkflowLaunchHandler {
    fn default() -> (r: Self)
        ensures
            r == SshAwxWorkflowLaunchHandler,
    {
        Self::new()
    }
}

impl SshAwxWorkflowLaunchHandler {
    /// Create a new handler instance.
    #[must_use]
    pub fn new() -> (r: Self)
        ensures
            r == SshAwxWorkflowLaunchHandler,
    {
        SshAwxWorkflowLaunchHandler
    }
}

/// What the tool is for, in words for its clients.
pub const DESCRIPTION: &'static str =
    "Launch an AWX workflow job from a workflow job template. Returns the workflow job ID and \
    initial status. Monitor with ssh_awx_workflow_status and ssh_awx_workflow_nodes.";

/// The JSON schema of the tool's arguments.
pub const SCHEMA: &'static str = r#"{
    "type": "object",
    "properties": {
        "workflow_template_id": {
            "type": "integer",
            "description": "Workflow job template ID to launch",
            "minimum": 1
        },
        "extra_vars": {
            "type": "object",
            "description": "Extra variables to pass to the workflow (JSON object)"
        },
        "limit": {
            "type": "string",
            "description": "Limit pattern (host subset) applied to the workflow's jobs"
        },
        "inventory": {
            "type": "integer",
            "description": "Inventory ID to use instead of the workflow default",
            "minimum": 1
        }
    },
    "required": ["workflow_template_id"]
}"#;

impl ToolHandler for SshAwxWorkflowLaunchHandler {
    const TOOL_NAME: &'static str = "ssh_awx_workflow_launch";

    const TOOL_DESCRIPTION: &'static str = DESCRIPTION;

    const INPUT_SCHEMA: &'static str = SCHEMA;

    const TOOL_GROUP: &'static str = "awx";

    const EFFECT: Annotation = Annotation::Mutating;

    const KIND: OutputKind = OutputKind::Json;
}

impl AwxTool for SshAwxWorkflowLaunchHandler {
    type Args = SshAwxWorkflowLaunchArgs;

    const CHECKED: bool = true;

    open spec fn refusal(args: SshAwxWorkflowLaunchArgs) -> Option<Refusal> {
        id_refusal(args.workflow_template_id)
    }

    open spec fn request(args: SshAwxWorkflowLaunchArgs) -> Result<ApiRequest, Refusal> {
        Ok(
            ApiRequest {
                method: HttpMethod::Post,
                endpoint: endpoint_with_id(
                    "/api/v2/workflow_job_templates/",
                    args.workflow_template_id,
                    "/launch/",
                ),
                params: seq![],
                body: launch_body(args),
                timeout: None,
            },
        )
    }

    fn validate(args: &SshAwxWorkflowLaunchArgs) -> (r: Result<(), BridgeError>) {
        AwxCommandBuilder::validate_id(args.workflow_template_id)
    }

    fn build_command(
        args: &SshAwxWorkflowLaunchArgs,
        awx: &AwxConfig,
    ) -> (r: Result<String, BridgeError>) {
        let endpoint: String = id_endpoint(
            "/api/v2/workflow_job_templates/",
            args.workflow_template_id,
            "/launch/",
        );
        let body: Option<String> = build_launch_body(args);
        let body_text: Option<&str> = match &body {
            Some(b) => Some(b.as_str()),
            None => None,
        };
        Ok(call_command(awx, HttpMethod::Post, endpoint.as_str(), &[], body_text, None, true))
    }
}

/// What clients are told of the tool.
pub proof fn presents_itself()
    ensures
        <SshAwxWorkflowLaunchHandler as ToolHandler>::TOOL_NAME@ == "ssh_awx_workflow_launch"@,
        <SshAwxWorkflowLaunchHandler as ToolHandler>::TOOL_DESCRIPTION@ == DESCRIPTION@,
        <SshAwxWorkflowLaunchHandler as ToolHandler>::INPUT_SCHEMA@ == SCHEMA@,
        <SshAwxWorkflowLaunchHandler as ToolHandler>::TOOL_GROUP@ == "awx"@,
        <SshAwxWorkflowLaunchHandler as ToolHandler>::EFFECT == Annotation::Mutating,
        <SshAwxWorkflowLaunchHandler as ToolHandler>::KIND == OutputKind::Json,
        <SshAwxWorkflowLaunchHandler as AwxTool>::CHECKED,
{
}

} // verus!
